use csv_light_editor::ai_script::models::{Script, ScriptType};
use csv_light_editor::chat::history::ChatHistory;
use csv_light_editor::chat::message::{ChatMessage, MessageRole};
use csv_light_editor::csv_engine::reader::{count_byte, detect_delimiter, encoding_for, TextEncoding};

#[test]
fn messages_are_made_and_kept_in_order() {
    let mut history = ChatHistory::new_at("/tmp/a.csv".to_string(), 10);
    assert_eq!(history.csv_path, "/tmp/a.csv");
    assert_eq!((history.created_at, history.updated_at), (10, 10));
    assert!(history.get_latest_script().is_none());

    let plain = ChatMessage::new(MessageRole::User, "count rows".to_string());
    assert_eq!(plain.role, MessageRole::User);
    assert_eq!(plain.content, "count rows");
    assert!(plain.script.is_none());
    assert!(plain.metadata.message_type.is_none() && plain.metadata.data.is_none());
    assert_eq!(plain.id.len(), 36);

    let first = Script::new("a = 1".to_string(), ScriptType::Analysis, "p".to_string());
    let second = Script::new("b = 2".to_string(), ScriptType::Transformation, "q".to_string());
    history.add_message_at(plain, 11);
    history.add_message_at(
        ChatMessage::new(MessageRole::Assistant, "one".to_string()).with_script(first),
        12,
    );
    history.add_message_at(
        ChatMessage::new(MessageRole::Assistant, "two".to_string()).with_script(second),
        13,
    );
    history.add_message(ChatMessage::new(MessageRole::User, "thanks".to_string()));
    assert_eq!(history.messages.len(), 4);
    assert_eq!(history.created_at, 10);
    assert_eq!(history.messages[1].content, "one");
    assert_eq!(history.get_latest_script().unwrap().content, "b = 2");

    let fresh = ChatHistory::new("x".to_string());
    assert_eq!(fresh.created_at, fresh.updated_at);
    assert!(fresh.messages.is_empty());
}

#[test]
fn the_reader_decides_from_a_sample() {
    assert_eq!(detect_delimiter(b"a,b,c\n1,2,3\n"), b',');
    assert_eq!(detect_delimiter(b"a\tb\tc\n1,2\t3\n"), b'\t');
    assert_eq!(detect_delimiter(b"a;b;c|d|e"), b';');
    assert_eq!(detect_delimiter(b"a|b;c|d"), b'|');
    assert_eq!(detect_delimiter(b"a;b\tc"), b'\t');
    assert_eq!(detect_delimiter(b"plain"), b',');
    assert_eq!(detect_delimiter(b""), b',');
    assert_eq!(count_byte(b"a,,b,", b','), 3);
    assert_eq!(encoding_for("UTF-8"), TextEncoding::Utf8);
    assert_eq!(encoding_for("ascii"), TextEncoding::Utf8);
    assert_eq!(encoding_for("Shift_JIS"), TextEncoding::ShiftJis);
    assert_eq!(encoding_for("sjis"), TextEncoding::ShiftJis);
    assert_eq!(encoding_for("EUC-JP"), TextEncoding::EucJp);
    assert_eq!(encoding_for("GB2312"), TextEncoding::Gb18030);
    assert_eq!(encoding_for("gbk"), TextEncoding::Gb18030);
    assert_eq!(encoding_for("windows-1252"), TextEncoding::Utf8);
}
