use csv_light_editor::ai_script::launch::{interpreter_launch, new_script_file_name, script_file_name};
use csv_light_editor::ai_script::protocol::{
    classify_document, classify_line, encode_input, find_result_line, input_envelope, OutputLine,
    ProgressEvent,
};
use csv_light_editor::json::Json;

fn strings(items: &[&str]) -> Vec<String> {
    items.iter().map(|s| s.to_string()).collect()
}

#[test]
fn progress_lines_are_events() {
    assert_eq!(
        classify_line("{\"type\":\"progress\",\"processed\":1,\"total\":2,\"step\":\"reading\"}"),
        OutputLine::Progress(Some(ProgressEvent {
            processed: 1,
            total: 2,
            step: "reading".to_string(),
        }))
    );
    assert_eq!(
        classify_line("{\"type\":\"progress\",\"processed\":1,\"total\":2}"),
        OutputLine::Progress(None)
    );
    assert_eq!(
        classify_line("{\"type\":\"progress\",\"processed\":-1,\"total\":2,\"step\":\"s\"}"),
        OutputLine::Progress(None)
    );
    assert_eq!(
        classify_line("{\"type\":\"progress\",\"processed\":1.5,\"total\":2,\"step\":\"s\"}"),
        OutputLine::Progress(None)
    );
}

#[test]
fn other_lines_are_candidates_or_raw() {
    assert_eq!(classify_line("{\"type\":\"analysis\",\"summary\":\"ok\"}"), OutputLine::Candidate);
    assert_eq!(classify_line("{\"type\":\"whatever\"}"), OutputLine::Candidate);
    assert_eq!(classify_line("{\"type\":[\"progress\"]}"), OutputLine::Candidate);
    assert_eq!(classify_line("42"), OutputLine::Candidate);
    assert_eq!(classify_line("debug: processing"), OutputLine::Raw);
    assert_eq!(classify_line(""), OutputLine::Raw);
    assert_eq!(classify_line("{\"type\":\"progress\""), OutputLine::Raw);
    let doc = Json::parse("{\"type\":\"progress\",\"processed\":3,\"total\":4,\"step\":\"\"}").unwrap();
    assert_eq!(
        classify_document(&doc),
        OutputLine::Progress(Some(ProgressEvent { processed: 3, total: 4, step: "".to_string() }))
    );
}

#[test]
fn the_result_is_the_last_line_that_is_json_and_no_progress() {
    let lines = strings(&[
        "{\"type\":\"analysis\",\"summary\":\"first\"}",
        "noise",
        "{\"type\":\"progress\",\"processed\":1,\"total\":2,\"step\":\"s\"}",
        "{\"type\":\"analysis\",\"summary\":\"second\"}",
        "{\"type\":\"progress\",\"processed\":2,\"total\":2,\"step\":\"s\"}",
        "bye",
    ]);
    assert_eq!(find_result_line(&lines), Some(3));
    assert_eq!(find_result_line(&strings(&["a", "{\"type\":\"progress\"}"])), None);
    assert_eq!(find_result_line(&Vec::new()), None);
    assert_eq!(find_result_line(&strings(&["{}"])), Some(0));
}

#[test]
fn the_envelope_is_exact() {
    let headers = strings(&["name", "a\"ge"]);
    let rows = vec![strings(&["Ann", "3"]), strings(&[]), strings(&["é\n"])];
    assert_eq!(
        encode_input(&headers, &rows).unwrap(),
        "{\"headers\":[\"name\",\"a\\\"ge\"],\"rows\":[[\"Ann\",\"3\"],[],[\"é\\n\"]]}"
    );
    assert_eq!(encode_input(&Vec::new(), &Vec::new()).unwrap(), "{\"headers\":[],\"rows\":[]}");
    let doc = input_envelope(&headers, &rows);
    assert_eq!(doc.get("headers").unwrap().as_array().unwrap().len(), 2);
    assert_eq!(doc.get("rows").unwrap().as_array().unwrap().len(), 3);
}

#[test]
fn the_interpreter_is_started_in_a_scoped_environment() {
    let launch = interpreter_launch("/tmp/csv_script_1.py");
    assert_eq!(launch.program, "python3");
    assert_eq!(launch.args, strings(&["-u", "/tmp/csv_script_1.py"]));
    assert_eq!(
        launch.env,
        vec![
            ("PYTHONPATH".to_string(), "".to_string()),
            ("PYTHONDONTWRITEBYTECODE".to_string(), "1".to_string()),
        ]
    );
    assert_eq!(script_file_name("abc"), "csv_script_abc.py");
    let name = new_script_file_name();
    assert!(name.starts_with("csv_script_") && name.ends_with(".py"));
    assert_ne!(name, new_script_file_name());
}
