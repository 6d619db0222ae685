//! From generated code to a script that can be run.
//!
//! The code that the text-generation service returns is the body of the
//! operation only. It is set into a fixed frame that reads the table from
//! standard input, runs the operation and prints the result as one line of
//! JSON.

use vstd::prelude::*;
use vstd::string::*;
use crate::ai_script::models::{Script, ScriptType};
use crate::text::{
    chars_contain, chars_of_range, contains, is_blank, is_whitespace, char_is_whitespace,
    join_chars, joined, lines_of, lower, lowercase, split_lines, to_chars, trim_bounds, views,
};

verus! {

/// The words that mark a request as one for a transformation.
pub open spec fn transformation_keywords() -> Seq<Seq<char>> {
    seq![
        "変更"@,
        "変換"@,
        "修正"@,
        "更新"@,
        "置換"@,
        "追加"@,
        "削除"@,
        "change"@,
        "transform"@,
        "modify"@,
        "update"@,
        "replace"@,
        "add"@,
        "remove"@,
        "delete"@,
        "convert"@,
        "format"@,
        "edit"@,
        "fix"@,
        "correct"@,
    ]
}

/// Whether `text` holds one of `keywords`.
pub open spec fn names_any(text: Seq<char>, keywords: Seq<Seq<char>>) -> bool {
    exists|k: int| 0 <= k < keywords.len() && contains(text, #[trigger] keywords[k])
}

/// The kind of script for a request in lower case: a transformation where
/// the request holds a word of change, an analysis in every other case,
/// which only reads.
pub open spec fn script_type_for(lower: Seq<char>) -> ScriptType {
    if names_any(lower, transformation_keywords()) {
        ScriptType::Transformation
    } else {
        ScriptType::Analysis
    }
}

/// How many characters of whitespace `line` begins with.
pub open spec fn indent_of(line: Seq<char>) -> nat
    decreases line.len(),
{
    if line.len() > 0 && char_is_whitespace(line[0]) {
        1 + indent_of(line.drop_first())
    } else {
        0
    }
}

/// The least indentation among the first `upto` lines that are not blank.
pub open spec fn least_indent(lines: Seq<Seq<char>>, upto: int) -> Option<nat>
    decreases upto,
{
    if upto <= 0 {
        None
    } else {
        let before = least_indent(lines, upto - 1);
        let line = lines[upto - 1];
        if upto > lines.len() || is_blank(line) {
            before
        } else {
            match before {
                Some(m) => if indent_of(line) < m {
                    Some(indent_of(line))
                } else {
                    Some(m)
                },
                None => Some(indent_of(line)),
            }
        }
    }
}

/// The indentation that all lines of the code share.
pub open spec fn common_indent(lines: Seq<Seq<char>>) -> nat {
    match least_indent(lines, lines.len() as int) {
        Some(m) => m,
        None => 0,
    }
}

/// A line of code as it stands in the frame: empty where it is blank, and
/// else without the first `indent` characters of its indentation and with
/// four spaces before it.
pub open spec fn framed_line(line: Seq<char>, indent: nat) -> Seq<char> {
    if is_blank(line) {
        Seq::empty()
    } else {
        let cut = if indent < indent_of(line) {
            indent
        } else {
            indent_of(line)
        };
        "    "@ + line.subrange(cut as int, line.len() as int)
    }
}

/// The lines of code as they stand in the frame.
pub open spec fn framed_lines(lines: Seq<Seq<char>>) -> Seq<Seq<char>> {
    Seq::new(lines.len(), |i: int| framed_line(lines[i], common_indent(lines)))
}

/// The code as it stands in the frame.
pub open spec fn normalized_code(code: Seq<char>) -> Seq<char> {
    joined(framed_lines(lines_of(code)), "\n"@)
}

/// The script up to the user's request.
pub open spec fn template_head() -> Seq<char> {
    "# CSV Light Editor - Generated Script\n# User Request: "@
}

/// The script between the request and the time.
pub open spec fn template_before_time() -> Seq<char> {
    "\n# Generated: "@
}

/// The script between the time and the kind in the heading.
pub open spec fn template_before_kind() -> Seq<char> {
    "\n# Script Type: "@
}

/// The script between the heading and the kind that the script tests.
pub open spec fn template_before_kind_value() -> Seq<char> {
    "\n\nimport sys\nimport json\nimport csv\nfrom datetime import datetime\nfrom typing import List, Dict, Any\n\ndef _read_json_input() -> Dict[str, Any]:\n    raw = sys.stdin.readline()\n    if not raw.strip():\n        return {}\n    return json.loads(raw)\n\ndef _safe_print(payload: Dict[str, Any]) -> None:\n    try:\n        print(json.dumps(payload))\n    except Exception:\n        print('{\"type\": \"error\", \"message\": \"Failed to serialize script result.\"}')\n\ndef main():\n    try:\n        input_data = _read_json_input()\n        headers = input_data.get('headers', [])\n        rows = input_data.get('rows', [])\n    except Exception as e:\n        _safe_print({\n            'type': 'error',\n            'message': f'Failed to parse input: {e}'\n        })\n        return\n\n    script_type = '"@
}

/// The script between that kind and the generated code.
pub open spec fn template_before_code() -> Seq<char> {
    "'\n\n    # User's requested operation:\n"@
}

/// The script after the generated code.
pub open spec fn template_tail() -> Seq<char> {
    "\n    try:\n        if script_type == 'analysis':\n            result = {\n                'type': 'analysis',\n                'summary': summary,\n                'details': details\n            }\n        else:\n            result = {\n                'type': 'transformation',\n                'changes': changes,\n                'preview': preview\n            }\n        _safe_print(result)\n    except Exception as e:\n        _safe_print({\n            'type': 'error',\n            'message': f'Execution error: {e}'\n        })\n\nif __name__ == \"__main__\":\n    main()\n"@
}

/// The name of a kind of script.
pub open spec fn kind_name(script_type: ScriptType) -> Seq<char> {
    match script_type {
        ScriptType::Analysis => "analysis"@,
        ScriptType::Transformation => "transformation"@,
    }
}

/// The script for generated code: the frame with the request, the time and
/// the kind in its heading, and the code in its place.
pub open spec fn framed_script(
    code: Seq<char>,
    user_prompt: Seq<char>,
    script_type: ScriptType,
    timestamp: Seq<char>,
) -> Seq<char> {
    template_head() + user_prompt + template_before_time() + timestamp + template_before_kind()
        + kind_name(script_type) + template_before_kind_value() + kind_name(script_type)
        + template_before_code() + normalized_code(code) + template_tail()
}

/// The request that asks for a corrected script after a failure.
pub open spec fn fix_request(original_prompt: Seq<char>, error_message: Seq<char>) -> Seq<char> {
    original_prompt + "\n\nIMPORTANT: The previous script failed with this error:\n"@ + error_message + "\n\nPlease generate a corrected version that fixes this issue. Pay special attention to:\n- Date/time format matching (the actual data format may differ from what was assumed)\n- Column names and indices\n- Data types and conversions\n- Indentation and syntax"@
}

/// `chrono::Utc::now`, written by `DateTime::to_rfc3339`: the current time
/// as text. Nothing is promised of it.
#[verifier::external_body]
pub(crate) fn now_rfc3339() -> String {
    chrono::Utc::now().to_rfc3339()
}

/// The words that mark a request as one for a transformation.
pub fn transformation_words() -> (words: Vec<&'static str>)
    ensures
        words.deep_view() == transformation_keywords(),
{
    let words: Vec<&'static str> = vec![
        "変更",
        "変換",
        "修正",
        "更新",
        "置換",
        "追加",
        "削除",
        "change",
        "transform",
        "modify",
        "update",
        "replace",
        "add",
        "remove",
        "delete",
        "convert",
        "format",
        "edit",
        "fix",
        "correct",
    ];
    assert(words.deep_view() =~= transformation_keywords());
    words
}

/// How many characters of whitespace `line` begins with.
pub fn leading_whitespace(line: &Vec<char>) -> (n: usize)
    ensures
        n == indent_of(line@),
        n <= line.len(),
{
    let mut n: usize = 0;
    assert(line@.subrange(0, line.len() as int) =~= line@);
    while n < line.len() && is_whitespace(line[n])
        invariant
            n <= line.len(),
            indent_of(line@) == n + indent_of(line@.subrange(n as int, line.len() as int)),
        decreases line.len() - n,
    {
        assert(line@.subrange(n as int, line.len() as int).drop_first() =~= line@.subrange(
            n + 1,
            line.len() as int,
        ));
        n += 1;
    }
    n
}

/// Whether a line holds nothing but whitespace.
pub fn line_is_blank(line: &Vec<char>) -> (b: bool)
    ensures
        b == is_blank(line@),
{
    let (a, b) = trim_bounds(line);
    a == b
}

/// The generator of scripts.
pub struct ScriptGenerator;

impl ScriptGenerator {
    /// The kind of script that a request asks for.
    pub fn detect_script_type(prompt: &str) -> (script_type: ScriptType)
        ensures
            script_type == script_type_for(lowercase(prompt@)),
    {
        let lowered = lower(prompt);
        let text = to_chars(lowered.as_str());
        let words = transformation_words();
        let mut k: usize = 0;
        while k < words.len()
            invariant
                k <= words.len(),
                words.deep_view() == transformation_keywords(),
                text@ == lowercase(prompt@),
                forall|j: int| 0 <= j < k ==> !contains(text@, #[trigger] transformation_keywords()[j]),
            decreases words.len() - k,
        {
            assert(words.deep_view()[k as int] == words[k as int]@);
            if chars_contain(&text, &to_chars(words[k])) {
                assert(contains(text@, transformation_keywords()[k as int]));
                return ScriptType::Transformation;
            }
            k += 1;
        }
        ScriptType::Analysis
    }

    /// The code as it stands in the frame: without the indentation that all
    /// its lines share, and four spaces in.
    pub fn normalize_code_indentation(code: &str) -> (normalized: String)
        ensures
            normalized@ == normalized_code(code@),
    {
        let lines = split_lines(code);
        let mut least: Option<usize> = None;
        let mut i: usize = 0;
        while i < lines.len()
            invariant
                i <= lines.len(),
                match least {
                    Some(m) => least_indent(views(lines@), i as int) == Some(m as nat),
                    None => least_indent(views(lines@), i as int) is None,
                },
            decreases lines.len() - i,
        {
            if !line_is_blank(&lines[i]) {
                let indent = leading_whitespace(&lines[i]);
                least = match least {
                    Some(m) => if indent < m {
                        Some(indent)
                    } else {
                        Some(m)
                    },
                    None => Some(indent),
                };
            }
            i += 1;
        }
        let common: usize = match least {
            Some(m) => m,
            None => 0,
        };
        let mut framed: Vec<Vec<char>> = Vec::new();
        let mut j: usize = 0;
        while j < lines.len()
            invariant
                j <= lines.len(),
                common == common_indent(views(lines@)),
                framed.len() == j,
                forall|k: int|
                    0 <= k < j ==> (#[trigger] framed[k])@ == framed_line(
                        lines[k]@,
                        common as nat,
                    ),
            decreases lines.len() - j,
        {
            let line = &lines[j];
            if line_is_blank(line) {
                framed.push(Vec::new());
            } else {
                let indent = leading_whitespace(line);
                let cut: usize = if common < indent {
                    common
                } else {
                    indent
                };
                let mut out: Vec<char> = vec![' ', ' ', ' ', ' '];
                let rest = chars_of_range(line, cut, line.len());
                let mut k: usize = 0;
                proof {
                    reveal_strlit("    ");
                    assert(out@ =~= "    "@);
                }
                while k < rest.len()
                    invariant
                        k <= rest.len(),
                        out@ == "    "@ + rest@.subrange(0, k as int),
                    decreases rest.len() - k,
                {
                    out.push(rest[k]);
                    k += 1;
                    assert(out@ =~= "    "@ + rest@.subrange(0, k as int));
                }
                assert(rest@.subrange(0, rest.len() as int) =~= rest@);
                framed.push(out);
            }
            j += 1;
        }
        assert(views(framed@) =~= framed_lines(views(lines@)));
        join_chars(&framed, "\n")
    }

    /// The script for generated code, with `timestamp` in its heading.
    pub fn wrap_in_template_at(
        code: &str,
        user_prompt: &str,
        script_type: &ScriptType,
        timestamp: &str,
    ) -> (script: String)
        ensures
            script@ == framed_script(code@, user_prompt@, *script_type, timestamp@),
    {
        let kind: &str = match script_type {
            ScriptType::Analysis => "analysis",
            ScriptType::Transformation => "transformation",
        };
        let body = ScriptGenerator::normalize_code_indentation(code);
        let mut script = String::from_str("# CSV Light Editor - Generated Script\n# User Request: ");
        script.append(user_prompt);
        script.append("\n# Generated: ");
        script.append(timestamp);
        script.append("\n# Script Type: ");
        script.append(kind);
        script.append("\n\nimport sys\nimport json\nimport csv\nfrom datetime import datetime\nfrom typing import List, Dict, Any\n\ndef _read_json_input() -> Dict[str, Any]:\n    raw = sys.stdin.readline()\n    if not raw.strip():\n        return {}\n    return json.loads(raw)\n\ndef _safe_print(payload: Dict[str, Any]) -> None:\n    try:\n        print(json.dumps(payload))\n    except Exception:\n        print('{\"type\": \"error\", \"message\": \"Failed to serialize script result.\"}')\n\ndef main():\n    try:\n        input_data = _read_json_input()\n        headers = input_data.get('headers', [])\n        rows = input_data.get('rows', [])\n    except Exception as e:\n        _safe_print({\n            'type': 'error',\n            'message': f'Failed to parse input: {e}'\n        })\n        return\n\n    script_type = '");
        script.append(kind);
        script.append("'\n\n    # User's requested operation:\n");
        script.append(body.as_str());
        script.append("\n    try:\n        if script_type == 'analysis':\n            result = {\n                'type': 'analysis',\n                'summary': summary,\n                'details': details\n            }\n        else:\n            result = {\n                'type': 'transformation',\n                'changes': changes,\n                'preview': preview\n            }\n        _safe_print(result)\n    except Exception as e:\n        _safe_print({\n            'type': 'error',\n            'message': f'Execution error: {e}'\n        })\n\nif __name__ == \"__main__\":\n    main()\n");
        script
    }

    /// The script for generated code, with the current time in its heading.
    pub fn wrap_in_template(code: &str, user_prompt: &str, script_type: &ScriptType) -> (script:
        String)
        ensures
            exists|timestamp: Seq<char>|
                script@ == #[trigger] framed_script(code@, user_prompt@, *script_type, timestamp),
    {
        let timestamp = now_rfc3339();
        let script = ScriptGenerator::wrap_in_template_at(
            code,
            user_prompt,
            script_type,
            timestamp.as_str(),
        );
        assert(script@ == framed_script(code@, user_prompt@, *script_type, timestamp@));
        script
    }

    /// The request that asks for a corrected script after a failure.
    pub fn fix_prompt(original_prompt: &str, error_message: &str) -> (request: String)
        ensures
            request@ == fix_request(original_prompt@, error_message@),
    {
        let mut request = String::from_str(original_prompt);
        request.append("\n\nIMPORTANT: The previous script failed with this error:\n");
        request.append(error_message);
        request.append("\n\nPlease generate a corrected version that fixes this issue. Pay special attention to:\n- Date/time format matching (the actual data format may differ from what was assumed)\n- Column names and indices\n- Data types and conversions\n- Indentation and syntax");
        request
    }

    /// The pending script for code that was generated for a request.
    pub fn assemble(generated_code: &str, prompt: &str, script_type: ScriptType) -> (script: Script)
        ensures
            exists|timestamp: Seq<char>|
                script.content@ == #[trigger] framed_script(
                    generated_code@,
                    prompt@,
                    script_type,
                    timestamp,
                ),
            script.script_type == script_type,
            script.user_prompt@ == prompt@,
            script.execution_state == crate::ai_script::models::ExecutionState::Pending,
            script.execution_result is None,
    {
        let content = ScriptGenerator::wrap_in_template(generated_code, prompt, &script_type);
        Script::new(content, script_type, String::from_str(prompt))
    }
}

} // verus!
