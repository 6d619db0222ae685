use csv_light_editor::ai_script::generator::ScriptGenerator;
use csv_light_editor::ai_script::models::{ExecutionState, ScriptType};
use csv_light_editor::ai_script::security::SecurityValidator;

#[test]
fn the_kind_of_script_follows_the_words_of_change() {
    assert_eq!(ScriptGenerator::detect_script_type("Convert the dates"), ScriptType::Transformation);
    assert_eq!(ScriptGenerator::detect_script_type("REMOVE empty rows"), ScriptType::Transformation);
    assert_eq!(ScriptGenerator::detect_script_type("列を追加して"), ScriptType::Transformation);
    assert_eq!(ScriptGenerator::detect_script_type("show the address"), ScriptType::Transformation);
    assert_eq!(ScriptGenerator::detect_script_type("count the rows"), ScriptType::Analysis);
    assert_eq!(ScriptGenerator::detect_script_type("統計を表示"), ScriptType::Analysis);
    assert_eq!(ScriptGenerator::detect_script_type(""), ScriptType::Analysis);
}

#[test]
fn code_is_set_four_spaces_in() {
    assert_eq!(
        ScriptGenerator::normalize_code_indentation("  a = 1\n    b = 2\n\n  c = 3"),
        "    a = 1\n      b = 2\n\n    c = 3"
    );
    assert_eq!(
        ScriptGenerator::normalize_code_indentation("x = 1\r\n\tif x:\n   \n\t\ty = 2\n"),
        "    x = 1\n    \tif x:\n\n    \t\ty = 2"
    );
    assert_eq!(ScriptGenerator::normalize_code_indentation("\t\ta\n\tb"), "    \ta\n    b");
    assert_eq!(ScriptGenerator::normalize_code_indentation(""), "");
    assert_eq!(ScriptGenerator::normalize_code_indentation("  \n\n"), "\n");
}

#[test]
fn the_frame_holds_the_request_the_time_the_kind_and_the_code() {
    let script = ScriptGenerator::wrap_in_template_at(
        "summary = 'ok'\ndetails = {}",
        "count rows",
        &ScriptType::Analysis,
        "2024-01-02T03:04:05+00:00",
    );
    assert!(script.starts_with(
        "# CSV Light Editor - Generated Script\n# User Request: count rows\n# Generated: 2024-01-02T03:04:05+00:00\n# Script Type: analysis\n\nimport sys\nimport json\n"
    ));
    assert!(script.contains("        return {}\n    return json.loads(raw)\n"));
    assert!(script.contains(
        "        print('{\"type\": \"error\", \"message\": \"Failed to serialize script result.\"}')\n"
    ));
    assert!(script.contains("            'message': f'Failed to parse input: {e}'\n"));
    assert!(script.contains(
        "    script_type = 'analysis'\n\n    # User's requested operation:\n    summary = 'ok'\n    details = {}\n    try:\n        if script_type == 'analysis':\n"
    ));
    assert!(script.ends_with("if __name__ == \"__main__\":\n    main()\n"));
    let other = ScriptGenerator::wrap_in_template_at("x", "p", &ScriptType::Transformation, "t");
    assert!(other.contains("# Script Type: transformation\n"));
    assert!(other.contains("    script_type = 'transformation'\n"));
}

#[test]
fn the_frame_itself_is_refused_by_the_validator() {
    let script = ScriptGenerator::wrap_in_template("summary = 1", "p", &ScriptType::Analysis);
    assert!(script.contains("# Generated: 2"));
    assert!(SecurityValidator::new().is_dangerous_operation(&script));
}

#[test]
fn a_script_is_assembled_as_pending() {
    let script = ScriptGenerator::assemble("details = {}", "describe", ScriptType::Analysis);
    assert_eq!(script.script_type, ScriptType::Analysis);
    assert_eq!(script.user_prompt, "describe");
    assert_eq!(script.execution_state, ExecutionState::Pending);
    assert!(script.execution_result.is_none());
    assert!(script.content.contains("\n    details = {}\n    try:\n"));
}

#[test]
fn the_fix_request_quotes_the_error() {
    assert_eq!(
        ScriptGenerator::fix_prompt("sum the prices", "KeyError: 'price'"),
        "sum the prices\n\nIMPORTANT: The previous script failed with this error:\nKeyError: 'price'\n\nPlease generate a corrected version that fixes this issue. Pay special attention to:\n- Date/time format matching (the actual data format may differ from what was assumed)\n- Column names and indices\n- Data types and conversions\n- Indentation and syntax"
    );
}
