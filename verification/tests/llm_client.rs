use csv_light_editor::ai::intent::{
    AnalysisType, Intent, IntentError, IntentSource, IntentType, TargetScope, TransformOperation,
};
use csv_light_editor::ai::llm_client::{
    extract_python_code, parse_llm_response, read_gemini_answer, read_openai_answer, AnswerError,
    CodeError, GeminiClient, OpenAiClient,
};
use csv_light_editor::ai_script::models::{ColumnInfo, ExecutionContext, SelectionRange};
use csv_light_editor::json::Json;

#[test]
fn clients_know_their_addresses() {
    let c = OpenAiClient::new("k".to_string(), None);
    assert_eq!(c.api_key(), "k");
    assert_eq!(c.model(), "gpt-4o-mini");
    assert_eq!(c.endpoint(), "https://api.openai.com/v1/chat/completions");
    assert_eq!(OpenAiClient::new("k".to_string(), Some("gpt-4".to_string())).model(), "gpt-4");
    let g = GeminiClient::new("key".to_string(), None);
    assert_eq!(g.api_key(), "key");
    assert_eq!(g.model(), "gemini-1.5-flash");
    assert_eq!(
        g.endpoint(),
        "https://generativelanguage.googleapis.com/v1beta/models/gemini-1.5-flash:generateContent?key=key"
    );
    let g = GeminiClient::new("key".to_string(), Some("gemini-pro".to_string()));
    assert_eq!(
        g.endpoint(),
        "https://generativelanguage.googleapis.com/v1beta/models/gemini-pro:generateContent?key=key"
    );
}

#[test]
fn code_is_taken_from_its_block() {
    assert_eq!(extract_python_code("  x = 1\n"), Ok("x = 1".to_string()));
    assert_eq!(
        extract_python_code("Here:\n```python\nx = 1\ny = 2\n```\nDone."),
        Ok("x = 1\ny = 2".to_string())
    );
    assert_eq!(extract_python_code("```\nx = 1\n```"), Ok("x = 1".to_string()));
    assert_eq!(
        extract_python_code("```python a```\n```python b```"),
        Ok("a```\n```python b".to_string())
    );
    assert_eq!(extract_python_code("``` a\n```python b```"), Ok("b".to_string()));
    assert_eq!(extract_python_code("```python```"), Err(CodeError::NoCodeFound));
    assert_eq!(extract_python_code("``````"), Err(CodeError::NoCodeFound));
    assert_eq!(extract_python_code("   "), Err(CodeError::NoCodeFound));
    assert_eq!(extract_python_code("```python\nx = 1"), Err(CodeError::NoCodeFound));
    assert_eq!(extract_python_code("```\nx = 1"), Err(CodeError::NoCodeFound));
    assert_eq!(CodeError::NoCodeFound.message(), "No Python code found in LLM response");
}

#[test]
fn an_analysis_answer_is_read() {
    let answer = "{\"intent_type\":\"analysis\",\"analysis_type\":\"outliers\",\"target_scope\":{\"type\":\"column\",\"column_name\":\"price\"}}";
    assert_eq!(
        parse_llm_response(answer),
        Ok(Intent {
            intent_type: IntentType::Analysis { analysis_type: AnalysisType::Outliers },
            target_scope: TargetScope::Column { name: "price".to_string() },
            source: IntentSource::Service,
        })
    );
}

#[test]
fn transformation_answers_are_read_with_their_parameters() {
    let read = |operation: &str, parameters: &str| {
        let answer = format!(
            "{{\"intent_type\":\"transformation\",\"operation\":\"{}\",\"parameters\":{},\"target_scope\":{{\"type\":\"columns\",\"column_names\":[\"a\",\"b\"]}}}}",
            operation, parameters
        );
        let intent = parse_llm_response(&answer).unwrap();
        assert_eq!(
            intent.target_scope,
            TargetScope::Columns { names: vec!["a".to_string(), "b".to_string()] }
        );
        match intent.intent_type {
            IntentType::Transformation { operation } => operation,
            other => panic!("not a transformation: {:?}", other),
        }
    };
    assert_eq!(read("normalize", "null"), TransformOperation::Normalize);
    assert_eq!(
        read("format_dates", "{\"target_format\":\"DD/MM/YYYY\"}"),
        TransformOperation::FormatDates { target_format: "DD/MM/YYYY".to_string() }
    );
    assert_eq!(
        read("format_dates", "{}"),
        TransformOperation::FormatDates { target_format: "YYYY-MM-DD".to_string() }
    );
    assert_eq!(
        read("format_numbers", "{\"decimal_places\":4}"),
        TransformOperation::FormatNumbers { decimal_places: 4 }
    );
    assert_eq!(
        read("format_numbers", "{\"decimal_places\":\"4\"}"),
        TransformOperation::FormatNumbers { decimal_places: 2 }
    );
    assert_eq!(read("format_numbers", "[1]"), TransformOperation::FormatNumbers { decimal_places: 2 });
    assert_eq!(read("remove_duplicates", "null"), TransformOperation::RemoveDuplicates);
    assert_eq!(
        read("fill_missing", "{\"strategy\":\"median\"}"),
        TransformOperation::FillMissing { strategy: "median".to_string() }
    );
    assert_eq!(
        read("fill_missing", "null"),
        TransformOperation::FillMissing { strategy: "mean".to_string() }
    );
    assert_eq!(read("capitalize", "{}"), TransformOperation::Capitalize);
    assert_eq!(read("lowercase", "{}"), TransformOperation::Lowercase);
    assert_eq!(read("uppercase", "{}"), TransformOperation::Uppercase);
    assert_eq!(read("trim", "{}"), TransformOperation::Trim);
    assert_eq!(
        read("replace", "{\"from\":\"a\"}"),
        TransformOperation::Replace { from: "a".to_string(), to: "".to_string() }
    );
}

#[test]
fn scopes_of_answers() {
    let scope = |text: &str| {
        let answer = format!(
            "{{\"intent_type\":\"analysis\",\"analysis_type\":\"summary\",\"target_scope\":{}}}",
            text
        );
        parse_llm_response(&answer).map(|i| i.target_scope)
    };
    assert_eq!(scope("{\"type\":\"all_data\"}"), Ok(TargetScope::AllData));
    assert_eq!(scope("{\"type\":\"column\"}"), Ok(TargetScope::AllData));
    assert_eq!(scope("{\"type\":\"column\",\"column_name\":null}"), Ok(TargetScope::AllData));
    assert_eq!(scope("{\"type\":\"columns\",\"column_name\":\"a\"}"), Ok(TargetScope::AllData));
    assert_eq!(
        scope("{\"type\":\"columns\",\"column_names\":[]}"),
        Ok(TargetScope::Columns { names: vec![] })
    );
    assert_eq!(scope("{\"type\":\"rows\",\"column_name\":\"a\"}"), Ok(TargetScope::AllData));
    assert_eq!(scope("{}"), Err(IntentError::MalformedAnswer));
    assert_eq!(scope("{\"type\":1}"), Err(IntentError::MalformedAnswer));
    assert_eq!(scope("{\"type\":\"column\",\"column_name\":1}"), Err(IntentError::MalformedAnswer));
    assert_eq!(
        scope("{\"type\":\"column\",\"column_names\":[\"a\",1]}"),
        Err(IntentError::MalformedAnswer)
    );
    assert_eq!(scope("\"all\""), Err(IntentError::MalformedAnswer));
}

#[test]
fn answers_that_state_no_intent() {
    assert_eq!(parse_llm_response("not json"), Err(IntentError::MalformedAnswer));
    assert_eq!(parse_llm_response("[]"), Err(IntentError::MalformedAnswer));
    assert_eq!(
        parse_llm_response("{\"target_scope\":{\"type\":\"all_data\"}}"),
        Err(IntentError::MalformedAnswer)
    );
    assert_eq!(
        parse_llm_response("{\"intent_type\":\"analysis\",\"analysis_type\":5,\"target_scope\":{\"type\":\"all_data\"}}"),
        Err(IntentError::MalformedAnswer)
    );
    assert_eq!(
        parse_llm_response("{\"intent_type\":\"analysis\",\"target_scope\":{\"type\":\"all_data\"}}"),
        Err(IntentError::UnknownAnalysisType)
    );
    assert_eq!(
        parse_llm_response("{\"intent_type\":\"transformation\",\"operation\":\"sort\",\"target_scope\":{\"type\":\"all_data\"}}"),
        Err(IntentError::UnknownOperation)
    );
    assert_eq!(
        parse_llm_response("{\"intent_type\":\"chat\",\"target_scope\":{\"type\":\"all_data\"}}"),
        Err(IntentError::UnknownIntentType)
    );
    assert_eq!(IntentError::MalformedAnswer.message(), "Failed to parse LLM response as JSON");
    assert_eq!(IntentError::UnknownIntentType.message(), "Unknown intent type");
    assert_eq!(IntentError::UnknownAnalysisType.message(), "Unknown analysis type");
    assert_eq!(IntentError::UnknownOperation.message(), "Unknown transformation operation");
}

#[test]
fn service_answers_are_unwrapped() {
    let doc = |text: &str| Json::parse(text).unwrap();
    assert_eq!(
        read_openai_answer(&doc("{\"choices\":[{\"message\":{\"content\":\"a\"}},{\"message\":{\"content\":\"b\"}}]}")),
        Ok("a".to_string())
    );
    assert_eq!(read_openai_answer(&doc("{\"choices\":[]}")), Err(AnswerError::NoResponse));
    assert_eq!(read_openai_answer(&doc("{}")), Err(AnswerError::Malformed));
    assert_eq!(
        read_openai_answer(&doc("{\"choices\":[{\"message\":{\"content\":\"a\"}},{\"message\":{}}]}")),
        Err(AnswerError::Malformed)
    );
    assert_eq!(
        read_openai_answer(&doc("{\"choices\":[{\"message\":\"a\"}]}")),
        Err(AnswerError::Malformed)
    );
    assert_eq!(
        read_gemini_answer(&doc("{\"candidates\":[{\"content\":{\"parts\":[{\"text\":\"a\"},{\"text\":\"b\"}]}}]}")),
        Ok("a".to_string())
    );
    assert_eq!(read_gemini_answer(&doc("{\"candidates\":[]}")), Err(AnswerError::NoResponse));
    assert_eq!(
        read_gemini_answer(&doc("{\"candidates\":[{\"content\":{\"parts\":[]}}]}")),
        Err(AnswerError::NoContent)
    );
    assert_eq!(
        read_gemini_answer(&doc("{\"candidates\":[{\"content\":{\"parts\":[{\"text\":1}]}}]}")),
        Err(AnswerError::Malformed)
    );
    assert_eq!(read_gemini_answer(&doc("{\"candidates\":{}}")), Err(AnswerError::Malformed));
}

#[test]
fn prompts() {
    let system = OpenAiClient::create_system_prompt();
    assert!(system.starts_with("You are an AI assistant for a CSV data editor."));
    assert!(system.ends_with("Return ONLY the JSON object, no other text."));
    assert_eq!(GeminiClient::create_system_prompt(), system);
    assert_eq!(
        GeminiClient::intent_prompt("sum it"),
        format!("{}\n\nUser request: sum it", system)
    );

    let empty = ExecutionContext {
        csv_path: None,
        headers: vec![],
        row_count: 3,
        selected_range: None,
        filter_state: None,
        sort_state: None,
        column_info: None,
    };
    let prompt = OpenAiClient::create_script_generation_prompt(&empty);
    assert!(prompt.contains("CSV Context:\n\nIMPORTANT: Pay close attention"));
    assert!(prompt.contains("(the code that goes in the {generated_code} section)"));
    assert!(prompt.ends_with("Generate ONLY the Python code, no explanations, no markdown formatting."));

    let full = ExecutionContext {
        csv_path: Some("/tmp/x.csv".to_string()),
        headers: vec!["a".to_string(), "b".to_string()],
        row_count: 12,
        selected_range: Some(SelectionRange { start_row: 1, end_row: 2, start_column: 0, end_column: 10 }),
        filter_state: None,
        sort_state: None,
        column_info: Some(vec![
            ColumnInfo {
                column_index: 0,
                column_name: "a".to_string(),
                detected_type: "datetime".to_string(),
                format: Some("%Y-%m-%d".to_string()),
                sample_values: vec!["2024-01-01".to_string(), "2024-01-02".to_string()],
            },
            ColumnInfo {
                column_index: 1,
                column_name: "b".to_string(),
                detected_type: "text".to_string(),
                format: None,
                sample_values: vec![],
            },
        ]),
    };
    let prompt = OpenAiClient::create_script_generation_prompt(&full);
    assert!(prompt.contains(
        "CSV Context:\nSample data:\nHeaders: a, b\nRow count: 12\nSelected range: rows 1-2, columns 0-10\nColumn Information:\n  - a (index 0): type=datetime, format=\"%Y-%m-%d\", samples=[2024-01-01, 2024-01-02]\n  - b (index 1): type=text\n\nIMPORTANT:"
    ));
}
