//! The clients of the text-generation services, as far as they compute.
//!
//! Sending a request and receiving the answer is the caller's work. What is
//! sent, where to, and what an answer means is decided here.

use vstd::prelude::*;
use vstd::string::*;
use crate::ai::intent::{
    AnalysisType, Intent, IntentError, IntentSource, IntentType, IntentTypeView, IntentView,
    TargetScope, TargetScopeView, TransformOperation, TransformOperationView,
};
use crate::ai_script::interpreter::{
    decode_optional_text, decode_optional_texts, index_of, optional_text, optional_texts,
};
use crate::ai_script::models::{ColumnInfo, ExecutionContext, SelectionRange};
use crate::json::{json_document, Json, JsonView};
use crate::text::{
    decimal, find_first, find_last, first_match, join_strings, joined, last_match, push_decimal,
    str_eq, string_of_range, to_chars, trim_bounds, trimmed,
};

verus! {

/// The services that can generate text.
#[derive(Clone, Copy, Debug, PartialEq, Eq, Structural)]
pub enum LlmProvider {
    OpenAI,
    Gemini,
    Local,
}

/// Why an answer holds no code.
#[derive(Clone, Copy, Debug, PartialEq, Eq, Structural)]
pub enum CodeError {
    /// The answer is empty, or its code block is empty or has no end.
    NoCodeFound,
}

/// The instructions that ask a service for the intent of a request.
pub open spec fn system_prompt() -> Seq<char> {
    "You are an AI assistant for a CSV data editor. Your job is to understand user requests about CSV data operations and return structured JSON responses.\n\nAnalyze the user's request and determine:\n1. Type of operation (analysis or transformation)\n2. Specific operation to perform\n3. Target scope (which columns/data to operate on)\n\nReturn ONLY a valid JSON object in this exact format:\n\nFor ANALYSIS requests:\n{\n  \"intent_type\": \"analysis\",\n  \"analysis_type\": \"statistics\" | \"distribution\" | \"correlation\" | \"outliers\" | \"missing\" | \"duplicates\" | \"summary\",\n  \"target_scope\": {\n    \"type\": \"all_data\" | \"column\" | \"columns\",\n    \"column_name\": \"column name\" (optional, for single column),\n    \"column_names\": [\"col1\", \"col2\"] (optional, for multiple columns)\n  }\n}\n\nFor TRANSFORMATION requests:\n{\n  \"intent_type\": \"transformation\",\n  \"operation\": \"normalize\" | \"format_dates\" | \"format_numbers\" | \"remove_duplicates\" | \"fill_missing\" | \"capitalize\" | \"lowercase\" | \"uppercase\" | \"trim\" | \"replace\",\n  \"parameters\": {\n    \"target_format\": \"YYYY-MM-DD\" (for format_dates),\n    \"decimal_places\": 2 (for format_numbers),\n    \"strategy\": \"mean\" | \"median\" | \"mode\" | \"zero\" | \"forward\" (for fill_missing),\n    \"from\": \"text\", \"to\": \"replacement\" (for replace)\n  },\n  \"target_scope\": {\n    \"type\": \"all_data\" | \"column\" | \"columns\",\n    \"column_name\": \"column name\" (optional),\n    \"column_names\": [\"col1\", \"col2\"] (optional)\n  }\n}\n\nAnalysis types:\n- statistics: Calculate mean, median, std dev, etc.\n- distribution: Show value frequency and distribution\n- correlation: Find correlations between numeric columns\n- outliers: Detect outliers using statistical methods\n- missing: Analyze missing/empty values\n- duplicates: Find duplicate rows\n- summary: General dataset overview\n\nTransformation operations:\n- normalize: Scale values to 0-1 range\n- format_dates: Standardize date format\n- format_numbers: Format decimal places\n- remove_duplicates: Remove duplicate rows\n- fill_missing: Fill empty values\n- capitalize: Capitalize first letter of each word\n- lowercase: Convert to lowercase\n- uppercase: Convert to uppercase\n- trim: Remove leading/trailing whitespace\n- replace: Find and replace text\n\nReturn ONLY the JSON object, no other text."@
}

/// The instructions for generating code, up to the description of the table.
pub open spec fn generation_head() -> Seq<char> {
    "You are a Python code generator for CSV data manipulation in CSV Light Editor.\n\nYour task is to generate Python code that processes CSV data according to user requests.\n\nCSV Context:"@
}

/// The instructions for generating code, after the description of the table.
pub open spec fn generation_tail() -> Seq<char> {
    "\n\nIMPORTANT: Pay close attention to the column information above, especially datetime formats.\nWhen parsing datetime values, use the EXACT format specified in the column information.\nFor example, if a column shows format=\"%Y-%m-%d %H:%M\", use datetime.strptime(value, \"%Y-%m-%d %H:%M\") NOT \"%Y-%m-%d %H:%M:%S\".\n\nNOTE: The template already imports \"from datetime import datetime\", so you can use datetime.strptime() directly.\nDo NOT use \"import datetime\" or \"datetime.datetime.strptime\" - just use \"datetime.strptime()\".\n\nRequirements:\n1. Generate ONLY the Python code for the operation (the code that goes in the {generated_code} section)\n2. Do NOT include the template structure (imports, input/output handling)\n3. Do NOT use: os, subprocess, sys (except stdin/stdout), file operations, network operations\n4. The code will receive CSV data as:\n   - headers: List[str] - column headers\n   - rows: List[List[str]] - data rows\n\n5. For ANALYSIS operations (read-only, no data modification):\n   - Examples: \"show statistics\", \"count duplicates\", \"analyze data\"\n   - Calculate statistics, summaries, or insights\n   - DO NOT modify the data\n   - Return results as: summary (str), details (dict)\n   - You MUST define variables: summary, details\n\n6. For TRANSFORMATION operations (modify data):\n   - Examples: \"convert to integers\", \"remove duplicates\", \"change format\", \"add column\", \"add row\"\n   - Modify the CSV data (rows/headers)\n   - Track all changes using the UNIFIED CHANGE FORMAT\n\n   UNIFIED CHANGE FORMAT (USE THIS):\n   unified_changes is a List of change objects. Each change MUST have a \"type\" field:\n\n   a) Cell value change:\n      {\"type\": \"cell\", \"row_index\": int, \"column_index\": int, \"old_value\": str, \"new_value\": str}\n\n   b) Add column:\n      {\"type\": \"add_column\", \"column_index\": int, \"column_name\": str, \"position\": \"before\"|\"after\", \"default_value\": str}\n\n   c) Remove column:\n      {\"type\": \"remove_column\", \"column_index\": int, \"column_name\": str}\n\n   d) Rename column:\n      {\"type\": \"rename_column\", \"column_index\": int, \"old_name\": str, \"new_name\": str}\n\n   e) Add row:\n      {\"type\": \"add_row\", \"row_index\": int, \"position\": \"before\"|\"after\", \"row_data\": [str, ...]}\n\n   f) Remove row:\n      {\"type\": \"remove_row\", \"row_index\": int}\n\n   CRITICAL ORDER: When adding columns/rows, put structural changes FIRST, then cell changes:\n   1. Add/remove/rename columns (if any)\n   2. Add/remove rows (if any)\n   3. Modify cell values (if any)\n\n   You MUST define variables: unified_changes, preview\n   - unified_changes: List of change objects (as defined above)\n   - preview: List of preview objects for display (first 10 changes)\n\n   Example for \"add column and populate it\":\n   unified_changes = [\n     {\"type\": \"add_column\", \"column_index\": 2, \"column_name\": \"New Col\", \"position\": \"after\", \"default_value\": \"\"},\n     {\"type\": \"cell\", \"row_index\": 0, \"column_index\": 3, \"old_value\": \"\", \"new_value\": \"value1\"},\n     {\"type\": \"cell\", \"row_index\": 1, \"column_index\": 3, \"old_value\": \"\", \"new_value\": \"value2\"}\n   ]\n\n7. Output format:\n   - Analysis: {\"summary\": \"...\", \"details\": {...}}\n   - Transformation: {\"unified_changes\": [...], \"preview\": [...]}\n\n8. Use only standard library: json, csv, typing, statistics, datetime, re, etc.\n\n9. Progress updates: Print progress as JSON: {\"type\": \"progress\", \"processed\": int, \"total\": int, \"step\": str}\n\nCRITICAL: Determine if the user wants to:\n- READ/VIEW/ANALYZE data → Generate ANALYSIS code (define summary, details)\n- MODIFY/CHANGE/UPDATE data → Generate TRANSFORMATION code (define changes, preview)\n\nGenerate ONLY the Python code, no explanations, no markdown formatting."@
}

/// What the instructions say of the headers and the number of rows.
pub open spec fn sample_text(headers: Seq<Seq<char>>, row_count: usize) -> Seq<char> {
    if row_count > 0 && headers.len() > 0 {
        "\nSample data:\nHeaders: "@ + joined(headers, ", "@) + "\nRow count: "@ + decimal(
            row_count as nat,
        )
    } else {
        Seq::empty()
    }
}

/// What the instructions say of the selected range.
pub open spec fn range_text(range: Option<SelectionRange>) -> Seq<char> {
    match range {
        Some(r) => "\nSelected range: rows "@ + decimal(r.start_row as nat) + "-"@ + decimal(
            r.end_row as nat,
        ) + ", columns "@ + decimal(r.start_column as nat) + "-"@ + decimal(r.end_column as nat),
        None => Seq::empty(),
    }
}

/// The mathematical value of a [`ColumnInfo`].
pub struct ColumnInfoView {
    pub column_index: usize,
    pub column_name: Seq<char>,
    pub detected_type: Seq<char>,
    pub format: Option<Seq<char>>,
    pub sample_values: Seq<Seq<char>>,
}

/// The mathematical value of `column`.
pub open spec fn column_view(column: ColumnInfo) -> ColumnInfoView {
    ColumnInfoView {
        column_index: column.column_index,
        column_name: column.column_name@,
        detected_type: column.detected_type@,
        format: column.format.deep_view(),
        sample_values: column.sample_values.deep_view(),
    }
}

/// The line of the instructions for one column.
pub open spec fn column_line(column: ColumnInfoView) -> Seq<char> {
    "  - "@ + column.column_name + " (index "@ + decimal(column.column_index as nat) + "): type="@
        + column.detected_type + (match column.format {
        Some(f) => ", format=\""@ + f + "\""@,
        None => Seq::empty(),
    }) + (if column.sample_values.len() > 0 {
        ", samples=["@ + joined(column.sample_values, ", "@) + "]"@
    } else {
        Seq::empty()
    })
}

/// The lines of the instructions for the columns, under their heading.
pub open spec fn column_lines(columns: Seq<ColumnInfoView>) -> Seq<Seq<char>> {
    Seq::new(
        columns.len() + 1,
        |i: int|
            if i == 0 {
                "\nColumn Information:"@
            } else {
                column_line(columns[i - 1])
            },
    )
}

/// What the instructions say of the columns.
pub open spec fn columns_text(columns: Option<Seq<ColumnInfoView>>) -> Seq<char> {
    match columns {
        Some(c) => joined(column_lines(c), "\n"@),
        None => Seq::empty(),
    }
}

/// The views of the columns.
pub open spec fn column_views(columns: Option<Vec<ColumnInfo>>) -> Option<Seq<ColumnInfoView>> {
    match columns {
        Some(c) => Some(Seq::new(c.len() as nat, |i: int| column_view(c[i]))),
        None => None,
    }
}

/// The instructions that ask a service for code, for a table as `context`
/// describes it.
pub open spec fn generation_prompt(
    headers: Seq<Seq<char>>,
    row_count: usize,
    range: Option<SelectionRange>,
    columns: Option<Seq<ColumnInfoView>>,
) -> Seq<char> {
    generation_head() + sample_text(headers, row_count) + range_text(range) + columns_text(columns)
        + generation_tail()
}

/// The request text for a Gemini service: the instructions, then the user's
/// request.
pub open spec fn gemini_intent_prompt(prompt: Seq<char>) -> Seq<char> {
    system_prompt() + "\n\nUser request: "@ + prompt
}

/// The address of a Gemini model for a key.
pub open spec fn gemini_endpoint(model: Seq<char>, api_key: Seq<char>) -> Seq<char> {
    "https://generativelanguage.googleapis.com/v1beta/models/"@ + model
        + ":generateContent?key="@ + api_key
}

/// The code between the fence `fence` and the last fence of the answer,
/// trimmed; nothing where the answer has no such fence, or no fence after
/// it.
pub open spec fn fenced_code(answer: Seq<char>, fence: Seq<char>) -> Option<Seq<char>> {
    match (first_match(answer, fence), last_match(answer, "```"@)) {
        (Some(begin), Some(end)) => if begin + fence.len() <= end {
            Some(trimmed(answer.subrange(begin + fence.len(), end)))
        } else {
            None
        },
        _ => None,
    }
}

/// The code of an answer: what stands in its code block where it has one,
/// and else the answer itself, trimmed.
pub open spec fn code_of(answer: Seq<char>) -> Option<Seq<char>> {
    let code = if first_match(answer, "```python"@) is Some {
        fenced_code(answer, "```python"@)
    } else if first_match(answer, "```"@) is Some {
        fenced_code(answer, "```"@)
    } else {
        Some(trimmed(answer))
    };
    match code {
        Some(c) => if c.len() > 0 {
            Some(c)
        } else {
            None
        },
        None => None,
    }
}

/// The client of an OpenAI service.
#[derive(Clone, Debug, PartialEq, Eq)]
pub struct OpenAiClient {
    api_key: String,
    endpoint: String,
    model: String,
}

impl OpenAiClient {
    /// The key of the client.
    pub closed spec fn key(&self) -> Seq<char> {
        self.api_key@
    }

    /// The address that requests go to.
    pub closed spec fn address(&self) -> Seq<char> {
        self.endpoint@
    }

    /// The name of the model.
    pub closed spec fn model_name(&self) -> Seq<char> {
        self.model@
    }

    /// A client for the given key and model; `gpt-4o-mini` where no model
    /// is named.
    pub fn new(api_key: String, model: Option<String>) -> (client: OpenAiClient)
        ensures
            client.key() == api_key@,
            client.address() == "https://api.openai.com/v1/chat/completions"@,
            client.model_name() == (match model {
                Some(m) => m@,
                None => "gpt-4o-mini"@,
            }),
    {
        let model = match model {
            Some(m) => m,
            None => String::from_str("gpt-4o-mini"),
        };
        OpenAiClient {
            api_key,
            endpoint: String::from_str("https://api.openai.com/v1/chat/completions"),
            model,
        }
    }

    /// The key of the client.
    pub fn api_key(&self) -> (key: &str)
        ensures
            key@ == self.key(),
    {
        self.api_key.as_str()
    }

    /// The address that requests go to.
    pub fn endpoint(&self) -> (address: &str)
        ensures
            address@ == self.address(),
    {
        self.endpoint.as_str()
    }

    /// The name of the model.
    pub fn model(&self) -> (name: &str)
        ensures
            name@ == self.model_name(),
    {
        self.model.as_str()
    }

    /// The instructions that ask the service for the intent of a request.
    pub fn create_system_prompt() -> (prompt: String)
        ensures
            prompt@ == system_prompt(),
    {
        String::from_str("You are an AI assistant for a CSV data editor. Your job is to understand user requests about CSV data operations and return structured JSON responses.\n\nAnalyze the user's request and determine:\n1. Type of operation (analysis or transformation)\n2. Specific operation to perform\n3. Target scope (which columns/data to operate on)\n\nReturn ONLY a valid JSON object in this exact format:\n\nFor ANALYSIS requests:\n{\n  \"intent_type\": \"analysis\",\n  \"analysis_type\": \"statistics\" | \"distribution\" | \"correlation\" | \"outliers\" | \"missing\" | \"duplicates\" | \"summary\",\n  \"target_scope\": {\n    \"type\": \"all_data\" | \"column\" | \"columns\",\n    \"column_name\": \"column name\" (optional, for single column),\n    \"column_names\": [\"col1\", \"col2\"] (optional, for multiple columns)\n  }\n}\n\nFor TRANSFORMATION requests:\n{\n  \"intent_type\": \"transformation\",\n  \"operation\": \"normalize\" | \"format_dates\" | \"format_numbers\" | \"remove_duplicates\" | \"fill_missing\" | \"capitalize\" | \"lowercase\" | \"uppercase\" | \"trim\" | \"replace\",\n  \"parameters\": {\n    \"target_format\": \"YYYY-MM-DD\" (for format_dates),\n    \"decimal_places\": 2 (for format_numbers),\n    \"strategy\": \"mean\" | \"median\" | \"mode\" | \"zero\" | \"forward\" (for fill_missing),\n    \"from\": \"text\", \"to\": \"replacement\" (for replace)\n  },\n  \"target_scope\": {\n    \"type\": \"all_data\" | \"column\" | \"columns\",\n    \"column_name\": \"column name\" (optional),\n    \"column_names\": [\"col1\", \"col2\"] (optional)\n  }\n}\n\nAnalysis types:\n- statistics: Calculate mean, median, std dev, etc.\n- distribution: Show value frequency and distribution\n- correlation: Find correlations between numeric columns\n- outliers: Detect outliers using statistical methods\n- missing: Analyze missing/empty values\n- duplicates: Find duplicate rows\n- summary: General dataset overview\n\nTransformation operations:\n- normalize: Scale values to 0-1 range\n- format_dates: Standardize date format\n- format_numbers: Format decimal places\n- remove_duplicates: Remove duplicate rows\n- fill_missing: Fill empty values\n- capitalize: Capitalize first letter of each word\n- lowercase: Convert to lowercase\n- uppercase: Convert to uppercase\n- trim: Remove leading/trailing whitespace\n- replace: Find and replace text\n\nReturn ONLY the JSON object, no other text.")
    }

    /// What the instructions say of the headers and the number of rows.
    pub fn sample_part(headers: &Vec<String>, row_count: usize) -> (text: String)
        ensures
            text@ == sample_text(headers.deep_view(), row_count),
    {
        if row_count > 0 && headers.len() > 0 {
            let mut text = String::from_str("\nSample data:\nHeaders: ");
            let joined_headers = join_strings(headers, ", ");
            text.append(joined_headers.as_str());
            text.append("\nRow count: ");
            push_decimal(&mut text, row_count);
            text
        } else {
            String::new()
        }
    }

    /// What the instructions say of the selected range.
    pub fn range_part(range: &Option<SelectionRange>) -> (text: String)
        ensures
            text@ == range_text(*range),
    {
        match range {
            Some(r) => {
                let mut text = String::from_str("\nSelected range: rows ");
                push_decimal(&mut text, r.start_row);
                text.append("-");
                push_decimal(&mut text, r.end_row);
                text.append(", columns ");
                push_decimal(&mut text, r.start_column);
                text.append("-");
                push_decimal(&mut text, r.end_column);
                text
            },
            None => String::new(),
        }
    }

    /// The line of the instructions for one column.
    pub fn column_part(column: &ColumnInfo) -> (line: String)
        ensures
            line@ == column_line(column_view(*column)),
    {
        let mut line = String::from_str("  - ");
        line.append(column.column_name.as_str());
        line.append(" (index ");
        push_decimal(&mut line, column.column_index);
        line.append("): type=");
        line.append(column.detected_type.as_str());
        let ghost stem = line@;
        let mut format_text = String::new();
        if let Some(format) = &column.format {
            format_text.append(", format=\"");
            format_text.append(format.as_str());
            format_text.append("\"");
        }
        let mut samples_text = String::new();
        if column.sample_values.len() > 0 {
            samples_text.append(", samples=[");
            let samples = join_strings(&column.sample_values, ", ");
            samples_text.append(samples.as_str());
            samples_text.append("]");
        }
        line.append(format_text.as_str());
        line.append(samples_text.as_str());
        assert(format_text@ =~= (match column.format {
            Some(f) => ", format=\""@ + f@ + "\""@,
            None => Seq::empty(),
        }));
        assert(samples_text@ =~= (if column.sample_values.len() > 0 {
            ", samples=["@ + joined(column.sample_values.deep_view(), ", "@) + "]"@
        } else {
            Seq::empty()
        }));
        assert(line@ == stem + format_text@ + samples_text@);
        line
    }

    /// What the instructions say of the columns.
    pub fn columns_part(columns: &Option<Vec<ColumnInfo>>) -> (text: String)
        ensures
            text@ == columns_text(column_views(*columns)),
    {
        match columns {
            Some(list) => {
                let mut lines: Vec<String> = vec![String::from_str("\nColumn Information:")];
                let ghost model = column_views(*columns)->Some_0;
                let mut i: usize = 0;
                while i < list.len()
                    invariant
                        i <= list.len(),
                        model.len() == list.len(),
                        forall|k: int| 0 <= k < list.len() ==> model[k] == column_view(list[k]),
                        lines.len() == i + 1,
                        forall|k: int|
                            0 <= k <= i ==> (#[trigger] lines[k])@ == column_lines(model)[k],
                    decreases list.len() - i,
                {
                    lines.push(OpenAiClient::column_part(&list[i]));
                    i += 1;
                }
                assert(lines.deep_view() =~= column_lines(model));
                join_strings(&lines, "\n")
            },
            None => String::new(),
        }
    }

    /// The instructions that ask the service for code.
    pub fn create_script_generation_prompt(context: &ExecutionContext) -> (prompt: String)
        ensures
            prompt@ == generation_prompt(
                context.headers.deep_view(),
                context.row_count,
                context.selected_range,
                column_views(context.column_info),
            ),
    {
        let sample = OpenAiClient::sample_part(&context.headers, context.row_count);
        let range = OpenAiClient::range_part(&context.selected_range);
        let columns = OpenAiClient::columns_part(&context.column_info);
        let mut prompt = String::from_str("You are a Python code generator for CSV data manipulation in CSV Light Editor.\n\nYour task is to generate Python code that processes CSV data according to user requests.\n\nCSV Context:");
        prompt.append(sample.as_str());
        prompt.append(range.as_str());
        prompt.append(columns.as_str());
        prompt.append("\n\nIMPORTANT: Pay close attention to the column information above, especially datetime formats.\nWhen parsing datetime values, use the EXACT format specified in the column information.\nFor example, if a column shows format=\"%Y-%m-%d %H:%M\", use datetime.strptime(value, \"%Y-%m-%d %H:%M\") NOT \"%Y-%m-%d %H:%M:%S\".\n\nNOTE: The template already imports \"from datetime import datetime\", so you can use datetime.strptime() directly.\nDo NOT use \"import datetime\" or \"datetime.datetime.strptime\" - just use \"datetime.strptime()\".\n\nRequirements:\n1. Generate ONLY the Python code for the operation (the code that goes in the {generated_code} section)\n2. Do NOT include the template structure (imports, input/output handling)\n3. Do NOT use: os, subprocess, sys (except stdin/stdout), file operations, network operations\n4. The code will receive CSV data as:\n   - headers: List[str] - column headers\n   - rows: List[List[str]] - data rows\n\n5. For ANALYSIS operations (read-only, no data modification):\n   - Examples: \"show statistics\", \"count duplicates\", \"analyze data\"\n   - Calculate statistics, summaries, or insights\n   - DO NOT modify the data\n   - Return results as: summary (str), details (dict)\n   - You MUST define variables: summary, details\n\n6. For TRANSFORMATION operations (modify data):\n   - Examples: \"convert to integers\", \"remove duplicates\", \"change format\", \"add column\", \"add row\"\n   - Modify the CSV data (rows/headers)\n   - Track all changes using the UNIFIED CHANGE FORMAT\n\n   UNIFIED CHANGE FORMAT (USE THIS):\n   unified_changes is a List of change objects. Each change MUST have a \"type\" field:\n\n   a) Cell value change:\n      {\"type\": \"cell\", \"row_index\": int, \"column_index\": int, \"old_value\": str, \"new_value\": str}\n\n   b) Add column:\n      {\"type\": \"add_column\", \"column_index\": int, \"column_name\": str, \"position\": \"before\"|\"after\", \"default_value\": str}\n\n   c) Remove column:\n      {\"type\": \"remove_column\", \"column_index\": int, \"column_name\": str}\n\n   d) Rename column:\n      {\"type\": \"rename_column\", \"column_index\": int, \"old_name\": str, \"new_name\": str}\n\n   e) Add row:\n      {\"type\": \"add_row\", \"row_index\": int, \"position\": \"before\"|\"after\", \"row_data\": [str, ...]}\n\n   f) Remove row:\n      {\"type\": \"remove_row\", \"row_index\": int}\n\n   CRITICAL ORDER: When adding columns/rows, put structural changes FIRST, then cell changes:\n   1. Add/remove/rename columns (if any)\n   2. Add/remove rows (if any)\n   3. Modify cell values (if any)\n\n   You MUST define variables: unified_changes, preview\n   - unified_changes: List of change objects (as defined above)\n   - preview: List of preview objects for display (first 10 changes)\n\n   Example for \"add column and populate it\":\n   unified_changes = [\n     {\"type\": \"add_column\", \"column_index\": 2, \"column_name\": \"New Col\", \"position\": \"after\", \"default_value\": \"\"},\n     {\"type\": \"cell\", \"row_index\": 0, \"column_index\": 3, \"old_value\": \"\", \"new_value\": \"value1\"},\n     {\"type\": \"cell\", \"row_index\": 1, \"column_index\": 3, \"old_value\": \"\", \"new_value\": \"value2\"}\n   ]\n\n7. Output format:\n   - Analysis: {\"summary\": \"...\", \"details\": {...}}\n   - Transformation: {\"unified_changes\": [...], \"preview\": [...]}\n\n8. Use only standard library: json, csv, typing, statistics, datetime, re, etc.\n\n9. Progress updates: Print progress as JSON: {\"type\": \"progress\", \"processed\": int, \"total\": int, \"step\": str}\n\nCRITICAL: Determine if the user wants to:\n- READ/VIEW/ANALYZE data → Generate ANALYSIS code (define summary, details)\n- MODIFY/CHANGE/UPDATE data → Generate TRANSFORMATION code (define changes, preview)\n\nGenerate ONLY the Python code, no explanations, no markdown formatting.");
        prompt
    }
}

/// The client of a Gemini service.
#[derive(Clone, Debug, PartialEq, Eq)]
pub struct GeminiClient {
    api_key: String,
    endpoint: String,
    model: String,
}

impl GeminiClient {
    /// The key of the client.
    pub closed spec fn key(&self) -> Seq<char> {
        self.api_key@
    }

    /// The address that requests go to.
    pub closed spec fn address(&self) -> Seq<char> {
        self.endpoint@
    }

    /// The name of the model.
    pub closed spec fn model_name(&self) -> Seq<char> {
        self.model@
    }

    /// A client for the given key and model; `gemini-1.5-flash` where no
    /// model is named.
    pub fn new(api_key: String, model: Option<String>) -> (client: GeminiClient)
        ensures
            client.key() == api_key@,
            client.model_name() == (match model {
                Some(m) => m@,
                None => "gemini-1.5-flash"@,
            }),
            client.address() == gemini_endpoint(client.model_name(), api_key@),
    {
        let model = match model {
            Some(m) => m,
            None => String::from_str("gemini-1.5-flash"),
        };
        let mut endpoint = String::from_str(
            "https://generativelanguage.googleapis.com/v1beta/models/",
        );
        endpoint.append(model.as_str());
        endpoint.append(":generateContent?key=");
        endpoint.append(api_key.as_str());
        GeminiClient { api_key, endpoint, model }
    }

    /// The key of the client.
    pub fn api_key(&self) -> (key: &str)
        ensures
            key@ == self.key(),
    {
        self.api_key.as_str()
    }

    /// The address that requests go to.
    pub fn endpoint(&self) -> (address: &str)
        ensures
            address@ == self.address(),
    {
        self.endpoint.as_str()
    }

    /// The name of the model.
    pub fn model(&self) -> (name: &str)
        ensures
            name@ == self.model_name(),
    {
        self.model.as_str()
    }

    /// The instructions that ask the service for the intent of a request.
    pub fn create_system_prompt() -> (prompt: String)
        ensures
            prompt@ == system_prompt(),
    {
        OpenAiClient::create_system_prompt()
    }

    /// The request text that asks the service for the intent of `prompt`.
    pub fn intent_prompt(prompt: &str) -> (text: String)
        ensures
            text@ == gemini_intent_prompt(prompt@),
    {
        let mut text = GeminiClient::create_system_prompt();
        text.append("\n\nUser request: ");
        text.append(prompt);
        text
    }
}

/// The code between a fence and the last fence of the answer.
fn code_between(answer: &Vec<char>, fence: &str) -> (r: Option<String>)
    ensures
        r.deep_view() == fenced_code(answer@, fence@),
{
    let opening = to_chars(fence);
    let closing = to_chars("```");
    match (find_first(answer, &opening), find_last(answer, &closing)) {
        (Some(begin), Some(end)) => {
            if begin + opening.len() <= end {
                let inner = crate::text::chars_of_range(answer, begin + opening.len(), end);
                let (a, b) = trim_bounds(&inner);
                Some(string_of_range(&inner, a, b))
            } else {
                None
            }
        },
        _ => None,
    }
}

/// The code of an answer of the service, which may stand in a code block.
pub fn extract_python_code(response: &str) -> (r: Result<String, CodeError>)
    ensures
        match code_of(response@) {
            Some(code) => r is Ok && r->Ok_0@ == code,
            None => r == Err::<String, CodeError>(CodeError::NoCodeFound),
        },
{
    let answer = to_chars(response);
    let python = to_chars("```python");
    let fence = to_chars("```");
    let code = if find_first(&answer, &python).is_some() {
        code_between(&answer, "```python")
    } else if find_first(&answer, &fence).is_some() {
        code_between(&answer, "```")
    } else {
        let (a, b) = trim_bounds(&answer);
        Some(string_of_range(&answer, a, b))
    };
    match code {
        Some(c) => if c.as_str().is_empty() {
            Err(CodeError::NoCodeFound)
        } else {
            Ok(c)
        },
        None => Err(CodeError::NoCodeFound),
    }
}

impl CodeError {
    /// The message of the failure.
    pub fn message(&self) -> (m: String)
        ensures
            m@ == "No Python code found in LLM response"@,
    {
        String::from_str("No Python code found in LLM response")
    }
}

/// Why an answer of a service could not be used.
#[derive(Clone, Copy, Debug, PartialEq, Eq, Structural)]
pub enum AnswerError {
    /// The answer is no JSON of the shape that the service documents.
    Malformed,
    /// The answer holds no choice or candidate.
    NoResponse,
    /// The first candidate holds no part.
    NoContent,
}

/// The text of one choice of an OpenAI answer: the string `content` of its
/// object `message`.
pub open spec fn choice_text(choice: JsonView) -> Option<Seq<char>> {
    match choice.get("message"@) {
        Some(JsonView::Object(m)) => JsonView::Object(m).text_of("content"@),
        _ => None,
    }
}

/// Whether each of the first `upto` items has a text by `read`.
pub open spec fn all_read(
    items: Seq<JsonView>,
    read: spec_fn(JsonView) -> Option<Seq<char>>,
    upto: int,
) -> bool {
    forall|i: int| 0 <= i < upto && i < items.len() ==> read(#[trigger] items[i]) is Some
}

/// The text that an OpenAI service answered with: that of the first of its
/// `choices`, all of which must be well-formed.
pub open spec fn openai_answer(doc: JsonView) -> Result<Seq<char>, AnswerError> {
    match doc.get("choices"@) {
        Some(JsonView::Array(choices)) => if !all_read(
            choices,
            |c: JsonView| choice_text(c),
            choices.len() as int,
        ) {
            Err(AnswerError::Malformed)
        } else if choices.len() == 0 {
            Err(AnswerError::NoResponse)
        } else {
            Ok(choice_text(choices[0])->Some_0)
        },
        _ => Err(AnswerError::Malformed),
    }
}

/// The parts of one candidate of a Gemini answer: the array `parts` of its
/// object `content`, where each part has a string `text`.
pub open spec fn candidate_parts(candidate: JsonView) -> Option<Seq<JsonView>> {
    match candidate.get("content"@) {
        Some(JsonView::Object(c)) => match JsonView::Object(c).get("parts"@) {
            Some(JsonView::Array(parts)) => if all_read(
                parts,
                |p: JsonView| p.text_of("text"@),
                parts.len() as int,
            ) {
                Some(parts)
            } else {
                None
            },
            _ => None,
        },
        _ => None,
    }
}

/// Whether each of the first `upto` candidates is well-formed.
pub open spec fn all_candidates(items: Seq<JsonView>, upto: int) -> bool {
    forall|i: int| 0 <= i < upto && i < items.len() ==> candidate_parts(#[trigger] items[i]) is Some
}

/// The text that a Gemini service answered with: the first part of the
/// first of its `candidates`, all of which must be well-formed.
pub open spec fn gemini_answer(doc: JsonView) -> Result<Seq<char>, AnswerError> {
    match doc.get("candidates"@) {
        Some(JsonView::Array(candidates)) => if !all_candidates(
            candidates,
            candidates.len() as int,
        ) {
            Err(AnswerError::Malformed)
        } else if candidates.len() == 0 {
            Err(AnswerError::NoResponse)
        } else if candidate_parts(candidates[0])->Some_0.len() == 0 {
            Err(AnswerError::NoContent)
        } else {
            Ok(candidate_parts(candidates[0])->Some_0[0].text_of("text"@)->Some_0)
        },
        _ => Err(AnswerError::Malformed),
    }
}

/// The part of the table that an answer names; nothing where the answer is
/// not of the expected shape.
pub open spec fn decoded_scope(doc: JsonView) -> Option<TargetScopeView> {
    match doc.get("target_scope"@) {
        Some(JsonView::Object(members)) => {
            let scope = JsonView::Object(members);
            let kind = scope.text_of("type"@);
            let name = optional_text(scope, "column_name"@);
            let names = optional_texts(scope, "column_names"@);
            if kind is None || name is None || names is None {
                None
            } else if kind == Some("column"@) && name->Some_0 is Some {
                Some(TargetScopeView::Column { name: name->Some_0->Some_0 })
            } else if kind == Some("columns"@) && names->Some_0 is Some {
                Some(TargetScopeView::Columns { names: names->Some_0->Some_0 })
            } else {
                Some(TargetScopeView::AllData)
            }
        },
        _ => None,
    }
}

/// The kind of analysis of a name.
pub open spec fn analysis_named(name: Option<Seq<char>>) -> Option<AnalysisType> {
    if name == Some("statistics"@) {
        Some(AnalysisType::Statistics)
    } else if name == Some("distribution"@) {
        Some(AnalysisType::Distribution)
    } else if name == Some("correlation"@) {
        Some(AnalysisType::Correlation)
    } else if name == Some("outliers"@) {
        Some(AnalysisType::Outliers)
    } else if name == Some("missing"@) {
        Some(AnalysisType::Missing)
    } else if name == Some("duplicates"@) {
        Some(AnalysisType::Duplicates)
    } else if name == Some("summary"@) {
        Some(AnalysisType::Summary)
    } else {
        None
    }
}

/// The string parameter `key`, or `default` where there is none.
pub open spec fn text_parameter(params: Option<JsonView>, key: Seq<char>, default: Seq<char>) -> Seq<
    char,
> {
    match params {
        Some(p) => match p.text_of(key) {
            Some(t) => t,
            None => default,
        },
        None => default,
    }
}

/// The index parameter `key`, or `default` where there is none.
pub open spec fn index_parameter(params: Option<JsonView>, key: Seq<char>, default: usize) -> usize {
    match params {
        Some(p) => match index_of(p.unsigned_of(key)) {
            Some(n) => n,
            None => default,
        },
        None => default,
    }
}

/// The transformation of a name, with its parameters.
pub open spec fn operation_named(name: Option<Seq<char>>, params: Option<JsonView>) -> Option<
    TransformOperationView,
> {
    if name == Some("normalize"@) {
        Some(TransformOperationView::Normalize)
    } else if name == Some("format_dates"@) {
        Some(
            TransformOperationView::FormatDates {
                target_format: text_parameter(params, "target_format"@, "YYYY-MM-DD"@),
            },
        )
    } else if name == Some("format_numbers"@) {
        Some(
            TransformOperationView::FormatNumbers {
                decimal_places: index_parameter(params, "decimal_places"@, 2),
            },
        )
    } else if name == Some("remove_duplicates"@) {
        Some(TransformOperationView::RemoveDuplicates)
    } else if name == Some("fill_missing"@) {
        Some(
            TransformOperationView::FillMissing {
                strategy: text_parameter(params, "strategy"@, "mean"@),
            },
        )
    } else if name == Some("capitalize"@) {
        Some(TransformOperationView::Capitalize)
    } else if name == Some("lowercase"@) {
        Some(TransformOperationView::Lowercase)
    } else if name == Some("uppercase"@) {
        Some(TransformOperationView::Uppercase)
    } else if name == Some("trim"@) {
        Some(TransformOperationView::Trim)
    } else if name == Some("replace"@) {
        Some(
            TransformOperationView::Replace {
                from: text_parameter(params, "from"@, ""@),
                to: text_parameter(params, "to"@, ""@),
            },
        )
    } else {
        None
    }
}

/// The parameters of an answer: its member `parameters` unless that is
/// `null`.
pub open spec fn parameters_of(doc: JsonView) -> Option<JsonView> {
    match doc.get("parameters"@) {
        Some(JsonView::Null) => None,
        other => other,
    }
}

/// The intent that an answer of the service states.
pub open spec fn decoded_intent(doc: JsonView) -> Result<IntentView, IntentError> {
    let kind = doc.text_of("intent_type"@);
    let analysis = optional_text(doc, "analysis_type"@);
    let operation = optional_text(doc, "operation"@);
    let scope = decoded_scope(doc);
    if kind is None || analysis is None || operation is None || scope is None {
        Err(IntentError::MalformedAnswer)
    } else if kind == Some("analysis"@) {
        match analysis_named(analysis->Some_0) {
            Some(analysis_type) => Ok(
                IntentView {
                    intent_type: IntentTypeView::Analysis { analysis_type },
                    target_scope: scope->Some_0,
                    source: IntentSource::Service,
                },
            ),
            None => Err(IntentError::UnknownAnalysisType),
        }
    } else if kind == Some("transformation"@) {
        match operation_named(operation->Some_0, parameters_of(doc)) {
            Some(op) => Ok(
                IntentView {
                    intent_type: IntentTypeView::Transformation { operation: op },
                    target_scope: scope->Some_0,
                    source: IntentSource::Service,
                },
            ),
            None => Err(IntentError::UnknownOperation),
        }
    } else {
        Err(IntentError::UnknownIntentType)
    }
}

/// What [`parse_llm_response`] makes of an answer.
pub open spec fn parsed_intent(answer: Seq<char>) -> Result<IntentView, IntentError> {
    match json_document(answer) {
        Some(doc) => decoded_intent(doc),
        None => Err(IntentError::MalformedAnswer),
    }
}

/// When an answer gives no intent: a text that is no JSON document, and a
/// document without a text under `intent_type`, are malformed answers; a
/// kind other than `analysis` and `transformation` is unknown. An intent
/// that is read comes from a document of one of these two kinds, and is
/// marked as read from the service.
pub proof fn lemma_answers_without_intent(answer: Seq<char>)
    ensures
        json_document(answer) is None ==> parsed_intent(answer) == Err::<IntentView, IntentError>(
            IntentError::MalformedAnswer,
        ),
        json_document(answer) is Some && json_document(answer)->Some_0.text_of("intent_type"@)
            is None ==> parsed_intent(answer) == Err::<IntentView, IntentError>(
            IntentError::MalformedAnswer,
        ),
        parsed_intent(answer) == Err::<IntentView, IntentError>(IntentError::UnknownIntentType)
            ==> json_document(answer) is Some && json_document(answer)->Some_0.text_of(
            "intent_type"@,
        ) != Some("analysis"@) && json_document(answer)->Some_0.text_of("intent_type"@) != Some(
            "transformation"@,
        ),
        parsed_intent(answer) is Ok ==> {
            let doc = json_document(answer);
            &&& doc is Some
            &&& parsed_intent(answer)->Ok_0.source == IntentSource::Service
            &&& decoded_scope(doc->Some_0) == Some(parsed_intent(answer)->Ok_0.target_scope)
            &&& (parsed_intent(answer)->Ok_0.intent_type is Analysis <==> doc->Some_0.text_of(
                "intent_type"@,
            ) == Some("analysis"@))
        },
{
    reveal_strlit("analysis");
    reveal_strlit("transformation");
    assert("analysis"@ != "transformation"@) by {
        assert("analysis"@.len() == 8);
        assert("transformation"@.len() == 14);
    }
}

/// The view of the outcome of reading an intent.
pub open spec fn intent_outcome(r: Result<Intent, IntentError>) -> Result<IntentView, IntentError> {
    match r {
        Ok(intent) => Ok(intent.deep_view()),
        Err(e) => Err(e),
    }
}

/// The view of the outcome of reading an answer.
pub open spec fn answer_outcome(r: Result<String, AnswerError>) -> Result<Seq<char>, AnswerError> {
    match r {
        Ok(text) => Ok(text@),
        Err(e) => Err(e),
    }
}

/// The text of one choice of an OpenAI answer.
pub fn read_choice(choice: &Json) -> (r: Option<&str>)
    ensures
        crate::json::opt_str_view(r) == choice_text(choice@),
{
    match choice.get("message") {
        Some(message) => match message {
            Json::Object(_) => message.text_of("content"),
            _ => None,
        },
        None => None,
    }
}

/// The text that an OpenAI service answered with.
pub fn read_openai_answer(doc: &Json) -> (r: Result<String, AnswerError>)
    ensures
        answer_outcome(r) == openai_answer(doc@),
{
    let choices = match doc.get("choices") {
        Some(member) => match member.as_array() {
            Some(items) => items,
            None => {
                return Err(AnswerError::Malformed);
            },
        },
        None => {
            return Err(AnswerError::Malformed);
        },
    };
    let ghost read = |c: JsonView| choice_text(c);
    let mut i: usize = 0;
    assert(doc@.get("choices"@) == Some(JsonView::Array(choices.deep_view())));
    while i < choices.len()
        invariant
            i <= choices.len(),
            doc@.get("choices"@) == Some(JsonView::Array(choices.deep_view())),
            read == (|c: JsonView| choice_text(c)),
            all_read(choices.deep_view(), read, i as int),
        decreases choices.len() - i,
    {
        if read_choice(&choices[i]).is_none() {
            assert(read(choices.deep_view()[i as int]) is None);
            return Err(AnswerError::Malformed);
        }
        i += 1;
    }
    if choices.len() == 0 {
        return Err(AnswerError::NoResponse);
    }
    match read_choice(&choices[0]) {
        Some(text) => Ok(String::from_str(text)),
        None => Err(AnswerError::Malformed),
    }
}

/// The parts of one candidate of a Gemini answer.
pub fn read_candidate(candidate: &Json) -> (r: Option<&Vec<Json>>)
    ensures
        match r {
            Some(parts) => candidate_parts(candidate@) == Some(parts.deep_view()),
            None => candidate_parts(candidate@) is None,
        },
{
    let content = match candidate.get("content") {
        Some(c) => c,
        None => {
            return None;
        },
    };
    match content {
        Json::Object(_) => {},
        _ => {
            return None;
        },
    }
    let parts = match content.get("parts") {
        Some(member) => match member.as_array() {
            Some(items) => items,
            None => {
                return None;
            },
        },
        None => {
            return None;
        },
    };
    let ghost read = |p: JsonView| p.text_of("text"@);
    let mut i: usize = 0;
    assert(candidate@.get("content"@) == Some(content@));
    assert(content@.get("parts"@) == Some(JsonView::Array(parts.deep_view())));
    while i < parts.len()
        invariant
            i <= parts.len(),
            candidate@.get("content"@) == Some(content@),
            content@ is Object,
            content@.get("parts"@) == Some(JsonView::Array(parts.deep_view())),
            read == (|p: JsonView| p.text_of("text"@)),
            all_read(parts.deep_view(), read, i as int),
        decreases parts.len() - i,
    {
        if parts[i].text_of("text").is_none() {
            assert(read(parts.deep_view()[i as int]) is None);
            return None;
        }
        i += 1;
    }
    Some(parts)
}

/// The text that a Gemini service answered with.
pub fn read_gemini_answer(doc: &Json) -> (r: Result<String, AnswerError>)
    ensures
        answer_outcome(r) == gemini_answer(doc@),
{
    let candidates = match doc.get("candidates") {
        Some(member) => match member.as_array() {
            Some(items) => items,
            None => {
                return Err(AnswerError::Malformed);
            },
        },
        None => {
            return Err(AnswerError::Malformed);
        },
    };
    let mut i: usize = 0;
    assert(doc@.get("candidates"@) == Some(JsonView::Array(candidates.deep_view())));
    while i < candidates.len()
        invariant
            i <= candidates.len(),
            doc@.get("candidates"@) == Some(JsonView::Array(candidates.deep_view())),
            all_candidates(candidates.deep_view(), i as int),
        decreases candidates.len() - i,
    {
        if read_candidate(&candidates[i]).is_none() {
            assert(candidate_parts(candidates.deep_view()[i as int]) is None);
            return Err(AnswerError::Malformed);
        }
        i += 1;
    }
    if candidates.len() == 0 {
        return Err(AnswerError::NoResponse);
    }
    match read_candidate(&candidates[0]) {
        Some(parts) => {
            if parts.len() == 0 {
                return Err(AnswerError::NoContent);
            }
            assert(parts.deep_view()[0] == parts[0]@);
            match parts[0].text_of("text") {
                Some(text) => Ok(String::from_str(text)),
                None => Err(AnswerError::Malformed),
            }
        },
        None => Err(AnswerError::Malformed),
    }
}

/// The part of the table that an answer names.
pub fn decode_scope(doc: &Json) -> (r: Option<TargetScope>)
    ensures
        r.deep_view() == decoded_scope(doc@),
{
    let scope = match doc.get("target_scope") {
        Some(s) => s,
        None => {
            return None;
        },
    };
    match scope {
        Json::Object(_) => {},
        _ => {
            return None;
        },
    }
    let kind = match scope.text_of("type") {
        Some(k) => k,
        None => {
            return None;
        },
    };
    let name = match decode_optional_text(scope, "column_name") {
        Some(n) => n,
        None => {
            return None;
        },
    };
    let names = match decode_optional_texts(scope, "column_names") {
        Some(n) => n,
        None => {
            return None;
        },
    };
    if str_eq(kind, "column") {
        if let Some(name) = name {
            return Some(TargetScope::Column { name });
        }
    }
    if str_eq(kind, "columns") {
        if let Some(names) = names {
            return Some(TargetScope::Columns { names });
        }
    }
    Some(TargetScope::AllData)
}

/// The kind of analysis of a name.
pub fn analysis_by_name(name: &Option<String>) -> (r: Option<AnalysisType>)
    ensures
        r == analysis_named(name.deep_view()),
{
    let name: &str = match name {
        Some(n) => n.as_str(),
        None => {
            return None;
        },
    };
    if str_eq(name, "statistics") {
        Some(AnalysisType::Statistics)
    } else if str_eq(name, "distribution") {
        Some(AnalysisType::Distribution)
    } else if str_eq(name, "correlation") {
        Some(AnalysisType::Correlation)
    } else if str_eq(name, "outliers") {
        Some(AnalysisType::Outliers)
    } else if str_eq(name, "missing") {
        Some(AnalysisType::Missing)
    } else if str_eq(name, "duplicates") {
        Some(AnalysisType::Duplicates)
    } else if str_eq(name, "summary") {
        Some(AnalysisType::Summary)
    } else {
        None
    }
}

/// The string parameter `key`, or `default` where there is none.
pub fn read_text_parameter(params: Option<&Json>, key: &str, default: &str) -> (r: String)
    ensures
        r@ == text_parameter(crate::json::opt_json_view(params), key@, default@),
{
    match params {
        Some(p) => match p.text_of(key) {
            Some(t) => String::from_str(t),
            None => String::from_str(default),
        },
        None => String::from_str(default),
    }
}

/// The index parameter `key`, or `default` where there is none.
pub fn read_index_parameter(params: Option<&Json>, key: &str, default: usize) -> (r: usize)
    ensures
        r == index_parameter(crate::json::opt_json_view(params), key@, default),
{
    match params {
        Some(p) => match crate::ai_script::interpreter::index_member(p, key) {
            Some(n) => n,
            None => default,
        },
        None => default,
    }
}

/// The transformation of a name, with its parameters.
pub fn operation_by_name(name: &Option<String>, params: Option<&Json>) -> (r: Option<
    TransformOperation,
>)
    ensures
        r.deep_view() == operation_named(name.deep_view(), crate::json::opt_json_view(params)),
{
    let name: &str = match name {
        Some(n) => n.as_str(),
        None => {
            return None;
        },
    };
    if str_eq(name, "normalize") {
        Some(TransformOperation::Normalize)
    } else if str_eq(name, "format_dates") {
        Some(
            TransformOperation::FormatDates {
                target_format: read_text_parameter(params, "target_format", "YYYY-MM-DD"),
            },
        )
    } else if str_eq(name, "format_numbers") {
        Some(
            TransformOperation::FormatNumbers {
                decimal_places: read_index_parameter(params, "decimal_places", 2),
            },
        )
    } else if str_eq(name, "remove_duplicates") {
        Some(TransformOperation::RemoveDuplicates)
    } else if str_eq(name, "fill_missing") {
        Some(
            TransformOperation::FillMissing {
                strategy: read_text_parameter(params, "strategy", "mean"),
            },
        )
    } else if str_eq(name, "capitalize") {
        Some(TransformOperation::Capitalize)
    } else if str_eq(name, "lowercase") {
        Some(TransformOperation::Lowercase)
    } else if str_eq(name, "uppercase") {
        Some(TransformOperation::Uppercase)
    } else if str_eq(name, "trim") {
        Some(TransformOperation::Trim)
    } else if str_eq(name, "replace") {
        Some(
            TransformOperation::Replace {
                from: read_text_parameter(params, "from", ""),
                to: read_text_parameter(params, "to", ""),
            },
        )
    } else {
        None
    }
}

/// The intent that an answer of the service states.
pub fn decode_intent(doc: &Json) -> (r: Result<Intent, IntentError>)
    ensures
        intent_outcome(r) == decoded_intent(doc@),
{
    let kind = doc.text_of("intent_type");
    let analysis = decode_optional_text(doc, "analysis_type");
    let operation = decode_optional_text(doc, "operation");
    let scope = decode_scope(doc);
    match (kind, analysis, operation, scope) {
        (Some(kind), Some(analysis), Some(operation), Some(target_scope)) => {
            if str_eq(kind, "analysis") {
                match analysis_by_name(&analysis) {
                    Some(analysis_type) => Ok(
                        Intent {
                            intent_type: IntentType::Analysis { analysis_type },
                            target_scope,
                            source: IntentSource::Service,
                        },
                    ),
                    None => Err(IntentError::UnknownAnalysisType),
                }
            } else if str_eq(kind, "transformation") {
                let params = match doc.get("parameters") {
                    Some(Json::Null) => None,
                    other => other,
                };
                match operation_by_name(&operation, params) {
                    Some(op) => Ok(
                        Intent {
                            intent_type: IntentType::Transformation { operation: op },
                            target_scope,
                            source: IntentSource::Service,
                        },
                    ),
                    None => Err(IntentError::UnknownOperation),
                }
            } else {
                Err(IntentError::UnknownIntentType)
            }
        },
        _ => Err(IntentError::MalformedAnswer),
    }
}

/// Reads the intent that an answer of the service states.
pub fn parse_llm_response(json_str: &str) -> (r: Result<Intent, IntentError>)
    ensures
        intent_outcome(r) == parsed_intent(json_str@),
{
    match Json::parse(json_str) {
        Some(doc) => decode_intent(&doc),
        None => Err(IntentError::MalformedAnswer),
    }
}

} // verus!
