use csv_light_editor::csv_engine::export::{ExportFormat, ExportOptions, Exporter};

fn strings(items: &[&str]) -> Vec<String> {
    items.iter().map(|s| s.to_string()).collect()
}

fn create_test_data() -> (Vec<String>, Vec<Vec<String>>) {
    (
        vec!["Name".to_string(), "Age".to_string(), "City".to_string()],
        vec![
            vec!["Alice".to_string(), "30".to_string(), "NYC".to_string()],
            vec!["Bob".to_string(), "25".to_string(), "LA".to_string()],
        ],
    )
}

fn options(format: ExportFormat, include_headers: bool, pretty_print: bool) -> ExportOptions {
    ExportOptions { format, include_headers, pretty_print }
}

#[test]
fn test_generate_markdown() {
    let (headers, rows) = create_test_data();
    let options = ExportOptions {
        format: ExportFormat::Markdown,
        include_headers: true,
        pretty_print: false,
    };

    let result = Exporter::generate_markdown_string(&headers, &rows, &options).unwrap();
    assert!(result.contains("| Name"));
    assert!(result.contains("| Alice"));
    assert!(result.contains("|---"));
}

#[test]
fn test_generate_json_object() {
    let (headers, rows) = create_test_data();
    let options = ExportOptions {
        format: ExportFormat::JsonObject,
        include_headers: true,
        pretty_print: true,
    };

    let result = Exporter::generate_json_object_string(&headers, &rows, &options).unwrap();
    assert!(result.contains("\"Name\""));
    assert!(result.contains("\"Alice\""));
}

#[test]
fn test_generate_json_array() {
    let (headers, rows) = create_test_data();
    let options = ExportOptions {
        format: ExportFormat::JsonArray,
        include_headers: true,
        pretty_print: false,
    };

    let result = Exporter::generate_json_array_string(&headers, &rows, &options).unwrap();
    assert!(result.contains("Name"));
    assert!(result.contains("Alice"));
}

#[test]
fn test_generate_tsv() {
    let (headers, rows) = create_test_data();
    let options = ExportOptions {
        format: ExportFormat::Tsv,
        include_headers: true,
        pretty_print: false,
    };

    let result = Exporter::generate_tsv_string(&headers, &rows, &options).unwrap();
    assert!(result.contains("Name\tAge\tCity"));
    assert!(result.contains("Alice\t30\tNYC"));
}

#[test]
fn markdown_is_exact() {
    let (headers, rows) = create_test_data();
    assert_eq!(
        Exporter::generate_markdown_string(&headers, &rows, &options(ExportFormat::Markdown, true, false))
            .unwrap(),
        "| Name  | Age | City | \n|-------|-----|------|\n| Alice | 30  | NYC  | \n| Bob   | 25  | LA   | \n"
    );
    assert_eq!(
        Exporter::generate_markdown_string(&headers, &rows, &options(ExportFormat::Markdown, false, false))
            .unwrap(),
        "| Alice | 30  | NYC  | \n| Bob   | 25  | LA   | \n"
    );
    let rows = vec![strings(&["é", "b", "extra"]), strings(&[])];
    assert_eq!(
        Exporter::generate_markdown_string(
            &strings(&["a", ""]),
            &rows,
            &options(ExportFormat::Markdown, true, false)
        )
        .unwrap(),
        "| a  |   | \n|----|---|\n| é  | b | extra | \n| \n"
    );
    assert_eq!(Exporter::column_widths(&strings(&["a", ""]), &rows), vec![2, 1]);
}

#[test]
fn csv_quotes_what_needs_it() {
    let headers = strings(&["a,b", "c"]);
    let rows = vec![strings(&["x", "y,z"]), strings(&["say \"hi\"", "two\nlines"]), strings(&[])];
    assert_eq!(
        Exporter::generate_csv_string(&headers, &rows, &options(ExportFormat::Csv, true, false)).unwrap(),
        "a,b,c\nx,\"y,z\"\n\"say \"\"hi\"\"\",\"two\nlines\"\n\n"
    );
    assert_eq!(
        Exporter::generate_csv_string(&headers, &rows[..1].to_vec(), &options(ExportFormat::Csv, false, false))
            .unwrap(),
        "x,\"y,z\"\n"
    );
    assert_eq!(Exporter::escape_csv("plain\ttext"), "plain\ttext");
    assert_eq!(Exporter::escape_csv("\""), "\"\"\"\"");
}

#[test]
fn tsv_is_exact() {
    let (headers, rows) = create_test_data();
    assert_eq!(
        Exporter::generate_tsv_string(&headers, &rows, &options(ExportFormat::Tsv, true, false)).unwrap(),
        "Name\tAge\tCity\nAlice\t30\tNYC\nBob\t25\tLA\n"
    );
    assert_eq!(
        Exporter::generate_tsv_string(&headers, &Vec::new(), &options(ExportFormat::Tsv, false, false))
            .unwrap(),
        ""
    );
}

#[test]
fn json_is_exact() {
    let (headers, rows) = create_test_data();
    assert_eq!(
        Exporter::generate_json_array_string(&headers, &rows, &options(ExportFormat::JsonArray, true, false))
            .unwrap(),
        "[[\"Name\",\"Age\",\"City\"],[\"Alice\",\"30\",\"NYC\"],[\"Bob\",\"25\",\"LA\"]]"
    );
    assert_eq!(
        Exporter::generate_json_array_string(&headers, &rows, &options(ExportFormat::JsonArray, false, false))
            .unwrap(),
        "[[\"Alice\",\"30\",\"NYC\"],[\"Bob\",\"25\",\"LA\"]]"
    );
    assert_eq!(
        Exporter::generate_json_array_string(
            &strings(&["a"]),
            &vec![strings(&["1"])],
            &options(ExportFormat::JsonArray, true, true)
        )
        .unwrap(),
        "[\n  [\n    \"a\"\n  ],\n  [\n    \"1\"\n  ]\n]"
    );
    assert_eq!(
        Exporter::generate_json_object_string(&headers, &rows, &options(ExportFormat::JsonObject, true, false))
            .unwrap(),
        "[{\"Age\":\"30\",\"City\":\"NYC\",\"Name\":\"Alice\"},{\"Age\":\"25\",\"City\":\"LA\",\"Name\":\"Bob\"}]"
    );
    assert_eq!(
        Exporter::generate_json_object_string(
            &strings(&["k", "k", "z"]),
            &vec![strings(&["first", "second"])],
            &options(ExportFormat::JsonObject, false, true)
        )
        .unwrap(),
        "[\n  {\n    \"k\": \"second\",\n    \"z\": \"\"\n  }\n]"
    );
}

#[test]
fn previews_show_the_first_rows() {
    let (headers, rows) = create_test_data();
    assert_eq!(
        Exporter::generate_preview(&headers, &rows, &options(ExportFormat::Csv, true, false), 1).unwrap(),
        "Name,Age,City\nAlice,30,NYC\n"
    );
    assert_eq!(
        Exporter::generate_preview(&headers, &rows, &options(ExportFormat::Tsv, false, false), 0).unwrap(),
        ""
    );
    assert_eq!(
        Exporter::generate_preview(&headers, &rows, &options(ExportFormat::JsonArray, false, false), 9)
            .unwrap(),
        "[[\"Alice\",\"30\",\"NYC\"],[\"Bob\",\"25\",\"LA\"]]"
    );
    assert_eq!(
        Exporter::generate(&headers, &rows, &options(ExportFormat::Markdown, false, false)).unwrap(),
        "| Alice | 30  | NYC  | \n| Bob   | 25  | LA   | \n"
    );
}
