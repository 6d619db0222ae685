use csv_light_editor::csv_engine::editing::CsvTable;
use csv_light_editor::csv_engine::search::{
    context_for, find_in_csv, replace_in_csv, FindOptions, ReplaceOptions, ReplacePreview,
    SearchError,
};

fn strings(items: &[&str]) -> Vec<String> {
    items.iter().map(|s| s.to_string()).collect()
}

fn sample() -> CsvTable {
    CsvTable {
        headers: strings(&["name", "note"]),
        rows: vec![
            strings(&["Ann Lee", "likes  tea"]),
            strings(&["ann", "TEA time"]),
            strings(&["Bob"]),
            strings(&["teapot", "steam", "tea"]),
        ],
    }
}

fn find(text: &str) -> FindOptions {
    FindOptions {
        search_text: text.to_string(),
        case_sensitive: false,
        whole_word: false,
        regex: false,
        column_index: None,
    }
}

fn places(options: &FindOptions) -> Vec<(usize, usize)> {
    find_in_csv(&sample(), options)
        .unwrap()
        .iter()
        .map(|r| (r.row_index, r.column_index))
        .collect()
}

#[test]
fn any_occurrence_is_found() {
    assert_eq!(places(&find("tea")), vec![(0, 1), (1, 1), (3, 0), (3, 1), (3, 2)]);
    let mut exact = find("tea");
    exact.case_sensitive = true;
    assert_eq!(places(&exact), vec![(0, 1), (3, 0), (3, 1), (3, 2)]);
    exact.column_index = Some(1);
    assert_eq!(places(&exact), vec![(0, 1), (3, 1)]);
    exact.column_index = Some(7);
    assert_eq!(places(&exact), vec![]);
    assert_eq!(places(&find("")).len(), 8);
}

#[test]
fn whole_words_are_found() {
    let mut words = find("Tea");
    words.whole_word = true;
    assert_eq!(places(&words), vec![(0, 1), (1, 1), (3, 2)]);
    words.case_sensitive = true;
    assert_eq!(places(&words), vec![]);
    words.search_text = "TEA".to_string();
    assert_eq!(places(&words), vec![(1, 1)]);
}

#[test]
fn regular_expressions_are_found() {
    let mut re = find("^[Aa]nn\\b");
    re.regex = true;
    assert_eq!(places(&re), vec![(0, 0), (1, 0)]);
    re.search_text = "(".to_string();
    assert_eq!(find_in_csv(&sample(), &re).unwrap_err(), SearchError::InvalidRegex);
    let e = SearchError::InvalidRegex.to_app_error();
    assert_eq!((e.message.as_str(), e.code.as_str()), ("Invalid regex pattern", "INVALID_REGEX"));
}

#[test]
fn results_carry_value_and_context() {
    let results = find_in_csv(&sample(), &find("pot")).unwrap();
    assert_eq!(results.len(), 1);
    assert_eq!(results[0].value, "teapot");
    assert_eq!(results[0].context, "teapot");
    let long = "x".repeat(150);
    assert_eq!(context_for(&long), format!("{}...", "x".repeat(100)));
    assert_eq!(context_for(&"x".repeat(100)), "x".repeat(100));
    let accents = "é".repeat(60);
    assert_eq!(context_for(&accents), format!("{}...", "é".repeat(50)));
    let shifted = format!("a{}", "é".repeat(60));
    assert_eq!(context_for(&shifted), format!("a{}...", "é".repeat(49)));
}

fn replace(options: FindOptions, with: &str, preview_only: bool) -> (usize, Vec<(usize, usize, String)>, Option<Vec<Vec<String>>>) {
    let result = replace_in_csv(
        sample(),
        &ReplaceOptions { find_options: options, replace_text: with.to_string(), preview_only },
    )
    .unwrap();
    (
        result.replaced_count,
        result.preview.iter().map(|p| (p.row_index, p.column_index, p.new_value.clone())).collect(),
        result.data.map(|d| d.rows),
    )
}

#[test]
fn text_is_replaced_with_regard_to_case() {
    let mut exact = find("tea");
    exact.case_sensitive = true;
    let (count, preview, data) = replace(exact, "coffee", false);
    assert_eq!(count, 4);
    assert_eq!(
        preview,
        vec![
            (0, 1, "likes  coffee".to_string()),
            (3, 0, "coffeepot".to_string()),
            (3, 1, "scoffeem".to_string()),
            (3, 2, "coffee".to_string()),
        ]
    );
    assert_eq!(
        data.unwrap(),
        vec![
            strings(&["Ann Lee", "likes  coffee"]),
            strings(&["ann", "TEA time"]),
            strings(&["Bob"]),
            strings(&["coffeepot", "scoffeem", "coffee"]),
        ]
    );
}

#[test]
fn text_is_replaced_without_regard_to_case() {
    let (count, preview, data) = replace(find("Tea"), "x", true);
    assert_eq!(count, 5);
    assert_eq!(
        preview,
        vec![
            (0, 1, "likes  tea".to_string()),
            (1, 1, "TEA time".to_string()),
            (3, 0, "teapot".to_string()),
            (3, 1, "steam".to_string()),
            (3, 2, "tea".to_string()),
        ]
    );
    assert_eq!(data, None);
}

#[test]
fn whole_words_are_replaced() {
    let mut words = find("tea");
    words.whole_word = true;
    let (count, preview, data) = replace(words, "Milk", false);
    assert_eq!(count, 3);
    assert_eq!(
        preview,
        vec![
            (0, 1, "likes Milk".to_string()),
            (1, 1, "Milk time".to_string()),
            (3, 2, "Milk".to_string()),
        ]
    );
    assert_eq!(data.unwrap()[0], strings(&["Ann Lee", "likes Milk"]));
    let mut other = find("zzz");
    other.whole_word = true;
    let (count, preview, _) = replace(other, "y", true);
    assert_eq!(count, 1);
    assert_eq!(preview, vec![(0, 1, "likes tea".to_string())]);
}

#[test]
fn regular_expressions_are_replaced() {
    let mut re = find("(\\w+) (\\w+)");
    re.regex = true;
    re.column_index = Some(0);
    let result = replace_in_csv(
        sample(),
        &ReplaceOptions { find_options: re, replace_text: "$2, $1".to_string(), preview_only: false },
    )
    .unwrap();
    assert_eq!(
        result.preview,
        vec![ReplacePreview {
            row_index: 0,
            column_index: 0,
            original_value: "Ann Lee".to_string(),
            new_value: "Lee, Ann".to_string(),
        }]
    );
    assert_eq!(result.data.unwrap().rows[0], strings(&["Lee, Ann", "likes  tea"]));
    let mut bad = find("[");
    bad.regex = true;
    assert_eq!(
        replace_in_csv(
            sample(),
            &ReplaceOptions { find_options: bad, replace_text: "".to_string(), preview_only: true }
        )
        .unwrap_err(),
        SearchError::InvalidRegex
    );
}
