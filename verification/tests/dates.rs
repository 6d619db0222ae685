use csv_light_editor::dates::reformat;

#[test]
fn dates_are_read_and_written_by_format() {
    assert_eq!(reformat("2024-02-29", "%Y-%m-%d", "%d/%m/%Y"), Some("29/02/2024".to_string()));
    assert_eq!(reformat("5.1.2024", "%d.%m.%Y", "%Y-%m-%d"), Some("2024-01-05".to_string()));
    assert_eq!(reformat("2023-02-29", "%Y-%m-%d", "%d/%m/%Y"), None);
    assert_eq!(reformat("2024-02-29", "%d/%m/%Y", "%Y-%m-%d"), None);
    assert_eq!(reformat("2024-02-29", "%Y-%m-%d", "%Q"), None);
    assert_eq!(reformat("2024-02-29", "%Y-%m-%d", "day %j of %Y"), Some("day 060 of 2024".to_string()));
}
