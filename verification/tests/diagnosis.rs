use csv_light_editor::ai_script::diagnosis::{
    classify, diagnose, error_rules, find_line, ErrorKind, ErrorRule, LineTest,
};
use csv_light_editor::ai_script::executor::ScriptExecutor;

#[test]
fn indentation_error_is_classified_with_its_line() {
    let stderr = "  File \"script.py\", line 3\n    x = 1\nIndentationError: unexpected indent\n";
    let d = diagnose(stderr);
    assert_eq!(d.kind, ErrorKind::Indentation);
    assert_eq!(d.detail, Some("IndentationError: unexpected indent".to_string()));
    assert_eq!(
        d.message,
        "Python indentation error: The generated script has incorrect indentation. This is usually caused by the AI model generating code with inconsistent spacing. Please try regenerating the script.\n\nDetails: IndentationError: unexpected indent"
    );
}

#[test]
fn indentation_error_without_detail() {
    let d = diagnose("IndentationError: unindent does not match any outer indentation level");
    assert_eq!(d.kind, ErrorKind::Indentation);
    assert_eq!(d.detail, None);
    assert_eq!(
        d.message,
        "Python indentation error: The generated script has incorrect indentation. Please try regenerating the script."
    );
}

#[test]
fn syntax_error() {
    let d = diagnose("  File \"s.py\", line 1\n    x = = 1\n        ^\nSyntaxError: invalid syntax\n");
    assert_eq!(d.kind, ErrorKind::Syntax);
    assert_eq!(
        d.message,
        "Python syntax error: The generated script contains invalid syntax.\n\nDetails: SyntaxError: invalid syntax"
    );
    assert_eq!(
        diagnose("SyntaxError: unterminated string literal").message,
        "Python syntax error: The generated script contains invalid syntax. Please try regenerating the script."
    );
}

#[test]
fn name_error_prefers_the_line_that_names_the_error() {
    let d = diagnose("Traceback:\n  x is not defined here\n  NameError: name 'x' is not defined\n");
    assert_eq!(d.kind, ErrorKind::Name);
    assert_eq!(d.detail, Some("NameError: name 'x' is not defined".to_string()));
    assert_eq!(
        d.message,
        "Python name error: A variable or function is used but not defined. This usually means the generated script is missing variable definitions or has incorrect variable names.\n\nDetails: NameError: name 'x' is not defined"
    );
    let plain = diagnose("NameError occurred");
    assert_eq!(
        plain.message,
        "Python name error: A variable or function is used but not defined. Please try regenerating the script."
    );
    let other = diagnose("y is not defined\nNameError");
    assert_eq!(other.kind, ErrorKind::Name);
    assert_eq!(other.detail, Some("y is not defined".to_string()));
}

#[test]
fn type_and_attribute_errors() {
    let t = diagnose("TypeError: unsupported operand type(s) for +: 'int' and 'str'");
    assert_eq!(t.kind, ErrorKind::Type);
    assert_eq!(
        t.message,
        "Python type error: An operation is performed on incompatible types.\n\nDetails: TypeError: unsupported operand type(s) for +: 'int' and 'str'"
    );
    assert_eq!(
        diagnose("TypeError: 'NoneType' object is not iterable").message,
        "Python type error: An operation is performed on incompatible types. Please try regenerating the script."
    );
    let a = diagnose("  AttributeError: 'list' object has no attribute 'foo'  ");
    assert_eq!(a.kind, ErrorKind::Attribute);
    assert_eq!(
        a.message,
        "Python attribute error: An object doesn't have the expected attribute.\n\nDetails: AttributeError: 'list' object has no attribute 'foo'"
    );
    assert_eq!(
        diagnose("AttributeError").message,
        "Python attribute error: An object doesn't have the expected attribute. Please try regenerating the script."
    );
}

#[test]
fn value_error_and_its_date_case() {
    let date = diagnose(
        "Traceback (most recent call last):\nValueError: time data '2024/01/02' does not match format '%Y-%m-%d'\n",
    );
    assert_eq!(date.kind, ErrorKind::Value);
    assert_eq!(
        date.message,
        "Data format error: The script expected a different date/time format than what's in your CSV data. The generated script may need to be adjusted to match your actual data format.\n\nDetails: ValueError: time data '2024/01/02' does not match format '%Y-%m-%d'"
    );
    let indented = diagnose("    raise ValueError(x)\nValueError: bad value\n");
    assert_eq!(
        indented.message,
        "Data value error: The script encountered invalid data values.\n\nDetails: ValueError: bad value"
    );
    let only_indented = diagnose("    raise ValueError(x)\n");
    assert_eq!(
        only_indented.message,
        "Data value error: The script encountered invalid data values.\n\nDetails: raise ValueError(x)"
    );
}

#[test]
fn key_and_index_errors() {
    let k = diagnose("  x = row['age']\nKeyError: 'age'\n");
    assert_eq!(k.kind, ErrorKind::Key);
    assert_eq!(
        k.message,
        "Data key error: The script tried to access a column or key that doesn't exist in your data.\n\nDetails: KeyError: 'age'"
    );
    let i = diagnose("IndexError: list index out of range");
    assert_eq!(i.kind, ErrorKind::Index);
    assert_eq!(
        i.message,
        "Data index error: The script tried to access a row or column index that doesn't exist.\n\nDetails: IndexError: list index out of range"
    );
}

#[test]
fn rules_are_tried_in_the_order_of_the_table() {
    let d = diagnose("KeyError: 'a'\nIndentationError: unexpected indent\n");
    assert_eq!(d.kind, ErrorKind::Indentation);
    assert_eq!(d.detail, Some("IndentationError: unexpected indent".to_string()));
    let both = diagnose("TypeError raised while handling SyntaxError");
    assert_eq!(both.kind, ErrorKind::Syntax);
    let later = diagnose("IndexError: list index out of range\n\nValueError: bad\nKeyError: 'k'");
    assert_eq!(later.kind, ErrorKind::Value);
    assert_eq!(
        later.message,
        "Data value error: The script encountered invalid data values.\n\nDetails: ValueError: bad"
    );
}

#[test]
fn an_indentation_error_comes_before_a_type_error_on_an_earlier_line() {
    let stderr = "TypeError: unsupported operand type(s)\nIndentationError: unexpected indent";
    let d = diagnose(stderr);
    assert_eq!(d.kind, ErrorKind::Indentation);
    assert_eq!(
        ScriptExecutor::parse_python_error(stderr),
        "Python indentation error: The generated script has incorrect indentation. This is usually caused by the AI model generating code with inconsistent spacing. Please try regenerating the script.\n\nDetails: IndentationError: unexpected indent"
    );
}

#[test]
fn the_summary_passes_over_blank_lines() {
    let message = ScriptExecutor::parse_python_error("\n\n\n\n\nboom");
    assert_eq!(message, "Script execution failed:\n\nboom");
    assert_eq!(
        diagnose("a\n\nb\n \nc\n\t\nd\n\ne\nf\ng").message,
        "Script execution failed:\n\na\nb\nc\nd\ne"
    );
}

#[test]
fn unclassified_output_is_summarised() {
    let d = diagnose("  boom  \n\n second \n3\n4\n5\n6\n7\n");
    assert_eq!(d.kind, ErrorKind::Unclassified);
    assert_eq!(d.detail, None);
    assert_eq!(d.message, "Script execution failed:\n\nboom\nsecond\n3\n4\n5");
    assert_eq!(
        diagnose("").message,
        "Script execution failed. Please check the generated script for errors."
    );
    assert_eq!(diagnose(" \n\t\n\n\n\nsixth").message, "Script execution failed:\n\nsixth");
    assert_eq!(
        diagnose(" \n\t\n\n\n\n  ").message,
        "Script execution failed. Please check the generated script for errors."
    );
}

#[test]
fn parse_python_error_gives_the_message() {
    let stderr = "Traceback\nZeroDivisionError: division by zero";
    assert_eq!(ScriptExecutor::parse_python_error(stderr), diagnose(stderr).message);
    assert_eq!(
        ScriptExecutor::parse_python_error(stderr),
        "Script execution failed:\n\nTraceback\nZeroDivisionError: division by zero"
    );
}

#[test]
fn the_table_can_be_extended() {
    let mut rules = error_rules();
    assert_eq!(rules.len(), 8);
    rules.insert(
        0,
        ErrorRule {
            marker: "ZeroDivisionError",
            kind: ErrorKind::Value,
            special: None,
            special_prefix: "",
            detail: LineTest::StartsWith("ZeroDivisionError"),
            preferred: None,
            detail_prefix: "Division by zero: ",
            plain_message: "Division by zero",
        },
    );
    let d = classify(&rules, "x\n  ZeroDivisionError: division by zero");
    assert_eq!(d.message, "Division by zero");
    let d = classify(&rules, "x\nZeroDivisionError: division by zero\nValueError");
    assert_eq!(d.message, "Division by zero: ZeroDivisionError: division by zero");
}

#[test]
fn line_tests() {
    let lines: Vec<Vec<char>> =
        ["alpha", "beta gamma", "gamma"].iter().map(|l| l.chars().collect()).collect();
    assert_eq!(find_line(&lines, &LineTest::Contains("gamma")), Some(1));
    assert_eq!(find_line(&lines, &LineTest::StartsWith("gamma")), Some(2));
    assert_eq!(find_line(&lines, &LineTest::ContainsEither("zzz", "beta")), Some(1));
    assert_eq!(find_line(&lines, &LineTest::ContainsBoth("a", "m")), Some(1));
    assert_eq!(find_line(&lines, &LineTest::Contains("delta")), None);
}
