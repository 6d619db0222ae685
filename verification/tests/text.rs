use csv_light_editor::text::{
    chars_contain, chars_eq, chars_start_with, join_chars, parse_usize, split_lines, str_contains,
    str_eq, str_is_blank, string_of, to_chars, trim, trim_bounds, usize_to_string,
};

fn chars(s: &str) -> Vec<char> {
    s.chars().collect()
}

#[test]
fn lines_agree_with_std() {
    for s in ["", "a", "a\n", "a\r\nb", "a\r", "\n", "a\n\nb\r\n", "\r\n", "x\ry\n", "\n\n", "é\r\n\r"]
    {
        let mine: Vec<String> = split_lines(s).iter().map(|l| l.iter().collect()).collect();
        let std: Vec<String> = s.lines().map(|l| l.to_string()).collect();
        assert_eq!(mine, std, "lines of {:?}", s);
    }
}

#[test]
fn lines_exact() {
    let lines: Vec<String> =
        split_lines("one\r\ntwo\n\nlast\r").iter().map(|l| l.iter().collect()).collect();
    assert_eq!(lines, vec!["one", "two", "", "last\r"]);
}

#[test]
fn trim_agrees_with_std() {
    for s in ["", " ", "  a b \t\n", "a", "\u{a0}x\u{2003}", " \u{85}", "x  ", "\u{200b}x"] {
        assert_eq!(trim(s), s.trim(), "trim of {:?}", s);
        assert_eq!(str_is_blank(s), s.trim().is_empty());
    }
    assert_eq!(trim_bounds(&chars("  ab ")), (2, 4));
    assert_eq!(trim_bounds(&chars("   ")), (3, 3));
}

#[test]
fn search_agrees_with_std() {
    let hays = ["", "a", "abcabd", "NameError: x", "aaa", "éàé"];
    let needles = ["", "a", "abd", "bc", "Error", "aaaa", "àé", "d"];
    for h in hays {
        for n in needles {
            assert_eq!(str_contains(h, n), h.contains(n), "{:?} in {:?}", n, h);
            assert_eq!(chars_contain(&chars(h), &chars(n)), h.contains(n));
            assert_eq!(chars_start_with(&chars(h), &chars(n)), h.starts_with(n));
            assert_eq!(str_eq(h, n), h == n);
            assert_eq!(chars_eq(&chars(h), &chars(n)), h == n);
        }
    }
}

#[test]
fn conversions_keep_the_characters() {
    assert_eq!(to_chars("aé\n"), vec!['a', 'é', '\n']);
    assert_eq!(string_of(&chars("aé\n")), "aé\n");
    assert_eq!(join_chars(&[chars("a"), chars(""), chars("bc")].to_vec(), ", "), "a, , bc");
    assert_eq!(join_chars(&Vec::new(), ", "), "");
    assert_eq!(join_chars(&vec![chars("x")], ", "), "x");
}

#[test]
fn decimal_text_is_exact() {
    assert_eq!(usize_to_string(0), "0");
    assert_eq!(usize_to_string(7), "7");
    assert_eq!(usize_to_string(10), "10");
    assert_eq!(usize_to_string(1234567890), "1234567890");
    assert_eq!(usize_to_string(usize::MAX), usize::MAX.to_string());
}

#[test]
fn parse_usize_agrees_with_std() {
    let max = usize::MAX.to_string();
    let over = format!("{}0", max);
    let plus_max = format!("+{}", max);
    for s in [
        "0", "7", "+7", "007", "", "+", "-0", "-1", " 1", "1 ", "1a", "++1", "1_000",
        max.as_str(), over.as_str(), plus_max.as_str(), "18446744073709551616", "٣",
    ] {
        assert_eq!(parse_usize(s), s.parse::<usize>().ok(), "parse of {:?}", s);
    }
    assert_eq!(parse_usize("42"), Some(42));
}

#[test]
fn whitespace_is_the_white_space_property() {
    let white = [
        0x09u32, 0x0A, 0x0B, 0x0C, 0x0D, 0x20, 0x85, 0xA0, 0x1680, 0x2000, 0x2001, 0x2002, 0x2003,
        0x2004, 0x2005, 0x2006, 0x2007, 0x2008, 0x2009, 0x200A, 0x2028, 0x2029, 0x202F, 0x205F,
        0x3000,
    ];
    for n in white {
        let c = char::from_u32(n).unwrap();
        assert!(str_is_blank(&c.to_string()), "U+{:04X}", n);
        assert_eq!(trim(&format!("{}a{}", c, c)), "a", "U+{:04X}", n);
    }
    for n in [0x08u32, 0x0E, 0x1C, 0x1F, 0x21, 0x84, 0x86, 0x9F, 0xA1, 0x180E, 0x1FFF, 0x200B, 0x2027, 0x202A, 0x2060, 0x2FFF, 0x3001, 0xFEFF] {
        let c = char::from_u32(n).unwrap();
        assert!(!str_is_blank(&c.to_string()), "U+{:04X}", n);
    }
    // Every character agrees with the standard library.
    for n in 0u32..0x11_0000 {
        if let Some(c) = char::from_u32(n) {
            assert_eq!(white.contains(&n), c.is_whitespace(), "U+{:04X}", n);
        }
    }
}
