use notion_clipper_cli::text::{characters, parse_index, same_text, trim, write_decimal};

#[test]
fn trim_removes_white_space_at_both_ends() {
    assert_eq!(trim("  2 \n"), "2");
    assert_eq!(trim("\t secret_token\r\n"), "secret_token");
    assert_eq!(trim("a b"), "a b");
    assert_eq!(trim("  a  b  "), "a  b");
}

#[test]
fn trim_of_nothing_but_white_space_is_empty() {
    assert_eq!(trim(""), "");
    assert_eq!(trim("   "), "");
    assert_eq!(trim("\n"), "");
}

#[test]
fn trim_knows_white_space_beyond_ascii() {
    assert_eq!(trim("\u{a0}x\u{3000}"), "x");
    assert_eq!(trim("\u{2003}é\u{2028}"), "é");
    assert_eq!(trim("\u{200b}x"), "\u{200b}x");
}

#[test]
fn trim_agrees_with_the_standard_library() {
    let samples = [
        "",
        " ",
        "x",
        " x",
        "x ",
        " x y ",
        "\t\n\r x \u{b}\u{c}",
        "\u{85}x\u{1680}",
        "é ",
        " 日本語 ",
        "_ _",
    ];
    for sample in samples {
        assert_eq!(trim(sample), sample.trim());
    }
}

#[test]
fn parse_index_reads_decimal_digits() {
    assert_eq!(parse_index("0"), Some(0));
    assert_eq!(parse_index("2"), Some(2));
    assert_eq!(parse_index("10"), Some(10));
    assert_eq!(parse_index("007"), Some(7));
    assert_eq!(parse_index("+7"), Some(7));
    assert_eq!(parse_index("123456"), Some(123456));
}

#[test]
fn parse_index_refuses_what_is_no_number() {
    assert_eq!(parse_index(""), None);
    assert_eq!(parse_index("+"), None);
    assert_eq!(parse_index("x"), None);
    assert_eq!(parse_index("-1"), None);
    assert_eq!(parse_index("-0"), None);
    assert_eq!(parse_index("1 2"), None);
    assert_eq!(parse_index(" 1"), None);
    assert_eq!(parse_index("1_000"), None);
    assert_eq!(parse_index("++1"), None);
    assert_eq!(parse_index("1+"), None);
    assert_eq!(parse_index("\u{ff11}"), None);
    assert_eq!(parse_index("1.0"), None);
}

#[test]
fn parse_index_refuses_numbers_too_large() {
    let largest = usize::MAX.to_string();
    assert_eq!(parse_index(&largest), Some(usize::MAX));
    let mut beyond = largest.clone();
    beyond.push('0');
    assert_eq!(parse_index(&beyond), None);
    assert_eq!(parse_index("340282366920938463463374607431768211456"), None);
}

#[test]
fn parse_index_agrees_with_the_standard_library() {
    let samples = [
        "", "0", "1", "+1", "-1", "+", "-", "12", "0012", "12a", "a12", " 12", "12 ", "+-1", "9",
        "99999999999999999999999999", "18446744073709551615", "18446744073709551616", "٣",
    ];
    for sample in samples {
        assert_eq!(parse_index(sample), sample.parse::<usize>().ok());
    }
}

#[test]
fn write_decimal_appends_the_digits() {
    let mut out = String::from("n=");
    write_decimal(&mut out, 0);
    assert_eq!(out, "n=0");
    write_decimal(&mut out, 7);
    write_decimal(&mut out, 10);
    write_decimal(&mut out, 404);
    assert_eq!(out, "n=0710404");
    let mut largest = String::new();
    write_decimal(&mut largest, usize::MAX);
    assert_eq!(largest, usize::MAX.to_string());
}

#[test]
fn written_index_reads_back() {
    for n in [0usize, 1, 9, 10, 11, 99, 100, 12345, usize::MAX] {
        let mut text = String::new();
        write_decimal(&mut text, n);
        assert_eq!(parse_index(&text), Some(n));
    }
}

#[test]
fn same_text_compares_characters() {
    assert!(same_text("", ""));
    assert!(same_text("title", "title"));
    assert!(!same_text("title", "Title"));
    assert!(!same_text("title", "titles"));
    assert!(!same_text("titles", "title"));
    assert!(same_text("日本語", "日本語"));
    assert!(!same_text("日本語", "日本誤"));
}

#[test]
fn characters_are_taken_in_order() {
    assert_eq!(characters(""), Vec::<char>::new());
    assert_eq!(characters("a1 "), vec!['a', '1', ' ']);
    assert_eq!(characters("é日🍪"), vec!['é', '日', '🍪']);
}
