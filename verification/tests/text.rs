use oscamp::text::{
    decimal_chars, push_decimal, push_decimal_right, push_left_aligned, push_repeated, rprint,
    rprintln, split_lines, str_eq, to_chars,
};

fn raw(s: &str) -> String {
    let mut out = String::new();
    rprint(&mut out, s);
    out
}

#[test]
fn chars_of_a_string_come_in_order() {
    assert_eq!(to_chars("a█c"), vec!['a', '█', 'c']);
    assert_eq!(to_chars(""), Vec::<char>::new());
}

#[test]
fn strings_compare_by_their_characters() {
    assert!(str_eq("green_threads", "green_threads"));
    assert!(!str_eq("green_threads", "green_thread"));
    assert!(!str_eq("abc", "abd"));
    assert!(str_eq("", ""));
}

#[test]
fn decimal_digits_of_numbers() {
    assert_eq!(decimal_chars(0), vec!['0']);
    assert_eq!(decimal_chars(7), vec!['7']);
    assert_eq!(decimal_chars(10), vec!['1', '0']);
    assert_eq!(decimal_chars(1234567890), "1234567890".chars().collect::<Vec<char>>());
    let mut s = String::from("n=");
    push_decimal(&mut s, usize::MAX);
    assert_eq!(s, format!("n={}", usize::MAX));
}

#[test]
fn numbers_are_right_aligned() {
    let mut s = String::new();
    push_decimal_right(&mut s, 3, 2);
    s.push('|');
    push_decimal_right(&mut s, 42, 2);
    s.push('|');
    push_decimal_right(&mut s, 123, 2);
    assert_eq!(s, " 3|42|123");
}

#[test]
fn names_are_left_aligned_by_characters() {
    let mut s = String::new();
    push_left_aligned(&mut s, "ab", 5);
    s.push('|');
    push_left_aligned(&mut s, "abcdef", 5);
    s.push('|');
    push_left_aligned(&mut s, "页表", 4);
    s.push('|');
    assert_eq!(s, "ab   |abcdef|页表  |");
}

#[test]
fn repeated_characters() {
    let mut s = String::from("[");
    push_repeated(&mut s, '█', 3);
    push_repeated(&mut s, '░', 0);
    push_repeated(&mut s, '.', 2);
    assert_eq!(s, "[███..");
}

#[test]
fn raw_text_ends_every_line_with_cr_lf() {
    assert_eq!(raw("a\nb"), "a\r\nb");
    assert_eq!(raw("a\r\nb"), "a\r\nb");
    assert_eq!(raw("\n\n"), "\r\n\r\n");
    assert_eq!(raw("a\rb"), "a\rb");
    assert_eq!(raw("a\r\r\nb"), "a\r\r\nb");
    assert_eq!(raw("tail\r"), "tail\r");
    assert_eq!(raw(""), "");
}

#[test]
fn raw_text_is_what_two_replacements_give() {
    for s in ["x\r\ny\nz", "\r\n\r\n", "\n\r\n\r", "\r\r\n\n", "plain", "\r", "a\n\rb"] {
        assert_eq!(raw(s), s.replace("\r\n", "\n").replace('\n', "\r\n"), "for {s:?}");
    }
}

#[test]
fn raw_text_of_raw_text_is_the_same() {
    for s in ["x\r\ny\nz", "\n\r\n\r", "\r\r\n\n", "a\rb\n"] {
        let once = raw(s);
        assert_eq!(raw(&once), once);
    }
}

#[test]
fn raw_text_holds_no_bare_line_feed() {
    let out: Vec<char> = raw("one\ntwo\r\nthree\n\nfour\r").chars().collect();
    for (i, c) in out.iter().enumerate() {
        if *c == '\n' {
            assert!(i > 0 && out[i - 1] == '\r');
        }
    }
}

#[test]
fn a_raw_line_ends_in_cr_lf() {
    let mut out = String::from(">");
    rprintln(&mut out, "a\nb");
    rprintln(&mut out, "");
    assert_eq!(out, ">a\r\nb\r\n\r\n");
}

#[test]
fn lines_are_split_as_the_standard_library_splits_them() {
    for s in [
        "",
        "one",
        "one\n",
        "one\ntwo",
        "one\r\ntwo\r\n",
        "\n",
        "\n\n",
        "a\n\nb",
        "a\rb\n",
        "a\r",
        "a\r\r\n",
        "\r\n",
        "x\n\r",
    ] {
        let expected: Vec<String> = s.lines().map(String::from).collect();
        assert_eq!(split_lines(s), expected, "for {s:?}");
    }
}

#[test]
fn lines_keep_their_order_and_lose_their_endings() {
    assert_eq!(split_lines("first\r\nsecond\nthird"), vec!["first", "second", "third"]);
    assert_eq!(split_lines("only\n"), vec!["only"]);
    assert_eq!(split_lines("\n"), vec![""]);
}
