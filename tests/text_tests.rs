use monori::text::{
    chars_of, count_chars, contains_chars, parse_i32, push_decimal, push_signed, split_lines,
    text_eq, trim_chars,
};

fn v(s: &str) -> Vec<char> {
    s.chars().collect()
}

#[test]
fn decimal_rendering() {
    let mut s = String::new();
    push_decimal(&mut s, 0);
    push_decimal(&mut s, 1234567890);
    assert_eq!(s, "01234567890");
    let mut s = String::new();
    push_decimal(&mut s, u64::MAX);
    assert_eq!(s, u64::MAX.to_string());
    let mut s = String::new();
    push_signed(&mut s, i32::MIN);
    assert_eq!(s, "-2147483648");
}

#[test]
fn integer_parsing_matches_std() {
    for t in ["0", "42", "+42", "-42", "", "-", "+", "4 2", "2147483647", "2147483648", "-2147483648", "-2147483649", "007", "99999999999999999999", "１"] {
        assert_eq!(parse_i32(&v(t)), t.parse::<i32>().ok(), "input {:?}", t);
    }
}

#[test]
fn trimming_matches_std() {
    for t in ["  a b  ", "\t\r\n", "", "\u{3000}값\u{a0}", "x"] {
        let got: String = trim_chars(&v(t)).into_iter().collect();
        assert_eq!(got, t.trim());
    }
}

#[test]
fn lines_and_search() {
    let lines = split_lines(&v("a\nbc\n\nd"));
    let got: Vec<String> = lines.into_iter().map(|l| l.into_iter().collect()).collect();
    assert_eq!(got, vec!["a", "bc", "", "d"]);
    assert_eq!(split_lines(&v("")).len(), 1);
    assert!(contains_chars(&v("abcabd"), &v("abd")));
    assert!(!contains_chars(&v("ab"), &v("abc")));
    assert!(contains_chars(&v("ab"), &v("")));
    assert_eq!(count_chars(&v("aaaa"), &v("aa")), 2);
    assert_eq!(count_chars(&v("abab"), &v("ba")), 1);
    assert_eq!(chars_of("한글"), vec!['한', '글']);
    assert!(text_eq("상태", "상태"));
    assert!(!text_eq("상태", "상"));
}
