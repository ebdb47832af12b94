use starship::text::{
    char_is_whitespace, chars_after, chars_before, chars_of, decimal_string, same_text,
    skip_leading, trim, trim_bounds,
};

fn chars(text: &str) -> Vec<char> {
    text.chars().collect()
}

#[test]
fn chars_of_a_string() {
    assert_eq!(chars_of(""), Vec::<char>::new());
    assert_eq!(chars_of("a🐍é"), vec!['a', '🐍', 'é']);
}

#[test]
fn same_text_compares_contents() {
    assert!(same_text("zsh", "zsh"));
    assert!(same_text("", ""));
    assert!(!same_text("zsh", "zsh "));
    assert!(!same_text("zsh", "Zsh"));
}

#[test]
fn whitespace_is_what_the_standard_library_calls_so() {
    for code in 0..0x11_0000u32 {
        if let Some(c) = char::from_u32(code) {
            assert_eq!(char_is_whitespace(c), c.is_whitespace(), "U+{:04X}", code);
        }
    }
}

#[test]
fn trim_takes_whitespace_from_both_ends() {
    assert_eq!(trim("  a b "), "a b");
    assert_eq!(trim("3.7.4\n"), "3.7.4");
    assert_eq!(trim("\t\r\n x\u{3000}"), "x");
    assert_eq!(trim("x"), "x");
    assert_eq!(trim(""), "");
    assert_eq!(trim(" \n "), "");
    assert_eq!(trim(" é "), "é");
}

#[test]
fn trim_agrees_with_the_standard_library() {
    for text in ["", " ", "a", " a", "a ", " a b ", "\u{2003}x\u{85}", "\u{200b}x "] {
        assert_eq!(trim(text), text.trim(), "{:?}", text);
    }
}

#[test]
fn trim_bounds_of_a_tail() {
    assert_eq!(trim_bounds(&chars("ab  cd  "), 2), (4, 6));
    assert_eq!(trim_bounds(&chars("ab  "), 2), (4, 4));
    assert_eq!(trim_bounds(&chars("abc"), 3), (3, 3));
    assert_eq!(trim_bounds(&chars(" a "), 0), (1, 2));
}

#[test]
fn skip_leading_skips_every_leading_copy() {
    assert_eq!(skip_leading(&chars("Python 3.7"), &chars("Python ")), 7);
    assert_eq!(skip_leading(&chars("ababab"), &chars("ab")), 6);
    assert_eq!(skip_leading(&chars("ababa"), &chars("ab")), 4);
    assert_eq!(skip_leading(&chars("xab"), &chars("ab")), 0);
    assert_eq!(skip_leading(&chars("a"), &chars("ab")), 0);
    assert_eq!(skip_leading(&chars(""), &chars("ab")), 0);
}

#[test]
fn skip_leading_agrees_with_the_standard_library() {
    for (text, pattern) in [("Python Python 3", "Python "), ("aaa", "a"), ("aab", "aa"), ("b", "a")] {
        let at = skip_leading(&chars(text), &chars(pattern));
        let rest: String = text.chars().skip(at).collect();
        assert_eq!(rest, text.trim_start_matches(pattern));
    }
}

#[test]
fn counting_around_a_mark() {
    assert_eq!(chars_before(&chars("python --version"), ' '), 6);
    assert_eq!(chars_before(&chars("a b c"), ' '), 1);
    assert_eq!(chars_before(&chars("abc"), ' '), 3);
    assert_eq!(chars_before(&chars(""), ' '), 0);
    assert_eq!(chars_after(&chars("a.tar.gz"), '.'), 2);
    assert_eq!(chars_after(&chars("abc"), '.'), 3);
    assert_eq!(chars_after(&chars("abc."), '.'), 0);
    assert_eq!(chars_after(&chars(""), '.'), 0);
}

#[test]
fn decimal_digits() {
    assert_eq!(decimal_string(0), "0");
    assert_eq!(decimal_string(7), "7");
    assert_eq!(decimal_string(10), "10");
    assert_eq!(decimal_string(100), "100");
    assert_eq!(decimal_string(1234567890), "1234567890");
    assert_eq!(decimal_string(u128::MAX), u128::MAX.to_string());
}
