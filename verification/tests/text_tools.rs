use resume_model::text::{
    chars_equal, chars_string, contains_char, find_char, join_chars, push_decimal,
    push_signed_decimal, push_two_digit_decimal, split_chars, str_equal, string_chars,
    trim_chars,
};

fn chars(text: &str) -> Vec<char> {
    text.chars().collect()
}

#[test]
fn strings_and_characters() {
    assert_eq!(string_chars("aé•"), vec!['a', 'é', '•']);
    assert_eq!(chars_string(&chars("aé•")), "aé•");
    assert!(str_equal("é", "é"));
    assert!(!str_equal("a", "ab"));
    assert!(chars_equal(&chars(""), &chars("")));
    assert!(!chars_equal(&chars("ab"), &chars("ac")));
    assert!(contains_char(&chars("a.b"), '.'));
    assert_eq!(find_char(&chars("a.b.c"), '.'), Some(1));
    assert_eq!(find_char(&chars("abc"), '.'), None);
}

#[test]
fn trimming_takes_unicode_whitespace() {
    assert_eq!(trim_chars(&chars(" \t a b \r\n")), chars("a b"));
    assert_eq!(trim_chars(&chars("\u{a0}x\u{2003}")), chars("x"));
    assert_eq!(trim_chars(&chars("   ")), chars(""));
    assert_eq!(trim_chars(&chars("")), chars(""));
}

#[test]
fn splitting_and_joining() {
    assert_eq!(
        split_chars(&chars("a,b,,c"), ','),
        vec![chars("a"), chars("b"), chars(""), chars("c")]
    );
    assert_eq!(split_chars(&chars(""), ','), vec![chars("")]);
    assert_eq!(split_chars(&chars(","), ','), vec![chars(""), chars("")]);
    assert_eq!(join_chars(&vec![chars("a"), chars(""), chars("c")], &chars(", ")), chars("a, , c"));
    assert_eq!(join_chars(&vec![], &chars(", ")), chars(""));
    assert_eq!(join_chars(&vec![chars("a")], &chars(", ")), chars("a"));
    let text = chars("x\ny\n\nz");
    assert_eq!(join_chars(&split_chars(&text, '\n'), &chars("\n")), text);
}

#[test]
fn decimal_numerals() {
    let write = |n: u64| {
        let mut out = chars("n=");
        push_decimal(&mut out, n);
        chars_string(&out)
    };
    assert_eq!(write(0), "n=0");
    assert_eq!(write(7), "n=7");
    assert_eq!(write(10), "n=10");
    assert_eq!(write(4294967295), "n=4294967295");
    assert_eq!(write(u64::MAX), "n=18446744073709551615");
    let signed = |n: i32| {
        let mut out = Vec::new();
        push_signed_decimal(&mut out, n);
        chars_string(&out)
    };
    assert_eq!(signed(0), "0");
    assert_eq!(signed(-1), "-1");
    assert_eq!(signed(i32::MIN), "-2147483648");
    assert_eq!(signed(i32::MAX), "2147483647");
    let padded = |n: u64| {
        let mut out = Vec::new();
        push_two_digit_decimal(&mut out, n);
        chars_string(&out)
    };
    assert_eq!(padded(0), "00");
    assert_eq!(padded(9), "09");
    assert_eq!(padded(10), "10");
    assert_eq!(padded(123), "123");
}
