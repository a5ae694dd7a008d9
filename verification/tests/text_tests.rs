use java_bindgen_macro::text::{
    chars_of, contains_chars, push_decimal, remove_all_chars, remove_char_chars, split_chars,
    string_of, trim_chars, to_ascii_upper,
};

fn s(v: &[char]) -> String {
    string_of(v)
}

#[test]
fn split_like_str_split() {
    for text in ["a,b", "", ",", "a,,b,", "no separator"] {
        let pieces: Vec<String> = split_chars(&chars_of(text), ',').iter().map(|p| s(p)).collect();
        let expected: Vec<String> = text.split(',').map(|p| p.to_string()).collect();
        assert_eq!(pieces, expected);
    }
}

#[test]
fn trim_like_str_trim() {
    for text in ["  a b  ", "\t\n x \r", "\u{2003}y\u{3000}", "", "   ", "\u{85}z\u{200b}"] {
        assert_eq!(s(&trim_chars(&chars_of(text))), text.trim());
    }
}

#[test]
fn trim_is_idempotent() {
    let once = trim_chars(&chars_of(" \u{a0} k \t"));
    assert_eq!(trim_chars(&once), once);
}

#[test]
fn remove_char_like_replace() {
    assert_eq!(s(&remove_char_chars(&chars_of("& mut JNIEnv < 'a >"), ' ')), "&mutJNIEnv<'a>");
    assert_eq!(s(&remove_char_chars(&chars_of("\"q\""), '"')), "q");
}

#[test]
fn remove_all_like_replace() {
    for text in ["&mutJNIEnv", "&mut&mutX", "&&mutt", "&mu", ""] {
        assert_eq!(s(&remove_all_chars(&chars_of(text), &chars_of("&mut"))), text.replace("&mut", ""));
    }
}

#[test]
fn contains_like_str_contains() {
    for (text, pat) in [("JNIEnv<'a>", "JNIEnv"), ("JNIEn", "JNIEnv"), ("", ""), ("abc", ""), ("xJClass", "JClass")] {
        assert_eq!(contains_chars(&chars_of(text), &chars_of(pat)), text.contains(pat));
    }
}

#[test]
fn decimal_digits() {
    for n in [0usize, 7, 10, 99, 1234567, usize::MAX] {
        let mut v = Vec::new();
        push_decimal(&mut v, n);
        assert_eq!(s(&v), n.to_string());
    }
}

#[test]
fn ascii_upper_case() {
    assert_eq!(to_ascii_upper('a'), 'A');
    assert_eq!(to_ascii_upper('z'), 'Z');
    assert_eq!(to_ascii_upper('_'), '_');
    assert_eq!(to_ascii_upper('Q'), 'Q');
}
