use gemini::width::{c_len, c_utf8_len, is_chinese_char, is_chinese_punctuation, s_length};

#[test]
fn c_len_ascii_is_one() {
    assert_eq!(c_len('a'), 1);
    assert_eq!(c_len('Z'), 1);
    assert_eq!(c_len(' '), 1);
}

#[test]
fn c_len_wide_is_two() {
    assert_eq!(c_len('中'), 2);
    assert_eq!(c_len('文'), 2);
    assert_eq!(c_len('，'), 2);
}

#[test]
fn c_len_control_is_zero() {
    assert_eq!(c_len('\n'), 0);
    assert_eq!(c_len('\0'), 0);
}

#[test]
fn s_length_mixed_width() {
    assert_eq!(s_length("你好，世界！".to_owned()), 12);
    assert_eq!(s_length("Hello, World!".to_owned()), 13);
}

#[test]
fn s_length_empty_and_newline() {
    assert_eq!(s_length(String::new()), 0);
    assert_eq!(s_length("a\nb".to_owned()), 2);
}

#[test]
fn utf8_len_per_char() {
    assert_eq!(c_utf8_len('a'), 1);
    assert_eq!(c_utf8_len('é'), 2);
    assert_eq!(c_utf8_len('中'), 3);
    assert_eq!(c_utf8_len('𝄞'), 4);
}

#[test]
fn chinese_char_ranges() {
    assert!(is_chinese_char('中'));
    assert!(is_chinese_char('㐀'));
    assert!(!is_chinese_char('a'));
    assert!(!is_chinese_char('。'));
    assert!(!is_chinese_char('A'));
}

#[test]
fn chinese_punctuation_ranges() {
    assert!(is_chinese_punctuation('。'));
    assert!(is_chinese_punctuation('！'));
    assert!(!is_chinese_punctuation('!'));
    assert!(!is_chinese_punctuation('中'));
}
