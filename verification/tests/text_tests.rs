use rustbasic_activitylog::text::{chars_of, contains_chars, find_chars};

#[test]
fn chars_of_splits_into_characters() {
    assert_eq!(chars_of("añb"), vec!['a', 'ñ', 'b']);
    assert_eq!(chars_of(""), Vec::<char>::new());
}

#[test]
fn find_returns_first_occurrence_from_start() {
    let s = chars_of("abcabc");
    let p = chars_of("bc");
    assert_eq!(find_chars(&s, &p, 0), Some(1));
    assert_eq!(find_chars(&s, &p, 2), Some(4));
    assert_eq!(find_chars(&s, &p, 5), None);
    assert_eq!(find_chars(&s, &chars_of("cb"), 0), None);
}

#[test]
fn find_of_empty_pattern_is_the_start() {
    let s = chars_of("xy");
    assert_eq!(find_chars(&s, &Vec::new(), 1), Some(1));
    assert_eq!(find_chars(&s, &Vec::new(), 2), Some(2));
    assert_eq!(find_chars(&s, &Vec::new(), 3), None);
}

#[test]
fn pattern_longer_than_text_is_not_found() {
    assert_eq!(find_chars(&chars_of("ab"), &chars_of("abc"), 0), None);
    assert!(!contains_chars(&chars_of("ab"), &chars_of("abc")));
    assert!(contains_chars(&chars_of("xxabc"), &chars_of("abc")));
}
