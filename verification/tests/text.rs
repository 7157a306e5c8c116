use spongify::text::{chars_of, count_occurrences, push_chars, same_chars};

#[test]
fn chars_of_gives_the_characters_in_order() {
    assert_eq!(chars_of("a\u{e9}z"), vec!['a', '\u{e9}', 'z']);
    assert_eq!(chars_of(""), Vec::<char>::new());
}

#[test]
fn same_chars_compares_length_and_content() {
    assert!(same_chars(&chars_of("abc"), &chars_of("abc")));
    assert!(!same_chars(&chars_of("abc"), &chars_of("abd")));
    assert!(!same_chars(&chars_of("abc"), &chars_of("ab")));
    assert!(same_chars(&chars_of(""), &chars_of("")));
}

#[test]
fn occurrences_are_counted_from_the_left_without_overlap() {
    assert_eq!(count_occurrences(&chars_of("aaaa"), &chars_of("aa")), 2);
    assert_eq!(count_occurrences(&chars_of("aaa"), &chars_of("aa")), 1);
    assert_eq!(count_occurrences(&chars_of("abcabc"), &chars_of("bc")), 2);
    assert_eq!(count_occurrences(&chars_of("abc"), &chars_of("abcd")), 0);
    assert_eq!(count_occurrences(&chars_of(""), &chars_of("a")), 0);
    assert_eq!(count_occurrences(&chars_of("ababa"), &chars_of("aba")), 1);
    assert_eq!(count_occurrences(&chars_of("abc"), &chars_of("")), 0);
}

#[test]
fn occurrences_agree_with_the_standard_library() {
    for hay in ["randomly", "xrandomlyrandomly", "randomlrandomly", "rrandomlyy", ""] {
        assert_eq!(
            count_occurrences(&chars_of(hay), &chars_of("randomly")),
            hay.matches("randomly").count()
        );
    }
}

#[test]
fn push_chars_appends() {
    let mut s = String::from("ab");
    push_chars(&mut s, &vec!['c', 'd']);
    assert_eq!(s, "abcd");
    push_chars(&mut s, &Vec::new());
    assert_eq!(s, "abcd");
}
