use imgur_a::text::{can_clip, chars_of, clip, contains, decimal, ends_with_line_feed, split};

#[test]
fn split_keeps_empty_pieces() {
    assert_eq!(split("a:b::c:", ':'), vec!["a", "b", "", "c", ""]);
    assert_eq!(split("", ':'), vec![""]);
    assert_eq!(split("none", ':'), vec!["none"]);
    assert_eq!(split("ä:ö", ':'), vec!["ä", "ö"]);
}

#[test]
fn split_agrees_with_std() {
    for s in ["", ":", "::", "a", "a:", ":a", "a:b:c:d:e", "é:ü:漢字:"] {
        let expected: Vec<&str> = s.split(':').collect();
        assert_eq!(split(s, ':'), expected);
        assert_eq!(split(s, ':').join(":"), s);
    }
}

#[test]
fn contains_agrees_with_std() {
    for s in ["", "a", "aab", "abaab", "xyz aab", "äöü", "aa"] {
        for needle in ["", "a", "aab", "ab", "ö", "xyz aab and more"] {
            assert_eq!(contains(s, needle), s.contains(needle));
        }
    }
}

#[test]
fn line_feed_at_the_end() {
    assert!(ends_with_line_feed("a\n"));
    assert!(ends_with_line_feed("\n"));
    assert!(!ends_with_line_feed("a\nb"));
    assert!(!ends_with_line_feed(""));
    assert!(!ends_with_line_feed("a\r"));
}

#[test]
fn decimal_agrees_with_std() {
    for n in [0, 1, 9, 10, 11, 99, 100, 429, 65535, u64::MAX] {
        assert_eq!(decimal(n), n.to_string());
    }
}

#[test]
fn clip_counts_bytes() {
    assert_eq!(clip("abcdef", 4), "abcd");
    assert_eq!(clip("abc", 4), "abc");
    assert_eq!(clip("abcd", 4), "abcd");
    assert_eq!(clip("äöü", 4), "äö");
    assert!(can_clip("äöü", 4));
    assert!(!can_clip("äöü", 3));
    assert!(can_clip("äöü", 6));
    assert!(can_clip("äöü", 7));
}

#[test]
fn chars_in_order() {
    assert_eq!(chars_of("aäb"), vec!['a', 'ä', 'b']);
}
