use chat_dispatch::chunk::{chunk_message, sub_strings};

#[test]
fn splits_evenly() {
    assert_eq!(sub_strings("abcdef", 2), vec!["ab", "cd", "ef"]);
}

#[test]
fn splits_with_remainder() {
    assert_eq!(sub_strings("abcde", 2), vec!["ab", "cd", "e"]);
}

#[test]
fn empty_text_yields_no_segments() {
    assert_eq!(sub_strings("", 5), Vec::<&str>::new());
    assert_eq!(sub_strings("", 1), Vec::<&str>::new());
    assert_eq!(sub_strings("", 1800), Vec::<&str>::new());
}

#[test]
fn limit_larger_than_text_keeps_it_whole() {
    assert_eq!(sub_strings("hi", 1800), vec!["hi"]);
}

#[test]
fn counts_characters_not_bytes() {
    // Each of the two-byte characters counts as one.
    assert_eq!(sub_strings("h\u{e9}llo w\u{f6}rld", 4), vec!["h\u{e9}ll", "o w\u{f6}", "rld"]);
}

#[test]
fn never_splits_inside_a_scalar_value() {
    // Four-byte emoji with a limit of two characters: boundaries stay on
    // character edges and concatenation restores the text.
    let text = "\u{1F600}\u{1F600}\u{1F600}";
    let segs = sub_strings(text, 2);
    assert_eq!(segs, vec!["\u{1F600}\u{1F600}", "\u{1F600}"]);
    assert_eq!(segs.concat(), text);
}

#[test]
fn concatenation_restores_the_text() {
    let samples = ["", "a", "abc", "hello world, hello", "\u{e9}\u{e8}\u{ea}x", "1800"];
    for text in samples {
        for limit in [1usize, 2, 3, 7, 1800] {
            let segs = sub_strings(text, limit);
            assert_eq!(segs.concat(), text);
            for seg in &segs {
                assert!(seg.chars().count() <= limit);
                assert!(!seg.is_empty());
            }
            if !segs.is_empty() {
                for seg in &segs[..segs.len() - 1] {
                    assert_eq!(seg.chars().count(), limit);
                }
            }
        }
    }
}

#[test]
fn chunk_message_matches_sub_strings() {
    assert_eq!(chunk_message("abcdef", 4), vec!["abcd".to_string(), "ef".to_string()]);
    assert_eq!(chunk_message("", 4), Vec::<String>::new());
}
