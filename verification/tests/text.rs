use wechatbot::text::{can_chunk_text, chunk_text};

#[test]
fn chunk_text_short() {
    let chunks = chunk_text("hello", 100);
    assert_eq!(chunks, vec!["hello"]);
}

#[test]
fn chunk_text_empty() {
    let chunks = chunk_text("", 100);
    assert_eq!(chunks, vec![""]);
}

#[test]
fn chunk_text_splits_on_paragraph() {
    let text = "aaaa\n\nbbbb";
    let chunks = chunk_text(text, 7);
    assert_eq!(chunks, vec!["aaaa\n\n", "bbbb"]);
}

#[test]
fn chunk_text_splits_on_newline() {
    let text = "aaaa\nbbbb";
    let chunks = chunk_text(text, 7);
    assert_eq!(chunks, vec!["aaaa\n", "bbbb"]);
}

#[test]
fn chunk_text_exact_limit() {
    let text = "abcdef";
    let chunks = chunk_text(text, 6);
    assert_eq!(chunks, vec!["abcdef"]);
}

#[test]
fn chunk_text_splits_on_space() {
    assert_eq!(chunk_text("aaaa bbbb", 7), vec!["aaaa ", "bbbb"]);
}

#[test]
fn chunk_text_splits_anywhere_at_last() {
    assert_eq!(chunk_text("abcdefghij", 4), vec!["abcd", "efgh", "ij"]);
}

#[test]
fn chunk_text_prefers_paragraphs_to_later_newlines_and_spaces() {
    assert_eq!(chunk_text("aaaa\n\nb\nc d eeee", 12), vec!["aaaa\n\n", "b\nc d eeee"]);
    assert_eq!(chunk_text("aaaa\nb c dddd", 9), vec!["aaaa\n", "b c dddd"]);
}

#[test]
fn chunk_text_ignores_breaks_within_three_tenths() {
    // A break at byte 3 of a window of 10 is too early; one at byte 4 is not.
    assert_eq!(chunk_text("aaa bbbbbbbbbb", 10), vec!["aaa bbbbbb", "bbbb"]);
    assert_eq!(chunk_text("aaaa bbbbbbbbb", 10), vec!["aaaa ", "bbbbbbbbb"]);
    // An early paragraph gives way to a later space.
    assert_eq!(chunk_text("a\n\nbbbb cccc", 9), vec!["a\n\nbbbb ", "cccc"]);
}

#[test]
fn chunk_text_counts_bytes() {
    assert_eq!(chunk_text("日本語", 6), vec!["日本", "語"]);
    assert_eq!(chunk_text("日本 語語", 8), vec!["日本 ", "語語"]);
}

#[test]
fn chunk_text_cannot_cut_characters() {
    assert!(can_chunk_text("日本語", 6));
    assert!(can_chunk_text("日本語", 9));
    assert!(!can_chunk_text("日本語", 7));
    assert!(!can_chunk_text("日本語", 2));
    assert!(!can_chunk_text("a", 0));
    assert!(can_chunk_text("", 0));
    assert!(can_chunk_text("any ascii text", 1));
}

#[test]
fn chunks_rejoin_and_keep_the_limit() {
    let mut text = String::new();
    for i in 0..400 {
        text.push_str("word");
        text.push_str(match i % 7 {
            0 => "\n\n",
            3 => "\n",
            _ => " ",
        });
    }
    for limit in 1..200usize {
        let chunks = chunk_text(&text, limit);
        assert_eq!(chunks.concat(), text);
        for chunk in &chunks {
            assert!(!chunk.is_empty());
            assert!(chunk.len() <= limit);
        }
        for chunk in &chunks[..chunks.len() - 1] {
            assert!(chunk.len() == limit || chunk.ends_with('\n') || chunk.ends_with(' '));
        }
    }
}
