use bookkar::words::{tally_words, word_frequencies, words_of_lines, WordCount};

fn wc(w: &str, c: usize) -> WordCount {
    WordCount { word: w.to_string(), count: c }
}

#[test]
fn counts_words_across_lines() {
    let lines = vec!["the cat and the hat".to_string(), "  the\tend  ".to_string(), String::new()];
    let counts = word_frequencies(&lines);
    assert_eq!(counts, vec![wc("the", 3), wc("cat", 1), wc("and", 1), wc("hat", 1), wc("end", 1)]);
    let total: usize = counts.iter().map(|c| c.count).sum();
    assert_eq!(total, 7);
}

#[test]
fn splitting_uses_unicode_white_space() {
    assert_eq!(words_of_lines(&vec!["a\u{3000}b  c".to_string()]), vec!["a", "b", "c"]);
    assert_eq!(words_of_lines(&vec!["   ".to_string()]), Vec::<String>::new());
    assert_eq!(words_of_lines(&vec!["x y".to_string(), "z".to_string()]), vec!["x", "y", "z"]);
    assert_eq!(
        words_of_lines(&vec!["\u{85}p\u{a0}q\u{1680}r\u{2007}s\u{202f}t\u{205f}u\u{b}v\u{c}w".to_string()]),
        vec!["p", "q", "r", "s", "t", "u", "v", "w"]
    );
    // U+200B (zero width space) is not white space.
    assert_eq!(words_of_lines(&vec!["a\u{200b}b".to_string()]), vec!["a\u{200b}b"]);
}

#[test]
fn tally_of_nothing_is_empty() {
    assert_eq!(tally_words(&vec![]), vec![]);
    assert_eq!(tally_words(&vec!["a".to_string(), "A".to_string(), "a".to_string()]), vec![wc("a", 2), wc("A", 1)]);
}
