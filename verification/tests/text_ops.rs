use streaksaver::text::{
    concat_all, contains, ends_with, first_piece, glue, has_char, is_whitespace, join_with,
    same_text, split_with, starts_with, starts_with_line, trim, trim_end,
};

fn strings(v: &[&str]) -> Vec<String> {
    v.iter().map(|s| s.to_string()).collect()
}

#[test]
fn split_and_join_round_trip() {
    let parts = split_with("a,b,,c", ',');
    assert_eq!(parts, strings(&["a", "b", "", "c"]));
    assert_eq!(join_with(&parts, ','), "a,b,,c");
}

#[test]
fn split_of_empty_text_is_one_empty_piece() {
    assert_eq!(split_with("", ','), strings(&[""]));
    assert_eq!(split_with(",", ','), strings(&["", ""]));
}

#[test]
fn join_of_no_pieces_is_empty() {
    assert_eq!(join_with(&Vec::new(), ','), "");
    assert_eq!(join_with(&strings(&["solo"]), ','), "solo");
}

#[test]
fn split_agrees_with_std() {
    for s in ["x,y", "héllo,wörld,", ",,", "no commas"] {
        let expected: Vec<String> = s.split(',').map(|p| p.to_string()).collect();
        assert_eq!(split_with(s, ','), expected);
    }
}

#[test]
fn first_piece_before_separator() {
    assert_eq!(first_piece("one, two", ','), "one");
    assert_eq!(first_piece("whole", ','), "whole");
    assert_eq!(first_piece(",lead", ','), "");
    assert_eq!(first_piece("fr/lesson/1", '/'), "fr");
}

#[test]
fn prefix_suffix_and_substring() {
    assert!(starts_with("challenge challenge-match", "challenge "));
    assert!(!starts_with("chal", "challenge "));
    assert!(ends_with("https://www.duolingo.com/learn", "learn"));
    assert!(!ends_with("learning", "learn"));
    assert!(contains("MAKE IT HARDER", "HARDER"));
    assert!(!contains("harder", "HARDER"));
    assert!(contains("anything", ""));
    assert!(has_char("a/b", '/'));
    assert!(!has_char("ab", '/'));
    assert!(same_text("abc", "abc"));
    assert!(!same_text("abc", "abd"));
    assert!(!same_text("abc", "ab"));
}

#[test]
fn line_prefix() {
    assert!(starts_with_line("1\nhello", "1"));
    assert!(!starts_with_line("1 hello", "1"));
    assert!(!starts_with_line("1", "1"));
}

#[test]
fn trimming_follows_std() {
    for s in ["  a b \t\n", "\u{3000}x\u{2009}", "", "   ", "plain"] {
        assert_eq!(trim_end(s), s.trim_end());
        assert_eq!(trim(s), s.trim());
    }
}

#[test]
fn white_space_follows_std() {
    for c in ['\t', '\n', ' ', '\u{85}', '\u{a0}', '\u{2000}', '\u{200a}', '\u{200b}', 'a', '\u{3000}', '\u{feff}'] {
        assert_eq!(is_whitespace(c), c.is_whitespace(), "{:?}", c);
    }
}

#[test]
fn gluing_and_concatenating() {
    assert_eq!(glue("ab", "cd"), "abcd");
    assert_eq!(concat_all(&strings(&["I ", "am ", "here"])), "I am here");
    assert_eq!(concat_all(&Vec::new()), "");
}
