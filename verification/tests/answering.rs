use streaksaver::webdriver::questions::{
    answer_parts, button_selector, column_selector, corrected_answer, is_practice_button,
    join_answer_parts, match_move, match_order, no_answer_message, position_ending_with,
    position_of, tip_choice, tip_prompt, underlined_answer, wants_keyboard, MatchMove, MatchPair,
    TipSpan,
};

fn strings(v: &[&str]) -> Vec<String> {
    v.iter().map(|s| s.to_string()).collect()
}

#[test]
fn choice_positions() {
    let texts = strings(&["dog", "cat", "cat"]);
    assert_eq!(position_of(&texts, "cat"), Some(1));
    assert_eq!(position_of(&texts, "bird"), None);
    assert_eq!(position_of(&Vec::new(), "cat"), None);
    let buttons = strings(&["1\ncat", "2\nthe cat"]);
    assert_eq!(position_ending_with(&buttons, "cat"), Some(0));
    assert_eq!(position_ending_with(&buttons, "the cat"), Some(1));
    assert_eq!(position_ending_with(&buttons, "dog"), None);
}

#[test]
fn underlined_answers_are_joined_with_commas() {
    assert_eq!(join_answer_parts(&strings(&["le", "chat"])), "le,chat");
    assert_eq!(join_answer_parts(&Vec::new()), "");
    assert_eq!(underlined_answer(&strings(&["le", "chat"])), Some("le,chat".to_string()));
    assert_eq!(underlined_answer(&Vec::new()), None);
}

#[test]
fn kept_answer_comes_back_as_its_pieces() {
    let pieces = strings(&["je", "suis", "ici"]);
    let kept = join_answer_parts(&pieces);
    assert_eq!(answer_parts(&kept), pieces);
    assert_eq!(answer_parts("solo"), strings(&["solo"]));
}

#[test]
fn corrections() {
    assert_eq!(corrected_answer("Correct solutions:", "I am, I'm"), "I am");
    assert_eq!(corrected_answer("CORRECT SOLUTIONS:", "I am, I'm"), "I am");
    assert_eq!(corrected_answer("Correct solution:", "I am, I'm"), "I am, I'm");
    assert_eq!(corrected_answer("Solutions", "single"), "single");
}

#[test]
fn keyboard_toggle() {
    assert!(wants_keyboard("USE KEYBOARD"));
    assert!(wants_keyboard("Make harder"));
    assert!(!wants_keyboard("Make easier"));
    assert!(!wants_keyboard(" use keyboard"));
}

fn span(html: &str, text: &str) -> TipSpan {
    TipSpan { outer_html: html.to_string(), text: text.to_string() }
}

#[test]
fn tip_prompts() {
    let spans = vec![
        span("<span>abcd</span>", "abcd"),
        span("<span class=\"x\">a</span>", "a"),
        span("<span>xy</span>", "xy"),
        span("<span>zw</span>", "zw"),
    ];
    assert_eq!(tip_prompt(&spans), Some("xy".to_string()));
    assert_eq!(tip_prompt(&vec![span("<div>", "a")]), None);
    let many: Vec<TipSpan> = (0..5).map(|_| span("<span>q</span>", "q")).collect();
    assert_eq!(tip_prompt(&many), None);
    // Lengths are counted in bytes: "é" is two bytes long.
    let spans = vec![span("<span>é</span>", "é"), span("<span>ab</span>", "ab"), span("<span>c</span>", "c")];
    assert_eq!(tip_prompt(&spans), Some("c".to_string()));
    let spans = vec![span("<span>é</span>", "é"), span("<span>ab</span>", "ab")];
    assert_eq!(tip_prompt(&spans), Some("é".to_string()));
}

#[test]
fn tip_choices() {
    let choices = strings(&["dog", "chat", "house"]);
    assert_eq!(tip_choice("le chat noir", &choices), 1);
    assert_eq!(tip_choice("nothing matches", &choices), 2);
    assert_eq!(tip_choice("", &strings(&["x"])), 0);
}

fn pair(q: &str, a: Option<&str>) -> MatchPair {
    MatchPair { question: q.to_string(), answer: a.map(|s| s.to_string()) }
}

#[test]
fn pairs_without_answers_come_first() {
    let pairs = vec![pair("a", Some("1")), pair("b", None), pair("c", Some("3")), pair("d", None)];
    let order = match_order(pairs);
    assert_eq!(
        order,
        vec![pair("b", None), pair("d", None), pair("a", Some("1")), pair("c", Some("3"))]
    );
    assert_eq!(match_order(Vec::new()), Vec::new());
}

#[test]
fn pair_moves() {
    assert_eq!(match_move(&pair("a", Some("1")), None), MatchMove::TryKnown("1".to_string()));
    assert_eq!(match_move(&pair("a", None), None), MatchMove::Search);
    assert_eq!(match_move(&pair("a", Some("1")), Some(true)), MatchMove::Paired);
    assert_eq!(match_move(&pair("a", Some("1")), Some(false)), MatchMove::Search);
}

#[test]
fn selectors_and_messages() {
    assert_eq!(
        column_selector(true),
        r#"[data-test="challenge challenge-match"] > div > div > div > div > div:nth-child(1) > div > button"#
    );
    assert_eq!(
        column_selector(false),
        r#"[data-test="challenge challenge-match"] > div > div > div > div > div:nth-child(2) > div > button"#
    );
    assert_eq!(button_selector("plus-no-thanks"), r#"button[data-test="plus-no-thanks"]"#);
    assert_eq!(no_answer_message("cat"), "Could not find answer for cat");
}

#[test]
fn practice_buttons() {
    assert!(is_practice_button("PRACTICE +5 XP"));
    assert!(!is_practice_button("START"));
}
