use streaksaver::common::QuestionType;
use streaksaver::webdriver::get_state::{
    challenge_kind, challenge_state, first_probe, is_labelled_item, lesson_language, lesson_url,
    match_item_text, next_step, offers_harder, page_state, tap_complete_text, ChallengeKind,
    PageKind, Probe, ProbeStep, State,
};

fn classify(found: &[Probe]) -> PageKind {
    let mut probe = first_probe();
    for _ in 0..10 {
        match next_step(probe, found.contains(&probe)) {
            ProbeStep::Look(p) => probe = p,
            ProbeStep::Conclude(k) => return k,
        }
    }
    panic!("probing did not conclude")
}

#[test]
fn probing_classifies_pages() {
    assert_eq!(classify(&[Probe::SkillTree, Probe::SkillTreeHeading]), PageKind::StartLanguage);
    assert_eq!(classify(&[Probe::SkillTree]), PageKind::StartLesson);
    assert_eq!(classify(&[Probe::SkillTree, Probe::NextButton]), PageKind::StartLesson);
    assert_eq!(classify(&[Probe::NextButton, Probe::NextButtonSpinner, Probe::ChallengeDiv]), PageKind::Loading);
    assert_eq!(classify(&[Probe::NextButton, Probe::ChallengeDiv]), PageKind::Challenge);
    assert_eq!(classify(&[Probe::NextButton]), PageKind::JustClickNext);
    assert_eq!(classify(&[Probe::PlusNoThanks, Probe::FinalLevelPromo]), PageKind::PlusScreen);
    assert_eq!(classify(&[Probe::FinalLevelPromo]), PageKind::Legendary);
    assert_eq!(classify(&[]), PageKind::Unrecognised);
}

#[test]
fn page_states() {
    assert_eq!(page_state(PageKind::Unrecognised), Some(State::Fuckd));
    assert_eq!(page_state(PageKind::Loading), Some(State::Loading));
    assert_eq!(page_state(PageKind::Challenge), None);
    assert_eq!(page_state(PageKind::PlusScreen), Some(State::PlusScreen));
}

fn kind(attr: Option<&str>) -> ChallengeKind {
    challenge_kind(attr.map(|s| s.to_string()))
}

#[test]
fn challenge_kinds_from_attribute() {
    assert_eq!(kind(Some("challenge challenge-select")), ChallengeKind::Select);
    assert_eq!(kind(Some("challenge challenge-translate")), ChallengeKind::Translate);
    assert_eq!(kind(Some("challenge challenge-assist")), ChallengeKind::Assist);
    assert_eq!(kind(Some("challenge challenge-tapComplete")), ChallengeKind::TapComplete);
    assert_eq!(
        kind(Some("challenge challenge-completeReverseTranslation")),
        ChallengeKind::CompleteReverseTranslation
    );
    assert_eq!(kind(Some("challenge challenge-match")), ChallengeKind::Match);
    assert_eq!(kind(Some("challenge challenge-listen")), ChallengeKind::Listening);
    assert_eq!(kind(Some("challenge challenge-speak")), ChallengeKind::Listening);
    assert_eq!(kind(Some("challenge challenge-listenTap")), ChallengeKind::Listening);
    assert_eq!(kind(Some("challenge challenge-listenComplete")), ChallengeKind::Listening);
    assert_eq!(kind(Some("challenge challenge-name")), ChallengeKind::Name);
    assert_eq!(kind(Some("challenge challenge-gapFill")), ChallengeKind::GapFill);
    assert_eq!(kind(None), ChallengeKind::Tip);
    assert_eq!(kind(Some("something else")), ChallengeKind::Tip);
    assert_eq!(
        kind(Some("challenge challenge-dialogue")),
        ChallengeKind::Unknown("challenge-dialogue".to_string())
    );
}

#[test]
fn challenge_question_types() {
    assert_eq!(
        ChallengeKind::CompleteReverseTranslation.question_type(),
        Some(QuestionType::CompleteTranslation)
    );
    assert_eq!(ChallengeKind::Match.question_type(), None);
    assert_eq!(ChallengeKind::Tip.question_type(), None);
}

#[test]
fn states_of_challenges() {
    let s = challenge_state(ChallengeKind::Select, "fr".into(), "chat".into(), vec![]);
    assert_eq!(s, State::Question(QuestionType::Select, "fr".into(), "chat".into()));
    let items = vec!["un".to_string(), "deux".to_string()];
    let s = challenge_state(ChallengeKind::Match, "fr".into(), String::new(), items.clone());
    assert_eq!(s, State::MatchQuestion(items, "fr".into()));
    let s = challenge_state(ChallengeKind::Listening, "fr".into(), String::new(), vec![]);
    assert_eq!(s, State::IgnoreQuestion);
    let s = challenge_state(ChallengeKind::Tip, "fr".into(), String::new(), vec![]);
    assert_eq!(s, State::HereIsATip);
    let s = challenge_state(ChallengeKind::Unknown("x".into()), "fr".into(), String::new(), vec![]);
    assert_eq!(s, State::UnknownQuestionType("x".into()));
}

#[test]
fn lesson_language_from_address() {
    let url = "https://www.duolingo.com/skill/fr/Basics-1/1";
    assert!(lesson_url(url));
    assert_eq!(lesson_language(url), "fr");
    assert!(!lesson_url("https://www.duolingo.com/skill/fr"));
    assert!(!lesson_url("https://www.duolingo.com/learn"));
}

#[test]
fn tap_complete_question() {
    let pieces = vec!["Je ".to_string(), "suis ".to_string(), "  ".to_string()];
    assert_eq!(tap_complete_text(&pieces), "Je suis");
}

#[test]
fn pairs_item_text() {
    assert!(is_labelled_item("1\nthe cat", "1"));
    assert_eq!(match_item_text("1\nthe cat", "1"), "the cat");
    assert!(!is_labelled_item("the cat", "1"));
}

#[test]
fn harder_toggle() {
    assert!(offers_harder("MAKE HARDER"));
    assert!(!offers_harder("make harder"));
}
