use streaksaver::common::QuestionType;
use streaksaver::db::models::Question;
use streaksaver::run::{action_for, after_answer, after_match_item, after_skip, attempt, Action, Attempt, StoreChange};
use streaksaver::webdriver::get_state::State;

fn stored(id: i32, answer: &str, t: QuestionType) -> Question {
    Question {
        id,
        question: "q".into(),
        answer: answer.into(),
        language: "fr".into(),
        question_type: t,
    }
}

#[test]
fn actions_for_states() {
    assert_eq!(action_for(State::StartLanguage), Action::StartIntro);
    assert_eq!(action_for(State::StartLesson), Action::NextSkillTreeItem);
    assert_eq!(
        action_for(State::Question(QuestionType::Select, "fr".into(), "chat".into())),
        Action::Answer(QuestionType::Select, "fr".into(), "chat".into())
    );
    assert_eq!(action_for(State::JustClickNext), Action::ClickNext);
    assert_eq!(action_for(State::Fuckd), Action::Retry);
    assert_eq!(action_for(State::UnknownQuestionType("x".into())), Action::Wait(500));
    assert_eq!(action_for(State::Loading), Action::Wait(100));
    assert_eq!(action_for(State::IgnoreQuestion), Action::IgnoreQuestion);
    assert_eq!(action_for(State::PlusScreen), Action::ClickOn("plus-no-thanks".into()));
    assert_eq!(action_for(State::Legendary), Action::ClickOn("maybe-later".into()));
    assert_eq!(action_for(State::HereIsATip), Action::HereIsTip);
    assert_eq!(
        action_for(State::MatchQuestion(vec!["a".into()], "fr".into())),
        Action::MatchPairs(vec!["a".into()], "fr".into())
    );
}

#[test]
fn attempts() {
    assert_eq!(attempt(QuestionType::TapComplete, None), Attempt::Skip { underline: true });
    assert_eq!(attempt(QuestionType::Select, None), Attempt::Skip { underline: false });
    assert_eq!(
        attempt(QuestionType::Select, Some(stored(7, "chat", QuestionType::Select))),
        Attempt::Answer { id: 7, question_type: QuestionType::Select, answer: "chat".into() }
    );
}

#[test]
fn store_changes() {
    let c = after_skip(QuestionType::Name, "fr".into(), "q".into(), "a".into());
    assert_eq!(
        c,
        StoreChange::Insert {
            question: "q".into(),
            answer: "a".into(),
            language: "fr".into(),
            question_type: QuestionType::Name
        }
    );
    let post = c.new_post().unwrap();
    assert_eq!((post.question, post.answer, post.language), ("q", "a", "fr"));
    assert_eq!(post.question_type, QuestionType::Name);
    assert_eq!(after_answer(3, Some("b".into())), StoreChange::Update { id: 3, answer: "b".into() });
    assert_eq!(after_answer(3, None), StoreChange::Keep);
    assert!(StoreChange::Keep.new_post().is_none());
    assert_eq!(
        after_match_item(Some(stored(4, "old", QuestionType::MatchPairs)), "q".into(), "fr".into(), "new".into()),
        StoreChange::Update { id: 4, answer: "new".into() }
    );
    assert_eq!(
        after_match_item(None, "q".into(), "fr".into(), "new".into()),
        StoreChange::Insert {
            question: "q".into(),
            answer: "new".into(),
            language: "fr".into(),
            question_type: QuestionType::MatchPairs
        }
    );
}

#[test]
fn question_type_storage_round_trip() {
    let all = [
        QuestionType::Translate,
        QuestionType::Select,
        QuestionType::Assist,
        QuestionType::TapComplete,
        QuestionType::Name,
        QuestionType::MatchPairs,
        QuestionType::CompleteTranslation,
        QuestionType::GapFill,
    ];
    for t in all {
        assert_eq!(QuestionType::from_sql_text(t.to_sql_text()), Some(t));
    }
    assert_eq!(QuestionType::from_sql_text("Nope"), None);
    assert!(QuestionType::TapComplete.check_underline());
    assert!(QuestionType::CompleteTranslation.check_underline());
    assert!(!QuestionType::Translate.check_underline());
}
