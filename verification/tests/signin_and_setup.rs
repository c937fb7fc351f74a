use streaksaver::common::QuestionType;
use streaksaver::webdriver::signin::{
    credentials, is_learn_page, login_failure, login_succeeded, login_timed_out, Error,
};
use streaksaver::webdriver::{answer_method, driver_url, has_answer_method, headless_requested, AnswerMethod};

#[test]
fn credentials_checked_in_order() {
    assert_eq!(credentials(None, None), Err(Error::NoUsername));
    assert_eq!(credentials(None, Some("p".into())), Err(Error::NoUsername));
    assert_eq!(credentials(Some("u".into()), None), Err(Error::NoPassword));
    assert_eq!(credentials(Some("u".into()), Some("p".into())), Ok(("u".into(), "p".into())));
}

#[test]
fn sign_in_progress() {
    assert!(is_learn_page("https://www.duolingo.com/learn"));
    assert!(!is_learn_page("https://www.duolingo.com/learn/"));
    assert!(login_succeeded("https://www.duolingo.com/learn"));
    assert!(!login_succeeded("https://www.duolingo.com/"));
    assert!(!login_timed_out(20_000_000_000));
    assert!(login_timed_out(20_000_000_001));
}

#[test]
fn sign_in_failures() {
    assert_eq!(
        login_failure("There is no Duolingo account with that email", "me".into()),
        Error::InvalidUsername("me".into())
    );
    assert_eq!(login_failure("Wrong password", "me".into()), Error::InvalidPassword("me".into()));
    assert_eq!(login_failure("Oops", "me".into()), Error::ThereIsAnErrorForSomeReason);
}

#[test]
fn answer_methods() {
    assert_eq!(answer_method(QuestionType::Translate), AnswerMethod::TypeTranslation);
    assert_eq!(answer_method(QuestionType::Name), AnswerMethod::TypeTranslation);
    assert_eq!(answer_method(QuestionType::Select), AnswerMethod::ChooseAnswer);
    assert_eq!(answer_method(QuestionType::Assist), AnswerMethod::ChooseAnswerAssist);
    assert_eq!(answer_method(QuestionType::TapComplete), AnswerMethod::ChooseAnswerUnderline);
    assert_eq!(
        answer_method(QuestionType::CompleteTranslation),
        AnswerMethod::TypeTranslationComplete
    );
    assert!(!has_answer_method(QuestionType::MatchPairs));
    assert!(!has_answer_method(QuestionType::GapFill));
    assert!(has_answer_method(QuestionType::Select));
}

#[test]
fn browser_settings() {
    assert!(headless_requested(" true\n"));
    assert!(headless_requested("1"));
    assert!(!headless_requested("yes"));
    assert!(!headless_requested("TRUE"));
    assert_eq!(driver_url(None), "http://localhost:4444");
    assert_eq!(driver_url(Some("http://x:1".into())), "http://x:1");
}
