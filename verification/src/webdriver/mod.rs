//! Reading the course page and answering its questions.
pub mod get_state;
pub mod questions;
pub mod signin;

use crate::common::QuestionType;
use crate::text::{same_text, trim, trimmed_end, trimmed_start};
use vstd::prelude::*;

verus! {

/// How a question of a kind is answered.
#[derive(Clone, Copy, Debug, PartialEq, Eq, Structural)]
pub enum AnswerMethod {
    /// Type the answer into the text box.
    TypeTranslation,
    /// Click the choice whose text is the answer.
    ChooseAnswer,
    /// Click the choice, among the plain choice boxes, whose text is the answer.
    ChooseAnswerAssist,
    /// Tap, one by one, the tokens that make up the answer.
    ChooseAnswerUnderline,
    /// Type the answer, and learn only the underlined part of a correction.
    TypeTranslationComplete,
}

/// How a kind of question is answered; `None` for the kinds that are not answered from
/// the store this way (pairs questions, which have their own round, and gap fills).
pub open spec fn spec_answer_method(t: QuestionType) -> Option<AnswerMethod> {
    match t {
        QuestionType::Translate => Some(AnswerMethod::TypeTranslation),
        QuestionType::Select => Some(AnswerMethod::ChooseAnswer),
        QuestionType::Assist => Some(AnswerMethod::ChooseAnswerAssist),
        QuestionType::TapComplete => Some(AnswerMethod::ChooseAnswerUnderline),
        QuestionType::Name => Some(AnswerMethod::TypeTranslation),
        QuestionType::MatchPairs => None,
        QuestionType::CompleteTranslation => Some(AnswerMethod::TypeTranslationComplete),
        QuestionType::GapFill => None,
    }
}

pub fn answer_method(t: QuestionType) -> (m: AnswerMethod)
    requires
        spec_answer_method(t) is Some,
    ensures
        spec_answer_method(t) == Some(m),
{
    match t {
        QuestionType::Translate => AnswerMethod::TypeTranslation,
        QuestionType::Select => AnswerMethod::ChooseAnswer,
        QuestionType::Assist => AnswerMethod::ChooseAnswerAssist,
        QuestionType::TapComplete => AnswerMethod::ChooseAnswerUnderline,
        QuestionType::Name => AnswerMethod::TypeTranslation,
        QuestionType::CompleteTranslation => AnswerMethod::TypeTranslationComplete,
        _ => AnswerMethod::TypeTranslation,
    }
}

/// Whether the kind of question is answered from the store by `answer_method`.
pub fn has_answer_method(t: QuestionType) -> (b: bool)
    ensures
        b == spec_answer_method(t) is Some,
{
    match t {
        QuestionType::MatchPairs => false,
        QuestionType::GapFill => false,
        _ => true,
    }
}

/// Whether the setting for a browser without a window asks for one: `true` or `1`, around
/// white space.
pub open spec fn spec_headless_requested(value: Seq<char>) -> bool {
    let v = trimmed_end(trimmed_start(value));
    v == "true"@ || v == "1"@
}

pub fn headless_requested(value: &str) -> (b: bool)
    ensures
        b == spec_headless_requested(value@),
{
    let v = trim(value);
    same_text(v.as_str(), "true") || same_text(v.as_str(), "1")
}

/// The address of the browser driver: the configured one, or the local default.
pub fn driver_url(configured: Option<String>) -> (url: String)
    ensures
        match configured {
            Some(u) => url == u,
            None => url@ == "http://localhost:4444"@,
        },
{
    match configured {
        Some(u) => u,
        None => "http://localhost:4444".to_owned(),
    }
}

/// Every kind of question but pairs and gap fills is answered from the store; typed kinds
/// (translations and names) are typed, the choice kinds are clicked, tap-to-complete is
/// tapped, and the underlined part of a correction is what is learnt exactly for the kinds
/// answered by tapping or by typing a completed translation.
pub proof fn lemma_answer_methods(t: QuestionType)
    ensures
        spec_answer_method(t) is Some <==> (t != QuestionType::MatchPairs && t
            != QuestionType::GapFill),
        spec_answer_method(t) == Some(AnswerMethod::TypeTranslation) <==> (t
            == QuestionType::Translate || t == QuestionType::Name),
        spec_answer_method(t) == Some(AnswerMethod::ChooseAnswer) <==> t == QuestionType::Select,
        spec_answer_method(t) == Some(AnswerMethod::ChooseAnswerAssist) <==> t
            == QuestionType::Assist,
        spec_answer_method(t) == Some(AnswerMethod::ChooseAnswerUnderline) <==> t
            == QuestionType::TapComplete,
        spec_answer_method(t) == Some(AnswerMethod::TypeTranslationComplete) <==> t
            == QuestionType::CompleteTranslation,
        t.spec_check_underline() <==> (spec_answer_method(t) == Some(
            AnswerMethod::ChooseAnswerUnderline,
        ) || spec_answer_method(t) == Some(AnswerMethod::TypeTranslationComplete)),
        t.spec_check_underline() <==> (t == QuestionType::TapComplete || t
            == QuestionType::CompleteTranslation),
{
}

/// A browser without a window is asked for by exactly the values `true` and `1`, with any
/// white space around them; every other value (such as `false` or `0`) asks for a window.
pub proof fn lemma_headless_values(value: Seq<char>)
    ensures
        spec_headless_requested(value) ==> (trimmed_end(trimmed_start(value)) == "true"@
            || trimmed_end(trimmed_start(value)) == "1"@),
        (trimmed_end(trimmed_start(value)) == "true"@ || trimmed_end(trimmed_start(value))
            == "1"@) ==> spec_headless_requested(value),
        trimmed_end(trimmed_start(value)) == "false"@ ==> !spec_headless_requested(value),
        trimmed_end(trimmed_start(value)) == "0"@ ==> !spec_headless_requested(value),
{
    reveal_strlit("true");
    reveal_strlit("1");
    reveal_strlit("false");
    reveal_strlit("0");
    assert("false"@.len() == 5 && "true"@.len() == 4 && "1"@.len() == 1);
    assert("0"@[0] != "1"@[0] && "0"@.len() == 1);
}

} // verus!
