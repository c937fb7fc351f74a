//! The bot's round: what to do for each state of the page, and what to write to the store
//! after answering.
use crate::common::QuestionType;
use crate::db::models::{NewPost, Question};
use crate::webdriver::get_state::State;
use crate::webdriver::{spec_answer_method, AnswerMethod};
use vstd::prelude::*;

verus! {

/// What the bot does for a state of the page.
#[derive(Clone, Debug, PartialEq)]
pub enum Action {
    /// Start the introductory lesson of a new language.
    StartIntro,
    /// Open the next lesson of the skill tree that is not yet done.
    NextSkillTreeItem,
    /// Look the question (kind, language, text) up in the store and answer it.
    Answer(QuestionType, String, String),
    /// Go on to the next page.
    ClickNext,
    /// Look at the page again at once.
    Retry,
    /// Wait this many milliseconds, then look at the page again.
    Wait(u64),
    /// Skip a question the bot does not take.
    IgnoreQuestion,
    /// Work a pairs question with these left-hand items, in this language.
    MatchPairs(Vec<String>, String),
    /// Click the button whose `data-test` attribute is this.
    ClickOn(String),
    /// Get past a tip page.
    HereIsTip,
}

/// `a` is the action for `state`.
pub open spec fn is_action_for(state: State, a: Action) -> bool {
    match state {
        State::StartLanguage => a == Action::StartIntro,
        State::StartLesson => a == Action::NextSkillTreeItem,
        State::Question(t, language, question) => a == Action::Answer(t, language, question),
        State::JustClickNext => a == Action::ClickNext,
        State::Fuckd => a == Action::Retry,
        State::UnknownQuestionType(_) => a == Action::Wait(500),
        State::IgnoreQuestion => a == Action::IgnoreQuestion,
        State::MatchQuestion(items, language) => a == Action::MatchPairs(items, language),
        State::PlusScreen => a matches Action::ClickOn(b) && b@ == "plus-no-thanks"@,
        State::Legendary => a matches Action::ClickOn(b) && b@ == "maybe-later"@,
        State::HereIsATip => a == Action::HereIsTip,
        State::Loading => a == Action::Wait(100),
    }
}

/// The action for a state of the page.
pub fn action_for(state: State) -> (a: Action)
    ensures
        is_action_for(state, a),
{
    match state {
        State::StartLanguage => Action::StartIntro,
        State::StartLesson => Action::NextSkillTreeItem,
        State::Question(t, language, question) => Action::Answer(t, language, question),
        State::JustClickNext => Action::ClickNext,
        State::Fuckd => Action::Retry,
        State::UnknownQuestionType(_) => Action::Wait(500),
        State::IgnoreQuestion => Action::IgnoreQuestion,
        State::MatchQuestion(items, language) => Action::MatchPairs(items, language),
        State::PlusScreen => Action::ClickOn("plus-no-thanks".to_owned()),
        State::Legendary => Action::ClickOn("maybe-later".to_owned()),
        State::HereIsATip => Action::HereIsTip,
        State::Loading => Action::Wait(100),
    }
}

/// The bot answers exactly the question pages, with the question's own kind, language and
/// text; it clicks next exactly on pages with nothing to answer; it waits exactly while a
/// lesson loads (briefly) or the question is of an unknown kind (longer); it looks again at
/// once exactly on an unrecognised page; it clicks a named button exactly on the
/// subscription offer (declining it) and the final-level promotion (postponing it).
pub proof fn lemma_actions(s: State, a: Action)
    requires
        is_action_for(s, a),
    ensures
        (a is Answer) <==> (s is Question),
        s matches State::Question(t, l, q) ==> a == Action::Answer(t, l, q),
        (a is ClickNext) <==> (s is JustClickNext),
        (a is Retry) <==> (s is Fuckd),
        (a is Wait) <==> (s is Loading || s is UnknownQuestionType),
        s is Loading ==> a == Action::Wait(100),
        s is UnknownQuestionType ==> a == Action::Wait(500),
        (a is ClickOn) <==> (s is PlusScreen || s is Legendary),
        s is PlusScreen ==> (a matches Action::ClickOn(b) && b@ == "plus-no-thanks"@),
        s is Legendary ==> (a matches Action::ClickOn(b) && b@ == "maybe-later"@),
        (a is StartIntro) <==> (s is StartLanguage),
        (a is NextSkillTreeItem) <==> (s is StartLesson),
        (a is IgnoreQuestion) <==> (s is IgnoreQuestion),
        (a is HereIsTip) <==> (s is HereIsATip),
        (a is MatchPairs) <==> (s is MatchQuestion),
        s matches State::MatchQuestion(items, l) ==> a == Action::MatchPairs(items, l),
{
}

/// How to go at a question, given what the store holds for it.
#[derive(Clone, Debug, PartialEq)]
pub enum Attempt {
    /// Nothing is known: skip the question and learn the answer from the correction,
    /// only its underlined part where `underline`.
    Skip { underline: bool },
    /// Answer with what the store holds under `id`.
    Answer { id: i32, question_type: QuestionType, answer: String },
}

/// How to go at a question of kind `question_type`, with the first record the store
/// holds for it, if any.
pub open spec fn spec_attempt(question_type: QuestionType, stored: Option<Question>) -> Attempt {
    match stored {
        None => Attempt::Skip { underline: question_type.spec_check_underline() },
        Some(q) => Attempt::Answer { id: q.id, question_type: q.question_type, answer: q.answer },
    }
}

pub fn attempt(question_type: QuestionType, stored: Option<Question>) -> (r: Attempt)
    requires
        stored matches Some(q) ==> q.answer@.len() > 0,
    ensures
        r == spec_attempt(question_type, stored),
{
    match stored {
        None => Attempt::Skip { underline: question_type.check_underline() },
        Some(q) => Attempt::Answer { id: q.id, question_type: q.question_type, answer: q.answer },
    }
}

/// A change to the store.
#[derive(Clone, Debug, PartialEq)]
pub enum StoreChange {
    /// Keep a question met for the first time, with the answer learnt for it.
    Insert { question: String, answer: String, language: String, question_type: QuestionType },
    /// Replace the answer kept under `id`.
    Update { id: i32, answer: String },
    /// Leave the store as it is.
    Keep,
}

/// After skipping a question: keep it with the answer its correction taught.
pub open spec fn spec_after_skip(
    question_type: QuestionType,
    language: String,
    question: String,
    learnt: String,
) -> StoreChange {
    StoreChange::Insert { question, answer: learnt, language, question_type }
}

pub fn after_skip(question_type: QuestionType, language: String, question: String, learnt: String) -> (c:
    StoreChange)
    ensures
        c == spec_after_skip(question_type, language, question, learnt),
{
    StoreChange::Insert { question, answer: learnt, language, question_type }
}

/// After answering from the store under `id`: keep the correction, if the answer was wrong.
pub open spec fn spec_after_answer(id: i32, correction: Option<String>) -> StoreChange {
    match correction {
        Some(a) => StoreChange::Update { id, answer: a },
        None => StoreChange::Keep,
    }
}

pub fn after_answer(id: i32, correction: Option<String>) -> (c: StoreChange)
    ensures
        c == spec_after_answer(id, correction),
{
    match correction {
        Some(a) => StoreChange::Update { id, answer: a },
        None => StoreChange::Keep,
    }
}

/// After finding the answer `found` of a pairs item by trying: replace the answer the
/// store held for it, or keep the item if the store held none.
pub fn after_match_item(stored: Option<Question>, question: String, language: String, found: String) -> (c:
    StoreChange)
    ensures
        match stored {
            Some(q) => c == (StoreChange::Update { id: q.id, answer: found }),
            None => c == (StoreChange::Insert {
                question,
                answer: found,
                language,
                question_type: QuestionType::MatchPairs,
            }),
        },
{
    match stored {
        Some(q) => StoreChange::Update { id: q.id, answer: found },
        None => StoreChange::Insert {
            question,
            answer: found,
            language,
            question_type: QuestionType::MatchPairs,
        },
    }
}

impl StoreChange {
    /// The record to add to the store, for an insertion.
    pub fn new_post(&self) -> (p: Option<NewPost<'_>>)
        ensures
            match *self {
                StoreChange::Insert { question, answer, language, question_type } => p matches Some(
                    n,
                ) && n.question@ == question@ && n.answer@ == answer@ && n.language@ == language@
                    && n.question_type == question_type,
                _ => p is None,
            },
    {
        match self {
            StoreChange::Insert { question, answer, language, question_type } => Some(
                NewPost {
                    question: question.as_str(),
                    answer: answer.as_str(),
                    language: language.as_str(),
                    question_type: *question_type,
                },
            ),
            _ => None,
        }
    }
}

/// Every question met is kept with its answer: a question page leads to answering that
/// question; with nothing stored for it, the question is skipped and then kept, under its
/// kind and language, with the answer its correction taught; with a record stored, the
/// stored answer is tried, and a correction of it replaces it in that record.
pub proof fn lemma_questions_are_kept(
    question_type: QuestionType,
    language: String,
    question: String,
    learnt: String,
    stored: Question,
    correction: String,
)
    ensures
        is_action_for(
            State::Question(question_type, language, question),
            Action::Answer(question_type, language, question),
        ),
        spec_attempt(question_type, None) is Skip,
        spec_after_skip(question_type, language, question, learnt) == (StoreChange::Insert {
            question,
            answer: learnt,
            language,
            question_type,
        }),
        spec_attempt(question_type, Some(stored)) == (Attempt::Answer {
            id: stored.id,
            question_type: stored.question_type,
            answer: stored.answer,
        }),
        spec_after_answer(stored.id, Some(correction)) == (StoreChange::Update {
            id: stored.id,
            answer: correction,
        }),
{
}

/// A question met for the first time is skipped learning only the underlined part of the
/// correction exactly when its kind is answered by tapping pieces or by typing a completed
/// translation; every other kind learns the whole correction.
pub proof fn lemma_skips_learn_what_is_answered(t: QuestionType)
    ensures
        spec_attempt(t, None) == (Attempt::Skip {
            underline: t == QuestionType::TapComplete || t == QuestionType::CompleteTranslation,
        }),
        spec_attempt(t, None) == (Attempt::Skip {
            underline: spec_answer_method(t) == Some(AnswerMethod::ChooseAnswerUnderline)
                || spec_answer_method(t) == Some(AnswerMethod::TypeTranslationComplete),
        }),
{
}

} // verus!
