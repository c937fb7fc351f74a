use crate::common::QuestionType;
use vstd::prelude::*;

verus! {

/// A question as it is kept in the store, with the answer learnt for it.
pub struct Question {
    pub id: i32,
    pub question: String,
    pub answer: String,
    pub language: String,
    pub question_type: QuestionType,
}

/// A question to be added to the store.
pub struct NewPost<'a> {
    pub question: &'a str,
    pub answer: &'a str,
    pub language: &'a str,
    pub question_type: QuestionType,
}

} // verus!
