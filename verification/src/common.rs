//! The kinds of question the course asks.
use crate::text::same_text;
use vstd::prelude::*;

verus! {

/// The kinds of question that the course presents and that are kept in the store.
#[derive(Debug, Clone, Copy, PartialEq, Eq, Structural)]
pub enum QuestionType {
    Translate,
    Select,
    Assist,
    TapComplete,
    Name,
    MatchPairs,
    CompleteTranslation,
    GapFill,
}

/// The text under which a kind of question is kept in the store.
pub open spec fn sql_text(t: QuestionType) -> Seq<char> {
    match t {
        QuestionType::Translate => "Translate"@,
        QuestionType::Select => "Select"@,
        QuestionType::Assist => "Assist"@,
        QuestionType::TapComplete => "TapComplete"@,
        QuestionType::Name => "Name"@,
        QuestionType::MatchPairs => "MatchPairs"@,
        QuestionType::CompleteTranslation => "CompleteTranslation"@,
        QuestionType::GapFill => "GapFill"@,
    }
}

/// The kind of question kept under a text, if any.
pub open spec fn type_of_sql_text(s: Seq<char>) -> Option<QuestionType> {
    if s == "Translate"@ {
        Some(QuestionType::Translate)
    } else if s == "Select"@ {
        Some(QuestionType::Select)
    } else if s == "Assist"@ {
        Some(QuestionType::Assist)
    } else if s == "TapComplete"@ {
        Some(QuestionType::TapComplete)
    } else if s == "Name"@ {
        Some(QuestionType::Name)
    } else if s == "MatchPairs"@ {
        Some(QuestionType::MatchPairs)
    } else if s == "CompleteTranslation"@ {
        Some(QuestionType::CompleteTranslation)
    } else if s == "GapFill"@ {
        Some(QuestionType::GapFill)
    } else {
        None
    }
}

impl QuestionType {
    /// Whether, for this kind, only the underlined part of a corrected answer is the answer.
    pub open spec fn spec_check_underline(self) -> bool {
        self is TapComplete || self is CompleteTranslation
    }

    pub fn check_underline(&self) -> (b: bool)
        ensures
            b == self.spec_check_underline(),
    {
        match self {
            QuestionType::TapComplete => true,
            QuestionType::CompleteTranslation => true,
            _ => false,
        }
    }

    /// The text this kind is stored as.
    pub fn to_sql_text(&self) -> (s: &'static str)
        ensures
            s@ == sql_text(*self),
    {
        match self {
            QuestionType::Translate => "Translate",
            QuestionType::Select => "Select",
            QuestionType::Assist => "Assist",
            QuestionType::TapComplete => "TapComplete",
            QuestionType::Name => "Name",
            QuestionType::MatchPairs => "MatchPairs",
            QuestionType::CompleteTranslation => "CompleteTranslation",
            QuestionType::GapFill => "GapFill",
        }
    }

    /// The kind stored as `s`; `None` for a text no kind is stored as.
    pub fn from_sql_text(s: &str) -> (t: Option<QuestionType>)
        ensures
            t == type_of_sql_text(s@),
    {
        if same_text(s, "Translate") {
            Some(QuestionType::Translate)
        } else if same_text(s, "Select") {
            Some(QuestionType::Select)
        } else if same_text(s, "Assist") {
            Some(QuestionType::Assist)
        } else if same_text(s, "TapComplete") {
            Some(QuestionType::TapComplete)
        } else if same_text(s, "Name") {
            Some(QuestionType::Name)
        } else if same_text(s, "MatchPairs") {
            Some(QuestionType::MatchPairs)
        } else if same_text(s, "CompleteTranslation") {
            Some(QuestionType::CompleteTranslation)
        } else if same_text(s, "GapFill") {
            Some(QuestionType::GapFill)
        } else {
            None
        }
    }
}

/// A kind of question read back from the store is the kind that was written.
pub proof fn lemma_sql_text_round_trip(t: QuestionType)
    ensures
        type_of_sql_text(sql_text(t)) == Some(t),
{
    reveal_strlit("Translate");
    reveal_strlit("Select");
    reveal_strlit("Assist");
    reveal_strlit("TapComplete");
    reveal_strlit("Name");
    reveal_strlit("MatchPairs");
    reveal_strlit("CompleteTranslation");
    reveal_strlit("GapFill");
    assert("Translate"@.len() == 9);
    assert("Select"@.len() == 6 && "Assist"@.len() == 6 && "Select"@[0] != "Assist"@[0]);
    assert("TapComplete"@.len() == 11);
    assert("Name"@.len() == 4);
    assert("MatchPairs"@.len() == 10);
    assert("CompleteTranslation"@.len() == 19);
    assert("GapFill"@.len() == 7);
}

} // verus!
