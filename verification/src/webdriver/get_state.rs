//! Working out what the course page shows.
//!
//! The page is examined one element at a time (`Probe`), each look deciding what to look
//! for next (`next_step`), until the kind of page is known (`PageKind`). On a challenge
//! page the challenge's `data-test` attribute tells its kind (`challenge_kind`), and the
//! page's address tells the language of the lesson (`lesson_language`).
use crate::common::QuestionType;
use crate::text::{
    after_prefix, concat_all, concatenated, first_piece, has_char, has_prefix, has_substring,
    contains, same_text, split_on, starts_with, starts_with_line, trim_end, trimmed_end, views,
};
use vstd::prelude::*;

verus! {

/// What the page currently asks of the bot.
#[derive(Clone, Debug, PartialEq)]
pub enum State {
    StartLanguage,
    StartLesson,
    /// - `0`: The kind of question
    /// - `1`: The language
    /// - `2`: The question itself
    Question(QuestionType, String, String),
    /// The items on the left of a pairs question, and the language.
    MatchQuestion(Vec<String>, String),
    JustClickNext,
    Fuckd,
    UnknownQuestionType(String),
    IgnoreQuestion,
    PlusScreen,
    HereIsATip,
    Loading,
    Legendary,
}

/// An element looked for on the page.
#[derive(Clone, Copy, Debug, PartialEq, Eq, Structural)]
pub enum Probe {
    /// The skill tree of the course overview.
    SkillTree,
    /// A heading inside the skill tree.
    SkillTreeHeading,
    /// The lesson's "next" button.
    NextButton,
    /// The spinner inside the "next" button while the lesson loads.
    NextButtonSpinner,
    /// The element holding a challenge.
    ChallengeDiv,
    /// The "no thanks" button of the subscription offer.
    PlusNoThanks,
    /// The promotion of the final level.
    FinalLevelPromo,
}

/// The kinds of page.
#[derive(Clone, Copy, Debug, PartialEq, Eq, Structural)]
pub enum PageKind {
    StartLanguage,
    StartLesson,
    Loading,
    Challenge,
    JustClickNext,
    PlusScreen,
    Legendary,
    Unrecognised,
}

/// What to do after a look: look for another element, or conclude.
#[derive(Clone, Copy, Debug, PartialEq, Eq, Structural)]
pub enum ProbeStep {
    Look(Probe),
    Conclude(PageKind),
}

/// The next step once `probe` was looked for and `found` tells whether it is there.
pub open spec fn step_after(probe: Probe, found: bool) -> ProbeStep {
    match probe {
        Probe::SkillTree => if found {
            ProbeStep::Look(Probe::SkillTreeHeading)
        } else {
            ProbeStep::Look(Probe::NextButton)
        },
        Probe::SkillTreeHeading => if found {
            ProbeStep::Conclude(PageKind::StartLanguage)
        } else {
            ProbeStep::Conclude(PageKind::StartLesson)
        },
        Probe::NextButton => if found {
            ProbeStep::Look(Probe::NextButtonSpinner)
        } else {
            ProbeStep::Look(Probe::PlusNoThanks)
        },
        Probe::NextButtonSpinner => if found {
            ProbeStep::Conclude(PageKind::Loading)
        } else {
            ProbeStep::Look(Probe::ChallengeDiv)
        },
        Probe::ChallengeDiv => if found {
            ProbeStep::Conclude(PageKind::Challenge)
        } else {
            ProbeStep::Conclude(PageKind::JustClickNext)
        },
        Probe::PlusNoThanks => if found {
            ProbeStep::Conclude(PageKind::PlusScreen)
        } else {
            ProbeStep::Look(Probe::FinalLevelPromo)
        },
        Probe::FinalLevelPromo => if found {
            ProbeStep::Conclude(PageKind::Legendary)
        } else {
            ProbeStep::Conclude(PageKind::Unrecognised)
        },
    }
}

/// The kind of a page, `page` telling for each element whether it is there.
pub open spec fn page_kind(page: spec_fn(Probe) -> bool) -> PageKind {
    if page(Probe::SkillTree) {
        if page(Probe::SkillTreeHeading) {
            PageKind::StartLanguage
        } else {
            PageKind::StartLesson
        }
    } else if page(Probe::NextButton) {
        if page(Probe::NextButtonSpinner) {
            PageKind::Loading
        } else if page(Probe::ChallengeDiv) {
            PageKind::Challenge
        } else {
            PageKind::JustClickNext
        }
    } else if page(Probe::PlusNoThanks) {
        PageKind::PlusScreen
    } else if page(Probe::FinalLevelPromo) {
        PageKind::Legendary
    } else {
        PageKind::Unrecognised
    }
}

/// Where following `step_after` from `probe` on `page` ends within `fuel` looks.
pub open spec fn walk(probe: Probe, page: spec_fn(Probe) -> bool, fuel: nat) -> Option<PageKind>
    decreases fuel,
{
    if fuel == 0 {
        None
    } else {
        match step_after(probe, page(probe)) {
            ProbeStep::Conclude(k) => Some(k),
            ProbeStep::Look(p) => walk(p, page, (fuel - 1) as nat),
        }
    }
}

/// The element looked for first.
pub fn first_probe() -> (p: Probe)
    ensures
        p == Probe::SkillTree,
{
    Probe::SkillTree
}

/// The step that follows a look for `probe`.
pub fn next_step(probe: Probe, found: bool) -> (s: ProbeStep)
    ensures
        s == step_after(probe, found),
{
    match probe {
        Probe::SkillTree => if found {
            ProbeStep::Look(Probe::SkillTreeHeading)
        } else {
            ProbeStep::Look(Probe::NextButton)
        },
        Probe::SkillTreeHeading => if found {
            ProbeStep::Conclude(PageKind::StartLanguage)
        } else {
            ProbeStep::Conclude(PageKind::StartLesson)
        },
        Probe::NextButton => if found {
            ProbeStep::Look(Probe::NextButtonSpinner)
        } else {
            ProbeStep::Look(Probe::PlusNoThanks)
        },
        Probe::NextButtonSpinner => if found {
            ProbeStep::Conclude(PageKind::Loading)
        } else {
            ProbeStep::Look(Probe::ChallengeDiv)
        },
        Probe::ChallengeDiv => if found {
            ProbeStep::Conclude(PageKind::Challenge)
        } else {
            ProbeStep::Conclude(PageKind::JustClickNext)
        },
        Probe::PlusNoThanks => if found {
            ProbeStep::Conclude(PageKind::PlusScreen)
        } else {
            ProbeStep::Look(Probe::FinalLevelPromo)
        },
        Probe::FinalLevelPromo => if found {
            ProbeStep::Conclude(PageKind::Legendary)
        } else {
            ProbeStep::Conclude(PageKind::Unrecognised)
        },
    }
}

/// Looking at the page one element at a time, from `first_probe` and by `next_step`,
/// concludes within four looks, and concludes the kind of the page.
pub proof fn lemma_probing_classifies(page: spec_fn(Probe) -> bool)
    ensures
        walk(Probe::SkillTree, page, 4) == Some(page_kind(page)),
{
    reveal_with_fuel(walk, 5);
}

/// The state of a page of a kind other than a challenge; `None` for a challenge, whose
/// state depends on the challenge.
pub open spec fn spec_page_state(kind: PageKind) -> Option<State> {
    match kind {
        PageKind::StartLanguage => Some(State::StartLanguage),
        PageKind::StartLesson => Some(State::StartLesson),
        PageKind::Loading => Some(State::Loading),
        PageKind::Challenge => None,
        PageKind::JustClickNext => Some(State::JustClickNext),
        PageKind::PlusScreen => Some(State::PlusScreen),
        PageKind::Legendary => Some(State::Legendary),
        PageKind::Unrecognised => Some(State::Fuckd),
    }
}

pub fn page_state(kind: PageKind) -> (s: Option<State>)
    ensures
        s == spec_page_state(kind),
{
    match kind {
        PageKind::StartLanguage => Some(State::StartLanguage),
        PageKind::StartLesson => Some(State::StartLesson),
        PageKind::Loading => Some(State::Loading),
        PageKind::Challenge => None,
        PageKind::JustClickNext => Some(State::JustClickNext),
        PageKind::PlusScreen => Some(State::PlusScreen),
        PageKind::Legendary => Some(State::Legendary),
        PageKind::Unrecognised => Some(State::Fuckd),
    }
}

/// What the bot makes of a page, for every page: at the skill tree it starts a language
/// where the tree has a heading and a lesson otherwise; on a lesson page it waits while the
/// next button spins, reads the challenge where there is one, and clicks next where there
/// is none; it declines the subscription offer, dismisses the final-level promotion, and
/// calls any other page unrecognised.
pub proof fn lemma_page_states(page: spec_fn(Probe) -> bool)
    ensures
        page(Probe::SkillTree) && page(Probe::SkillTreeHeading) ==> spec_page_state(page_kind(page))
            == Some(State::StartLanguage),
        page(Probe::SkillTree) && !page(Probe::SkillTreeHeading) ==> spec_page_state(
            page_kind(page),
        ) == Some(State::StartLesson),
        !page(Probe::SkillTree) && page(Probe::NextButton) && page(Probe::NextButtonSpinner)
            ==> spec_page_state(page_kind(page)) == Some(State::Loading),
        !page(Probe::SkillTree) && page(Probe::NextButton) && !page(Probe::NextButtonSpinner)
            && page(Probe::ChallengeDiv) ==> spec_page_state(page_kind(page)) is None,
        !page(Probe::SkillTree) && page(Probe::NextButton) && !page(Probe::NextButtonSpinner)
            && !page(Probe::ChallengeDiv) ==> spec_page_state(page_kind(page)) == Some(
            State::JustClickNext,
        ),
        !page(Probe::SkillTree) && !page(Probe::NextButton) && page(Probe::PlusNoThanks)
            ==> spec_page_state(page_kind(page)) == Some(State::PlusScreen),
        !page(Probe::SkillTree) && !page(Probe::NextButton) && !page(Probe::PlusNoThanks)
            && page(Probe::FinalLevelPromo) ==> spec_page_state(page_kind(page)) == Some(
            State::Legendary,
        ),
        !page(Probe::SkillTree) && !page(Probe::NextButton) && !page(Probe::PlusNoThanks)
            && !page(Probe::FinalLevelPromo) ==> spec_page_state(page_kind(page)) == Some(
            State::Fuckd,
        ),
{
}

/// Different kinds of page lead to different states: in particular a page is called
/// unrecognised (`Fuckd`) only when it is of no known kind, and only a challenge page
/// has its state read from the challenge.
pub proof fn lemma_page_states_distinct(a: PageKind, b: PageKind)
    ensures
        spec_page_state(a) == spec_page_state(b) ==> a == b,
        spec_page_state(a) == Some(State::Fuckd) <==> a == PageKind::Unrecognised,
        spec_page_state(a) is None <==> a == PageKind::Challenge,
{
}

/// The kinds of challenge.
#[derive(Clone, Debug, PartialEq)]
pub enum ChallengeKind {
    Select,
    Translate,
    Assist,
    TapComplete,
    CompleteReverseTranslation,
    Match,
    /// A challenge that needs listening or speaking, which is skipped.
    Listening,
    Name,
    GapFill,
    /// A page without a challenge name: a tip.
    Tip,
    Unknown(String),
}

/// The text before a challenge's name in its `data-test` attribute.
pub open spec fn challenge_marker() -> Seq<char> {
    "challenge "@
}

/// The name read from a challenge's `data-test` attribute (`None` where it has none).
pub open spec fn challenge_name(attr: Option<Seq<char>>) -> Seq<char> {
    let a = match attr {
        Some(a) => a,
        None => Seq::empty(),
    };
    if has_prefix(a, challenge_marker()) {
        a.skip(challenge_marker().len() as int)
    } else {
        "no-question-data-attribute"@
    }
}

/// The kind of challenge of a known name; `None` for a name of no known kind.
pub open spec fn named_challenge(name: Seq<char>) -> Option<ChallengeKind> {
    if name == "challenge-select"@ {
        Some(ChallengeKind::Select)
    } else if name == "challenge-translate"@ {
        Some(ChallengeKind::Translate)
    } else if name == "challenge-assist"@ {
        Some(ChallengeKind::Assist)
    } else if name == "challenge-tapComplete"@ {
        Some(ChallengeKind::TapComplete)
    } else if name == "challenge-completeReverseTranslation"@ {
        Some(ChallengeKind::CompleteReverseTranslation)
    } else if name == "challenge-match"@ {
        Some(ChallengeKind::Match)
    } else if name == "challenge-listenTap"@ || name == "challenge-listen"@ || name
        == "challenge-speak"@ || name == "challenge-listenComplete"@ {
        Some(ChallengeKind::Listening)
    } else if name == "challenge-name"@ {
        Some(ChallengeKind::Name)
    } else if name == "challenge-gapFill"@ {
        Some(ChallengeKind::GapFill)
    } else if name == "no-question-data-attribute"@ {
        Some(ChallengeKind::Tip)
    } else {
        None
    }
}

/// The attribute of a challenge names it after the marker: the name read from an attribute
/// is what follows the marker; an attribute without the marker, or no attribute, is a tip.
pub proof fn lemma_challenge_names(name: Seq<char>, attr: Option<Seq<char>>)
    ensures
        challenge_name(Some(challenge_marker() + name)) == name,
        (match attr {
            Some(a) => !has_prefix(a, challenge_marker()),
            None => true,
        }) ==> named_challenge(challenge_name(attr)) == Some(ChallengeKind::Tip),
{
    let a = challenge_marker() + name;
    assert(a.take(challenge_marker().len() as int) =~= challenge_marker());
    assert(a.skip(challenge_marker().len() as int) =~= name);
    reveal_strlit("challenge ");
    assert(challenge_marker().len() == 10);
    reveal_strlit("no-question-data-attribute");
    reveal_strlit("challenge-select");
    reveal_strlit("challenge-translate");
    reveal_strlit("challenge-assist");
    reveal_strlit("challenge-tapComplete");
    reveal_strlit("challenge-completeReverseTranslation");
    reveal_strlit("challenge-match");
    reveal_strlit("challenge-listenTap");
    reveal_strlit("challenge-listen");
    reveal_strlit("challenge-speak");
    reveal_strlit("challenge-listenComplete");
    reveal_strlit("challenge-name");
    reveal_strlit("challenge-gapFill");
    assert("no-question-data-attribute"@[0] == 'n');
    assert("challenge-select"@[0] == 'c');
    assert("challenge-translate"@[0] == 'c');
    assert("challenge-assist"@[0] == 'c');
    assert("challenge-tapComplete"@[0] == 'c');
    assert("challenge-completeReverseTranslation"@[0] == 'c');
    assert("challenge-match"@[0] == 'c');
    assert("challenge-listenTap"@[0] == 'c');
    assert("challenge-listen"@[0] == 'c');
    assert("challenge-speak"@[0] == 'c');
    assert("challenge-listenComplete"@[0] == 'c');
    assert("challenge-name"@[0] == 'c');
    assert("challenge-gapFill"@[0] == 'c');
}

/// The view of an optional string.
pub open spec fn opt_view(s: Option<String>) -> Option<Seq<char>> {
    match s {
        Some(s) => Some(s@),
        None => None,
    }
}

/// The kind of a challenge, from its `data-test` attribute.
pub fn challenge_kind(data_test: Option<String>) -> (k: ChallengeKind)
    ensures
        ({
            let name = challenge_name(opt_view(data_test));
            match named_challenge(name) {
                Some(known) => k == known,
                None => k matches ChallengeKind::Unknown(n) && n@ == name,
            }
        }),
{
    let attr: String = match data_test {
        Some(a) => a,
        None => String::new(),
    };
    let name: String = if starts_with(attr.as_str(), "challenge ") {
        after_prefix(attr.as_str(), "challenge ")
    } else {
        "no-question-data-attribute".to_owned()
    };
    let n = name.as_str();
    if same_text(n, "challenge-select") {
        ChallengeKind::Select
    } else if same_text(n, "challenge-translate") {
        ChallengeKind::Translate
    } else if same_text(n, "challenge-assist") {
        ChallengeKind::Assist
    } else if same_text(n, "challenge-tapComplete") {
        ChallengeKind::TapComplete
    } else if same_text(n, "challenge-completeReverseTranslation") {
        ChallengeKind::CompleteReverseTranslation
    } else if same_text(n, "challenge-match") {
        ChallengeKind::Match
    } else if same_text(n, "challenge-listenTap") || same_text(n, "challenge-listen")
        || same_text(n, "challenge-speak") || same_text(n, "challenge-listenComplete") {
        ChallengeKind::Listening
    } else if same_text(n, "challenge-name") {
        ChallengeKind::Name
    } else if same_text(n, "challenge-gapFill") {
        ChallengeKind::GapFill
    } else if same_text(n, "no-question-data-attribute") {
        ChallengeKind::Tip
    } else {
        ChallengeKind::Unknown(name)
    }
}

impl ChallengeKind {
    /// The kind of question a challenge of this kind asks, for those answered from the store.
    pub open spec fn spec_question_type(&self) -> Option<QuestionType> {
        match self {
            ChallengeKind::Select => Some(QuestionType::Select),
            ChallengeKind::Translate => Some(QuestionType::Translate),
            ChallengeKind::Assist => Some(QuestionType::Assist),
            ChallengeKind::TapComplete => Some(QuestionType::TapComplete),
            ChallengeKind::CompleteReverseTranslation => Some(QuestionType::CompleteTranslation),
            ChallengeKind::Name => Some(QuestionType::Name),
            ChallengeKind::GapFill => Some(QuestionType::GapFill),
            _ => None,
        }
    }

    pub fn question_type(&self) -> (t: Option<QuestionType>)
        ensures
            t == self.spec_question_type(),
    {
        match self {
            ChallengeKind::Select => Some(QuestionType::Select),
            ChallengeKind::Translate => Some(QuestionType::Translate),
            ChallengeKind::Assist => Some(QuestionType::Assist),
            ChallengeKind::TapComplete => Some(QuestionType::TapComplete),
            ChallengeKind::CompleteReverseTranslation => Some(QuestionType::CompleteTranslation),
            ChallengeKind::Name => Some(QuestionType::Name),
            ChallengeKind::GapFill => Some(QuestionType::GapFill),
            _ => None,
        }
    }
}

/// Each challenge kind that asks a question asks the question type of its own name
/// (the reverse-translation completion asks a `CompleteTranslation`), no two kinds ask the
/// same type, and the pairs, listening, tip and unknown kinds ask none; a pairs question
/// type is never asked this way.
pub proof fn lemma_challenge_question_types(k: ChallengeKind, l: ChallengeKind)
    ensures
        (k.spec_question_type() == Some(QuestionType::Select)) <==> k is Select,
        (k.spec_question_type() == Some(QuestionType::Translate)) <==> k is Translate,
        (k.spec_question_type() == Some(QuestionType::Assist)) <==> k is Assist,
        (k.spec_question_type() == Some(QuestionType::TapComplete)) <==> k is TapComplete,
        (k.spec_question_type() == Some(QuestionType::CompleteTranslation))
            <==> k is CompleteReverseTranslation,
        (k.spec_question_type() == Some(QuestionType::Name)) <==> k is Name,
        (k.spec_question_type() == Some(QuestionType::GapFill)) <==> k is GapFill,
        k.spec_question_type() != Some(QuestionType::MatchPairs),
        k.spec_question_type() is None <==> (k is Match || k is Listening || k is Tip
            || k is Unknown),
        k.spec_question_type() is Some && k.spec_question_type() == l.spec_question_type() ==> k
            == l,
{
}

/// The state of a challenge page: `text` is the question read for a kind that asks one,
/// `items` the left-hand items of a pairs challenge.
pub fn challenge_state(kind: ChallengeKind, language: String, text: String, items: Vec<String>) -> (s:
    State)
    ensures
        match kind.spec_question_type() {
            Some(t) => s == State::Question(t, language, text),
            None => match kind {
                ChallengeKind::Match => s == State::MatchQuestion(items, language),
                ChallengeKind::Listening => s == State::IgnoreQuestion,
                ChallengeKind::Tip => s == State::HereIsATip,
                ChallengeKind::Unknown(name) => s == State::UnknownQuestionType(name),
                _ => false,
            },
        },
{
    match kind.question_type() {
        Some(t) => State::Question(t, language, text),
        None => match kind {
            ChallengeKind::Match => State::MatchQuestion(items, language),
            ChallengeKind::Listening => State::IgnoreQuestion,
            ChallengeKind::Tip => State::HereIsATip,
            ChallengeKind::Unknown(name) => State::UnknownQuestionType(name),
            _ => State::Fuckd,
        },
    }
}

/// The address every lesson page begins with.
pub open spec fn lesson_prefix() -> Seq<char> {
    "https://www.duolingo.com/skill/"@
}

/// `url` is that of a lesson page: the lesson address followed by the language and a `/`.
pub open spec fn is_lesson_url(url: Seq<char>) -> bool {
    has_prefix(url, lesson_prefix()) && url.skip(lesson_prefix().len() as int).contains('/')
}

/// The language of a lesson page's address: what follows the lesson address, up to the next `/`.
pub open spec fn language_of(url: Seq<char>) -> Seq<char> {
    split_on(url.skip(lesson_prefix().len() as int), '/')[0]
}

/// Whether `url` is the address of a lesson page.
pub fn lesson_url(url: &str) -> (b: bool)
    ensures
        b == is_lesson_url(url@),
{
    if !starts_with(url, "https://www.duolingo.com/skill/") {
        return false;
    }
    let rest = after_prefix(url, "https://www.duolingo.com/skill/");
    has_char(rest.as_str(), '/')
}

/// The language of the lesson at `url`.
pub fn lesson_language(url: &str) -> (lang: String)
    requires
        is_lesson_url(url@),
    ensures
        lang@ == language_of(url@),
{
    let rest = after_prefix(url, "https://www.duolingo.com/skill/");
    first_piece(rest.as_str(), '/')
}

/// The question of a tap-to-complete challenge: the texts of its pieces one after another,
/// without trailing white space.
pub fn tap_complete_text(pieces: &Vec<String>) -> (text: String)
    ensures
        text@ == trimmed_end(concatenated(views(pieces@))),
{
    let all = concat_all(pieces);
    trim_end(all.as_str())
}

/// Whether an item of a pairs challenge reads as its key label, a line break and its text.
pub fn is_labelled_item(text: &str, label: &str) -> (b: bool)
    ensures
        b == has_prefix(text@, label@.push('\n')),
{
    starts_with_line(text, label)
}

/// The text of an item of a pairs challenge, without its key label and line break.
pub fn match_item_text(text: &str, label: &str) -> (item: String)
    requires
        has_prefix(text@, label@.push('\n')),
    ensures
        label@.push('\n') + item@ == text@,
{
    let v = crate::text::chars_of(text);
    let lv = crate::text::chars_of(label);
    let n = lv.len();
    assert(label@.push('\n').len() == n + 1);
    assert(n + 1 <= text@.len());
    let len = v.len();
    assert(n + 1 <= len);
    let item = crate::text::string_of_range(&v, n + 1, v.len());
    assert(label@.push('\n') =~= v@.take(n + 1));
    assert(v@.take(n + 1) + v@.subrange(n + 1, v@.len() as int) =~= v@);
    item
}

/// Whether the keyboard toggle reads as the offer of the harder, typed, exercise.
pub fn offers_harder(toggle_text: &str) -> (b: bool)
    ensures
        b == has_substring(toggle_text@, "HARDER"@),
{
    contains(toggle_text, "HARDER")
}

} // verus!
