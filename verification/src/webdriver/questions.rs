//! Answering questions: finding the choice to click, reading corrections, and the text
//! an answer is kept as.
//!
//! An answer made of several pieces (the underlined words of a correction, the tokens of a
//! tap-to-complete question) is kept as its pieces joined with commas, and split at the
//! commas again when the question comes back (`lemma_answer_parts_round_trip`).
use crate::text::{
    glue, has_prefix, has_substring, has_suffix, join_with, joined, lowercase, split_on,
    split_with, views, to_lowercase, same_text, contains, ends_with, first_piece, free_of,
    lemma_split_join, lemma_join_split, lemma_split_shape,
};
use vstd::prelude::*;
use vstd::utf8::encode_utf8;

verus! {

/// The first index of `texts` whose text is `target`, if any.
pub open spec fn is_first_equal(texts: Seq<Seq<char>>, target: Seq<char>, r: Option<usize>) -> bool {
    match r {
        Some(i) => i < texts.len() && texts[i as int] == target && forall|j: int|
            0 <= j < i ==> texts[j] != target,
        None => forall|j: int| 0 <= j < texts.len() ==> texts[j] != target,
    }
}

/// Which of the choices on the page reads exactly as the answer: the first such, if any.
pub fn position_of(texts: &Vec<String>, answer: &str) -> (r: Option<usize>)
    ensures
        is_first_equal(views(texts@), answer@, r),
{
    let mut i: usize = 0;
    while i < texts.len()
        invariant
            i <= texts.len(),
            forall|j: int| 0 <= j < i ==> views(texts@)[j] != answer@,
        decreases texts.len() - i,
    {
        if same_text(texts[i].as_str(), answer) {
            return Some(i);
        }
        i = i + 1;
    }
    None
}

/// Which of the buttons on the page ends with `text`: the first such, if any.
pub fn position_ending_with(texts: &Vec<String>, text: &str) -> (r: Option<usize>)
    ensures
        match r {
            Some(i) => i < texts.len() && has_suffix(texts@[i as int]@, text@) && forall|j: int|
                0 <= j < i ==> !has_suffix(texts@[j]@, text@),
            None => forall|j: int| 0 <= j < texts.len() ==> !has_suffix(texts@[j]@, text@),
        },
{
    let mut i: usize = 0;
    while i < texts.len()
        invariant
            i <= texts.len(),
            forall|j: int| 0 <= j < i ==> !has_suffix(texts@[j]@, text@),
        decreases texts.len() - i,
    {
        if ends_with(texts[i].as_str(), text) {
            return Some(i);
        }
        i = i + 1;
    }
    None
}

/// The answer kept for the underlined pieces of a correction: the pieces joined with commas.
pub fn join_answer_parts(parts: &Vec<String>) -> (answer: String)
    ensures
        answer@ == joined(views(parts@), ','),
{
    join_with(parts, ',')
}

/// The correction learnt from the underlined pieces of a wrong answer's correction;
/// `None` where nothing is underlined.
pub fn underlined_answer(parts: &Vec<String>) -> (answer: Option<String>)
    ensures
        parts.len() == 0 ==> answer is None,
        parts.len() > 0 ==> (answer matches Some(a) && a@ == joined(views(parts@), ',')),
{
    if parts.len() == 0 {
        None
    } else {
        Some(join_with(parts, ','))
    }
}

/// The pieces of a kept answer to type or tap one after another: the text between its commas.
pub fn answer_parts(answer: &str) -> (parts: Vec<String>)
    ensures
        views(parts@) == split_on(answer@, ','),
{
    split_with(answer, ',')
}

/// An answer kept from pieces without commas splits into those same pieces, and the pieces
/// of any kept answer, joined again, give back the answer.
pub proof fn lemma_answer_parts_round_trip(parts: Seq<Seq<char>>, answer: Seq<char>)
    requires
        parts.len() >= 1,
        free_of(parts, ','),
    ensures
        split_on(joined(parts, ','), ',') == parts,
        joined(split_on(answer, ','), ',') == answer,
        free_of(split_on(answer, ','), ','),
{
    lemma_split_join(parts, ',');
    lemma_join_split(answer, ',');
    lemma_split_shape(answer, ',');
}

/// The word in a correction's heading that marks a list of accepted answers.
pub open spec fn solutions_word() -> Seq<char> {
    "solutions"@
}

/// The answer read from a correction with heading `header` and body `body`: where the
/// heading, in lower case, speaks of solutions, the first of the comma-separated answers;
/// otherwise the whole body.
pub open spec fn spec_corrected_answer(header: Seq<char>, body: Seq<char>) -> Seq<char> {
    if has_substring(lowercase(header), solutions_word()) {
        split_on(body, ',')[0]
    } else {
        body
    }
}

pub fn corrected_answer(header: &str, body: &str) -> (answer: String)
    ensures
        answer@ == spec_corrected_answer(header@, body@),
{
    let lower = to_lowercase(header);
    if contains(lower.as_str(), "solutions") {
        first_piece(body, ',')
    } else {
        body.to_owned()
    }
}

/// Whether the keyboard toggle, in lower case, offers typing instead of tapping.
pub open spec fn spec_wants_keyboard(toggle_text: Seq<char>) -> bool {
    lowercase(toggle_text) == "use keyboard"@ || lowercase(toggle_text) == "make harder"@
}

pub fn wants_keyboard(toggle_text: &str) -> (b: bool)
    ensures
        b == spec_wants_keyboard(toggle_text@),
{
    let lower = to_lowercase(toggle_text);
    same_text(lower.as_str(), "use keyboard") || same_text(lower.as_str(), "make harder")
}

/// A `span` seen on a tip page: its markup and its text.
pub struct TipSpan {
    pub outer_html: String,
    pub text: String,
}

/// A span with no attributes: its markup begins with a bare opening tag.
pub open spec fn is_bare_span(s: TipSpan) -> bool {
    has_prefix(s.outer_html@, "<span>"@)
}

/// The texts of the bare spans, in page order.
pub open spec fn bare_texts(spans: Seq<TipSpan>) -> Seq<Seq<char>>
    decreases spans.len(),
{
    if spans.len() == 0 {
        Seq::empty()
    } else if is_bare_span(spans.last()) {
        bare_texts(spans.drop_last()).push(spans.last().text@)
    } else {
        bare_texts(spans.drop_last())
    }
}

/// The length of a text in bytes of UTF-8 (`str::len`).
pub open spec fn byte_len(t: Seq<char>) -> usize {
    encode_utf8(t).len() as usize
}

/// `m` is the first of the shortest texts of `ts`.
pub open spec fn is_first_shortest(ts: Seq<Seq<char>>, m: int) -> bool {
    &&& 0 <= m < ts.len()
    &&& forall|j: int| 0 <= j < ts.len() ==> byte_len(ts[m]) <= byte_len(#[trigger] ts[j])
    &&& forall|j: int| 0 <= j < m ==> byte_len(#[trigger] ts[j]) > byte_len(ts[m])
}

/// The likely question of a tip page: of the bare spans, the first of the shortest, when
/// there are from one to four of them; `None` otherwise, when the page is not understood.
pub fn tip_prompt(spans: &Vec<TipSpan>) -> (prompt: Option<String>)
    ensures
        ({
            let ts = bare_texts(spans@);
            if ts.len() == 0 || ts.len() > 4 {
                prompt is None
            } else {
                (prompt matches Some(p) && exists|m: int| is_first_shortest(ts, m) && p@ == ts[m])
            }
        }),
{
    let mut bare: Vec<String> = Vec::new();
    let mut i: usize = 0;
    while i < spans.len()
        invariant
            i <= spans.len(),
            views(bare@) == bare_texts(spans@.take(i as int)),
        decreases spans.len() - i,
    {
        proof {
            assert(spans@.take(i + 1).drop_last() =~= spans@.take(i as int));
            assert(spans@.take(i + 1).last() == spans@[i as int]);
        }
        let ghost before = bare@;
        if crate::text::starts_with(spans[i].outer_html.as_str(), "<span>") {
            bare.push(spans[i].text.clone());
            assert(views(bare@) =~= views(before).push(spans@[i as int].text@));
        }
        i = i + 1;
    }
    assert(spans@.take(spans.len() as int) =~= spans@);
    let ghost ts = views(bare@);
    if bare.len() == 0 || bare.len() > 4 {
        return None;
    }
    let mut m: usize = 0;
    let mut best: usize = bare[0].as_str().len();
    let mut k: usize = 1;
    while k < bare.len()
        invariant
            1 <= k <= bare.len(),
            ts == views(bare@),
            m < k,
            best == byte_len(ts[m as int]),
            forall|j: int| 0 <= j < k ==> byte_len(ts[m as int]) <= byte_len(#[trigger] ts[j]),
            forall|j: int| 0 <= j < m ==> byte_len(#[trigger] ts[j]) > byte_len(ts[m as int]),
        decreases bare.len() - k,
    {
        let len = bare[k].as_str().len();
        assert(len == byte_len(ts[k as int]));
        if len < best {
            m = k;
            best = len;
        }
        k = k + 1;
    }
    assert(is_first_shortest(ts, m as int));
    Some(bare[m].clone())
}

/// Which choice to click on a tip page: the first whose text occurs in the likely question,
/// or else the last choice.
pub fn tip_choice(prompt: &str, choices: &Vec<String>) -> (i: usize)
    requires
        choices.len() > 0,
    ensures
        i < choices.len(),
        has_substring(prompt@, choices@[i as int]@) || i == choices.len() - 1,
        forall|j: int| 0 <= j < i ==> !has_substring(prompt@, choices@[j]@),
{
    let mut i: usize = 0;
    while i < choices.len()
        invariant
            i <= choices.len(),
            forall|j: int| 0 <= j < i ==> !has_substring(prompt@, choices@[j]@),
        decreases choices.len() - i,
    {
        if contains(prompt, choices[i].as_str()) || i == choices.len() - 1 {
            return i;
        }
        i = i + 1;
    }
    i - 1
}

/// An item of a pairs question with the answer the store holds for it, if any.
#[derive(Clone, Debug, PartialEq)]
pub struct MatchPair {
    pub question: String,
    pub answer: Option<String>,
}

impl MatchPair {
    /// A copy of the item.
    pub fn copy(&self) -> (r: MatchPair)
        ensures
            r == *self,
    {
        MatchPair {
            question: self.question.clone(),
            answer: match &self.answer {
                Some(a) => Some(a.clone()),
                None => None,
            },
        }
    }
}

/// The items without a known answer, in order.
pub open spec fn unanswered(pairs: Seq<MatchPair>) -> Seq<MatchPair>
    decreases pairs.len(),
{
    if pairs.len() == 0 {
        Seq::empty()
    } else if pairs.last().answer is None {
        unanswered(pairs.drop_last()).push(pairs.last())
    } else {
        unanswered(pairs.drop_last())
    }
}

/// The items with a known answer, in order.
pub open spec fn answered(pairs: Seq<MatchPair>) -> Seq<MatchPair>
    decreases pairs.len(),
{
    if pairs.len() == 0 {
        Seq::empty()
    } else if pairs.last().answer is Some {
        answered(pairs.drop_last()).push(pairs.last())
    } else {
        answered(pairs.drop_last())
    }
}

/// The order in which the items of a pairs question are worked: first those without a
/// known answer, then those with one, each group in its given order.
pub fn match_order(pairs: Vec<MatchPair>) -> (order: Vec<MatchPair>)
    ensures
        order@ == unanswered(pairs@) + answered(pairs@),
{
    let mut first: Vec<MatchPair> = Vec::new();
    let mut second: Vec<MatchPair> = Vec::new();
    let mut i: usize = 0;
    while i < pairs.len()
        invariant
            i <= pairs.len(),
            first@ == unanswered(pairs@.take(i as int)),
            second@ == answered(pairs@.take(i as int)),
        decreases pairs.len() - i,
    {
        proof {
            assert(pairs@.take(i + 1).drop_last() =~= pairs@.take(i as int));
            assert(pairs@.take(i + 1).last() == pairs@[i as int]);
        }
        let p = pairs[i].copy();
        if p.answer.is_none() {
            first.push(p);
        } else {
            second.push(p);
        }
        i = i + 1;
    }
    assert(pairs@.take(pairs.len() as int) =~= pairs@);
    let mut order = first;
    let mut j: usize = 0;
    let ghost head = order@;
    while j < second.len()
        invariant
            j <= second.len(),
            order@ == head + second@.take(j as int),
        decreases second.len() - j,
    {
        order.push(second[j].copy());
        assert(second@.take(j + 1) =~= second@.take(j as int).push(second@[j as int]));
        j = j + 1;
    }
    assert(second@.take(second.len() as int) =~= second@);
    order
}

/// Working the items in `match_order` works each item exactly once: the order holds the
/// same items as many times each, those without a known answer all before those with one.
pub proof fn lemma_match_order_permutes(pairs: Seq<MatchPair>)
    ensures
        (unanswered(pairs) + answered(pairs)).to_multiset() == pairs.to_multiset(),
        forall|i: int| 0 <= i < unanswered(pairs).len() ==> (#[trigger] unanswered(pairs)[i]).answer is None,
        forall|i: int| 0 <= i < answered(pairs).len() ==> (#[trigger] answered(pairs)[i]).answer is Some,
    decreases pairs.len(),
{
    broadcast use vstd::seq_lib::group_to_multiset_ensures;
    vstd::seq_lib::lemma_multiset_commutative(unanswered(pairs), answered(pairs));
    if pairs.len() > 0 {
        let d = pairs.drop_last();
        lemma_match_order_permutes(d);
        vstd::seq_lib::lemma_multiset_commutative(unanswered(d), answered(d));
        assert(d.push(pairs.last()) =~= pairs);
        if pairs.last().answer is None {
            assert(forall|i: int| 0 <= i < unanswered(d).len() ==> unanswered(pairs)[i] == unanswered(d)[i]);
        } else {
            assert(forall|i: int| 0 <= i < answered(d).len() ==> answered(pairs)[i] == answered(d)[i]);
        }
        assert((unanswered(pairs) + answered(pairs)).to_multiset() =~= pairs.to_multiset());
    } else {
        assert(unanswered(pairs) + answered(pairs) =~= pairs);
    }
}

/// What to do next with an item of a pairs question.
#[derive(Clone, Debug, PartialEq)]
pub enum MatchMove {
    /// Try the answer the store holds.
    TryKnown(String),
    /// Try the answers on the right, one by one, until one pairs.
    Search,
    /// The item is paired.
    Paired,
}

/// The next move for `pair`: `known_paired` is `None` before any move, and tells after
/// trying the known answer whether it paired.
pub fn match_move(pair: &MatchPair, known_paired: Option<bool>) -> (m: MatchMove)
    ensures
        match known_paired {
            None => match pair.answer {
                Some(a) => m == MatchMove::TryKnown(a),
                None => m == MatchMove::Search,
            },
            Some(true) => m == MatchMove::Paired,
            Some(false) => m == MatchMove::Search,
        },
{
    match known_paired {
        None => match &pair.answer {
            Some(a) => MatchMove::TryKnown(a.clone()),
            None => MatchMove::Search,
        },
        Some(true) => MatchMove::Paired,
        Some(false) => MatchMove::Search,
    }
}

/// The report of a pairs item for which no answer on the right pairs.
pub fn no_answer_message(question: &str) -> (m: String)
    ensures
        m@ == "Could not find answer for "@ + question@,
{
    glue("Could not find answer for ", question)
}

/// The selector of the buttons of one column of a pairs question: the left column holds
/// the questions, the right one the answers.
pub open spec fn spec_column_selector(left: bool) -> Seq<char> {
    "[data-test=\"challenge challenge-match\"] > div > div > div > div > div:nth-child("@ + (if left {
        "1"@
    } else {
        "2"@
    }) + ") > div > button"@
}

pub fn column_selector(left: bool) -> (s: String)
    ensures
        s@ == spec_column_selector(left),
{
    let head = glue(
        "[data-test=\"challenge challenge-match\"] > div > div > div > div > div:nth-child(",
        if left {
            "1"
        } else {
            "2"
        },
    );
    glue(head.as_str(), ") > div > button")
}

/// The selector of the button whose `data-test` attribute is `data_test`.
pub fn button_selector(data_test: &str) -> (s: String)
    ensures
        s@ == "button[data-test=\""@ + data_test@ + "\"]"@,
{
    let head = glue("button[data-test=\"", data_test);
    glue(head.as_str(), "\"]")
}

/// Whether a lesson's start button is that of a lesson already done, offered for practice.
pub fn is_practice_button(text: &str) -> (b: bool)
    ensures
        b == has_substring(text@, "PRACTICE"@),
{
    contains(text, "PRACTICE")
}

} // verus!
