//! Character-level text operations, each stated over the `Seq<char>` view of a string.
use vstd::prelude::*;
use vstd::string::StringExecFns;

verus! {

/// `s` begins with `p`.
pub open spec fn has_prefix(s: Seq<char>, p: Seq<char>) -> bool {
    p.len() <= s.len() && s.take(p.len() as int) == p
}

/// `s` ends with `p`.
pub open spec fn has_suffix(s: Seq<char>, p: Seq<char>) -> bool {
    p.len() <= s.len() && s.skip(s.len() - p.len()) == p
}

/// `p` occurs in `s` starting at index `i`.
pub open spec fn occurs_at(s: Seq<char>, p: Seq<char>, i: int) -> bool {
    0 <= i && i + p.len() <= s.len() && s.subrange(i, i + p.len()) == p
}

/// `p` occurs somewhere in `s` (the empty text occurs in every text).
pub open spec fn has_substring(s: Seq<char>, p: Seq<char>) -> bool {
    exists|i: int| occurs_at(s, p, i)
}

/// Unicode's White_Space property, the definition `char::is_whitespace` follows.
pub open spec fn is_white_space(c: char) -> bool {
    ||| '\u{9}' <= c <= '\u{d}'
    ||| c == ' '
    ||| c == '\u{85}'
    ||| c == '\u{a0}'
    ||| c == '\u{1680}'
    ||| '\u{2000}' <= c <= '\u{200a}'
    ||| c == '\u{2028}'
    ||| c == '\u{2029}'
    ||| c == '\u{202f}'
    ||| c == '\u{205f}'
    ||| c == '\u{3000}'
}

/// `s` with its trailing white space removed.
pub open spec fn trimmed_end(s: Seq<char>) -> Seq<char>
    decreases s.len(),
{
    if s.len() > 0 && is_white_space(s.last()) {
        trimmed_end(s.drop_last())
    } else {
        s
    }
}

/// `s` with its leading and trailing white space removed.
pub open spec fn trimmed_start(s: Seq<char>) -> Seq<char>
    decreases s.len(),
{
    if s.len() > 0 && is_white_space(s[0]) {
        trimmed_start(s.drop_first())
    } else {
        s
    }
}

/// `String::push`. Trusted: after the call the string's characters are those before it
/// followed by `c`, as the documentation of `String::push` says.
#[verifier::external_body]
fn push_char(s: &mut String, c: char)
    ensures
        final(s)@ == old(s)@.push(c),
{
    s.push(c);
}

/// The characters of `s`, in order.
pub fn chars_of(s: &str) -> (v: Vec<char>)
    ensures
        v@ == s@,
{
    let mut v: Vec<char> = Vec::new();
    for c in it: s.chars()
        invariant
            v@ == it.seq().take(it.index() as int),
    {
        v.push(c);
    }
    v
}

/// The string made of the characters `v[lo..hi]`.
pub fn string_of_range(v: &Vec<char>, lo: usize, hi: usize) -> (s: String)
    requires
        lo <= hi <= v.len(),
    ensures
        s@ == v@.subrange(lo as int, hi as int),
{
    let mut s = String::new();
    let mut i = lo;
    while i < hi
        invariant
            lo <= i <= hi <= v.len(),
            s@ == v@.subrange(lo as int, i as int),
        decreases hi - i,
    {
        push_char(&mut s, v[i]);
        assert(v@.subrange(lo as int, i + 1) == v@.subrange(lo as int, i as int).push(v@[i as int]));
        i = i + 1;
    }
    s
}

/// Whether `v[at..]` begins with `p`.
fn matches_at(v: &Vec<char>, p: &Vec<char>, at: usize) -> (b: bool)
    requires
        at <= v.len(),
    ensures
        b == occurs_at(v@, p@, at as int),
{
    if p.len() > v.len() - at {
        return false;
    }
    let mut j: usize = 0;
    while j < p.len()
        invariant
            at + p.len() <= v.len(),
            j <= p.len(),
            forall|k: int| 0 <= k < j ==> v@[at + k] == p@[k],
        decreases p.len() - j,
    {
        if v[at + j] != p[j] {
            assert(v@.subrange(at as int, at + p@.len())[j as int] != p@[j as int]);
            return false;
        }
        j = j + 1;
    }
    assert(v@.subrange(at as int, at + p@.len()) =~= p@);
    true
}

/// Whether two texts are equal, character for character.
pub fn same_text(a: &str, b: &str) -> (r: bool)
    ensures
        r == (a@ == b@),
{
    let v = chars_of(a);
    let w = chars_of(b);
    if v.len() != w.len() {
        return false;
    }
    let r = matches_at(&v, &w, 0);
    assert(v@.subrange(0, w@.len() as int) =~= v@);
    r
}

/// `str::starts_with` over characters.
pub fn starts_with(s: &str, p: &str) -> (b: bool)
    ensures
        b == has_prefix(s@, p@),
{
    let v = chars_of(s);
    let q = chars_of(p);
    let b = matches_at(&v, &q, 0);
    assert(b ==> v@.take(q@.len() as int) =~= v@.subrange(0, q@.len() as int));
    assert(has_prefix(v@, q@) ==> v@.take(q@.len() as int) =~= v@.subrange(0, q@.len() as int));
    b
}

/// `str::ends_with` over characters.
pub fn ends_with(s: &str, p: &str) -> (b: bool)
    ensures
        b == has_suffix(s@, p@),
{
    let v = chars_of(s);
    let q = chars_of(p);
    if q.len() > v.len() {
        return false;
    }
    let at = v.len() - q.len();
    let b = matches_at(&v, &q, at);
    assert(v@.skip(at as int) =~= v@.subrange(at as int, at + q@.len()));
    b
}

/// Whether `p` occurs in the characters `v`.
pub fn contains_chars(v: &Vec<char>, p: &Vec<char>) -> (b: bool)
    ensures
        b == has_substring(v@, p@),
{
    if p.len() > v.len() {
        assert(forall|i: int| !occurs_at(v@, p@, i));
        return false;
    }
    let last = v.len() - p.len();
    let mut i: usize = 0;
    while i < last
        invariant
            i <= last,
            last + p.len() == v.len(),
            forall|k: int| 0 <= k < i ==> !occurs_at(v@, p@, k),
        decreases last - i,
    {
        if matches_at(v, p, i) {
            return true;
        }
        i = i + 1;
    }
    let b = matches_at(v, p, last);
    assert(!b ==> forall|k: int| !occurs_at(v@, p@, k));
    b
}

/// `str::contains` with a text pattern.
pub fn contains(s: &str, p: &str) -> (b: bool)
    ensures
        b == has_substring(s@, p@),
{
    let v = chars_of(s);
    let q = chars_of(p);
    contains_chars(&v, &q)
}

/// `char::is_whitespace`.
pub fn is_whitespace(c: char) -> (b: bool)
    ensures
        b == is_white_space(c),
{
    ('\u{9}' <= c && c <= '\u{d}') || c == ' ' || c == '\u{85}' || c == '\u{a0}' || c == '\u{1680}'
        || ('\u{2000}' <= c && c <= '\u{200a}') || c == '\u{2028}' || c == '\u{2029}' || c
        == '\u{202f}' || c == '\u{205f}' || c == '\u{3000}'
}

proof fn lemma_trimmed_end_take(s: Seq<char>, n: int)
    requires
        0 <= n <= s.len(),
        forall|k: int| n <= k < s.len() ==> is_white_space(s[k]),
    ensures
        trimmed_end(s) == trimmed_end(s.take(n)),
    decreases s.len() - n,
{
    if n < s.len() {
        assert(s.drop_last().take(n) =~= s.take(n));
        lemma_trimmed_end_take(s.drop_last(), n);
    } else {
        assert(s.take(n) =~= s);
    }
}

/// `str::trim_end`: the text without its trailing white space.
pub fn trim_end(s: &str) -> (r: String)
    ensures
        r@ == trimmed_end(s@),
{
    let v = chars_of(s);
    let mut n = v.len();
    while n > 0 && is_whitespace(v[n - 1])
        invariant
            n <= v.len(),
            forall|k: int| n <= k < v.len() ==> is_white_space(v@[k]),
        decreases n,
    {
        n = n - 1;
    }
    proof {
        lemma_trimmed_end_take(v@, n as int);
        assert(v@.take(n as int) =~= v@.subrange(0, n as int));
        if n > 0 {
            assert(v@.take(n as int).last() == v@[n - 1]);
        }
    }
    string_of_range(&v, 0, n)
}

proof fn lemma_trimmed_start_skip(s: Seq<char>, n: int)
    requires
        0 <= n <= s.len(),
        forall|k: int| 0 <= k < n ==> is_white_space(s[k]),
    ensures
        trimmed_start(s) == trimmed_start(s.skip(n)),
    decreases n,
{
    if n > 0 {
        assert(s.drop_first().skip(n - 1) =~= s.skip(n));
        lemma_trimmed_start_skip(s.drop_first(), n - 1);
    } else {
        assert(s.skip(0) =~= s);
    }
}

/// `str::trim`: the text without its leading and trailing white space.
pub fn trim(s: &str) -> (r: String)
    ensures
        r@ == trimmed_end(trimmed_start(s@)),
{
    let v = chars_of(s);
    let mut lo: usize = 0;
    while lo < v.len() && is_whitespace(v[lo])
        invariant
            lo <= v.len(),
            forall|k: int| 0 <= k < lo ==> is_white_space(v@[k]),
        decreases v.len() - lo,
    {
        lo = lo + 1;
    }
    let mut hi = v.len();
    while hi > lo && is_whitespace(v[hi - 1])
        invariant
            lo <= hi <= v.len(),
            forall|k: int| hi <= k < v.len() ==> is_white_space(v@[k]),
        decreases hi,
    {
        hi = hi - 1;
    }
    proof {
        lemma_trimmed_start_skip(v@, lo as int);
        let t = v@.skip(lo as int);
        if lo < v.len() {
            assert(t[0] == v@[lo as int]);
        }
        assert(trimmed_start(v@) == t);
        lemma_trimmed_end_take(t, hi - lo);
        assert(t.take(hi - lo) =~= v@.subrange(lo as int, hi as int));
        if hi > lo {
            assert(t.take(hi - lo).last() == v@[hi - 1]);
        }
    }
    string_of_range(&v, lo, hi)
}


/// The views of a list of strings.
pub open spec fn views(v: Seq<String>) -> Seq<Seq<char>> {
    v.map_values(|x: String| x@)
}

/// `parts` joined with `sep` between each two neighbours (`[T]::join`).
pub open spec fn joined(parts: Seq<Seq<char>>, sep: char) -> Seq<char>
    decreases parts.len(),
{
    if parts.len() == 0 {
        Seq::empty()
    } else if parts.len() == 1 {
        parts[0]
    } else {
        joined(parts.drop_last(), sep).push(sep) + parts.last()
    }
}

/// The pieces of `s` between the occurrences of `sep` (`str::split` with a character).
pub open spec fn split_on(s: Seq<char>, sep: char) -> Seq<Seq<char>>
    decreases s.len(),
{
    if s.len() == 0 {
        seq![Seq::empty()]
    } else {
        let r = split_on(s.drop_last(), sep);
        if s.last() == sep {
            r.push(Seq::empty())
        } else {
            r.update(r.len() - 1, r.last().push(s.last()))
        }
    }
}

/// No piece of `parts` holds `sep`.
pub open spec fn free_of(parts: Seq<Seq<char>>, sep: char) -> bool {
    forall|i: int| 0 <= i < parts.len() ==> !(#[trigger] parts[i]).contains(sep)
}

/// The pieces of a split are never fewer than one, and none holds the separator.
pub proof fn lemma_split_shape(s: Seq<char>, sep: char)
    ensures
        split_on(s, sep).len() >= 1,
        split_on(s, sep).len() <= s.len() + 1,
        free_of(split_on(s, sep), sep),
    decreases s.len(),
{
    if s.len() > 0 {
        lemma_split_shape(s.drop_last(), sep);
        let r = split_on(s.drop_last(), sep);
        if s.last() != sep {
            assert forall|i: int| 0 <= i < split_on(s, sep).len() implies !(
            #[trigger] split_on(s, sep)[i]).contains(sep) by {
                if i == r.len() - 1 {
                    let p = r.last().push(s.last());
                    if p.contains(sep) {
                        let k = choose|k: int| 0 <= k < p.len() && p[k] == sep;
                        assert(r.last()[k] == sep);
                    }
                } else {
                    assert(split_on(s, sep)[i] == r[i]);
                }
            }
        } else {
            assert forall|i: int| 0 <= i < split_on(s, sep).len() implies !(
            #[trigger] split_on(s, sep)[i]).contains(sep) by {
                if i < r.len() {
                    assert(split_on(s, sep)[i] == r[i]);
                }
            }
        }
    }
}

proof fn lemma_joined_extend_last(parts: Seq<Seq<char>>, sep: char, c: char)
    requires
        parts.len() >= 1,
    ensures
        joined(parts.update(parts.len() - 1, parts.last().push(c)), sep) == joined(parts, sep).push(c),
{
    let q = parts.update(parts.len() - 1, parts.last().push(c));
    if parts.len() > 1 {
        assert(q.drop_last() =~= parts.drop_last());
        assert(joined(parts.drop_last(), sep).push(sep) + parts.last().push(c) =~= (joined(
            parts.drop_last(),
            sep,
        ).push(sep) + parts.last()).push(c));
    }
}

/// Splitting a text and joining the pieces again gives back the text.
pub proof fn lemma_join_split(s: Seq<char>, sep: char)
    ensures
        joined(split_on(s, sep), sep) == s,
    decreases s.len(),
{
    if s.len() > 0 {
        lemma_join_split(s.drop_last(), sep);
        lemma_split_shape(s.drop_last(), sep);
        let r = split_on(s.drop_last(), sep);
        if s.last() == sep {
            assert(r.push(Seq::empty()).drop_last() =~= r);
            assert(joined(r, sep).push(sep) + Seq::<char>::empty() =~= s);
        } else {
            lemma_joined_extend_last(r, sep, s.last());
            assert(s.drop_last().push(s.last()) =~= s);
        }
    }
}

proof fn lemma_split_free(s: Seq<char>, sep: char)
    requires
        !s.contains(sep),
    ensures
        split_on(s, sep) == seq![s],
    decreases s.len(),
{
    if s.len() > 0 {
        assert(!s.drop_last().contains(sep)) by {
            if s.drop_last().contains(sep) {
                let k = choose|k: int| 0 <= k < s.drop_last().len() && s.drop_last()[k] == sep;
                assert(s[k] == sep);
            }
        }
        lemma_split_free(s.drop_last(), sep);
        assert(s.last() != sep) by {
            assert(s[s.len() - 1] == s.last());
        }
        assert(s.drop_last().push(s.last()) =~= s);
        assert(split_on(s, sep) =~= seq![s]);
    } else {
        assert(s =~= Seq::<char>::empty());
    }
}

proof fn lemma_split_after_sep(x: Seq<char>, sep: char, b: Seq<char>)
    requires
        !b.contains(sep),
    ensures
        split_on(x.push(sep) + b, sep) == split_on(x, sep).push(b),
    decreases b.len(),
{
    let s = x.push(sep) + b;
    if b.len() == 0 {
        assert(b =~= Seq::<char>::empty());
        assert(s =~= x.push(sep));
        assert(s.drop_last() =~= x);
        assert(s.last() == sep);
    } else {
        assert(!b.drop_last().contains(sep)) by {
            if b.drop_last().contains(sep) {
                let k = choose|k: int| 0 <= k < b.drop_last().len() && b.drop_last()[k] == sep;
                assert(b[k] == sep);
            }
        }
        lemma_split_after_sep(x, sep, b.drop_last());
        assert(s.drop_last() =~= x.push(sep) + b.drop_last());
        assert(s.last() == b.last());
        assert(b.last() != sep) by {
            assert(b[b.len() - 1] == b.last());
        }
        assert(b.drop_last().push(b.last()) =~= b);
        assert(split_on(s, sep) =~= split_on(x, sep).push(b));
    }
}

/// Joining pieces that hold no separator and splitting the result gives back the pieces.
pub proof fn lemma_split_join(parts: Seq<Seq<char>>, sep: char)
    requires
        parts.len() >= 1,
        free_of(parts, sep),
    ensures
        split_on(joined(parts, sep), sep) == parts,
    decreases parts.len(),
{
    if parts.len() == 1 {
        assert(!parts[0].contains(sep));
        lemma_split_free(parts[0], sep);
        assert(parts =~= seq![parts[0]]);
    } else {
        let init = parts.drop_last();
        assert(free_of(init, sep)) by {
            assert forall|i: int| 0 <= i < init.len() implies !(#[trigger] init[i]).contains(sep) by {
                assert(init[i] == parts[i]);
            }
        }
        lemma_split_join(init, sep);
        assert(!parts.last().contains(sep)) by {
            assert(parts[parts.len() - 1] == parts.last());
        }
        lemma_split_after_sep(joined(init, sep), sep, parts.last());
        assert(init.push(parts.last()) =~= parts);
    }
}

/// `[String]::join` with a one-character separator.
pub fn join_with(parts: &Vec<String>, sep: char) -> (r: String)
    ensures
        r@ == joined(views(parts@), sep),
{
    let mut r = String::new();
    let mut i: usize = 0;
    while i < parts.len()
        invariant
            i <= parts.len(),
            r@ == joined(views(parts@).take(i as int), sep),
        decreases parts.len() - i,
    {
        let ghost before = r@;
        if i > 0 {
            push_char(&mut r, sep);
        }
        let w = chars_of(parts[i].as_str());
        let mut j: usize = 0;
        while j < w.len()
            invariant
                j <= w.len(),
                r@ == (if i > 0 { before.push(sep) } else { before }) + w@.take(j as int),
            decreases w.len() - j,
        {
            push_char(&mut r, w[j]);
            assert(w@.take(j + 1) =~= w@.take(j as int).push(w@[j as int]));
            j = j + 1;
        }
        proof {
            let vs = views(parts@);
            assert(w@.take(j as int) =~= w@);
            assert(vs.take(i + 1).drop_last() =~= vs.take(i as int));
            assert(vs.take(i + 1).last() == parts@[i as int]@);
            if i == 0 {
                assert(before =~= Seq::<char>::empty());
                assert(r@ =~= vs.take(1)[0]);
            }
        }
        i = i + 1;
    }
    assert(views(parts@).take(parts.len() as int) =~= views(parts@));
    r
}

/// `str::split` with a one-character separator, each piece made an owned string.
pub fn split_with(s: &str, sep: char) -> (parts: Vec<String>)
    ensures
        views(parts@) == split_on(s@, sep),
{
    let v = chars_of(s);
    let mut parts: Vec<String> = Vec::new();
    let mut start: usize = 0;
    let mut i: usize = 0;
    assert(v@.take(0) =~= Seq::<char>::empty());
    assert(views(parts@).push(v@.subrange(0, 0)) =~= seq![Seq::<char>::empty()]);
    while i < v.len()
        invariant
            start <= i <= v.len(),
            views(parts@).push(v@.subrange(start as int, i as int)) == split_on(v@.take(i as int), sep),
        decreases v.len() - i,
    {
        proof {
            assert(v@.take(i + 1).drop_last() =~= v@.take(i as int));
            assert(v@.take(i + 1).last() == v@[i as int]);
        }
        if v[i] == sep {
            let piece = string_of_range(&v, start, i);
            let ghost prev = parts@;
            parts.push(piece);
            assert(views(parts@) =~= views(prev).push(v@.subrange(start as int, i as int)));
            start = i + 1;
            assert(v@.subrange(start as int, i + 1) =~= Seq::<char>::empty());
        } else {
            assert(v@.subrange(start as int, i + 1) =~= v@.subrange(start as int, i as int).push(v@[i as int]));
        }
        i = i + 1;
    }
    let last = string_of_range(&v, start, v.len());
    parts.push(last);
    assert(v@.take(v.len() as int) =~= v@);
    parts
}

/// `str::strip_prefix`, for a text known to begin with `p`.
pub fn after_prefix(s: &str, p: &str) -> (r: String)
    requires
        has_prefix(s@, p@),
    ensures
        r@ == s@.skip(p@.len() as int),
{
    let v = chars_of(s);
    let n = chars_of(p).len();
    let r = string_of_range(&v, n, v.len());
    assert(v@.subrange(n as int, v@.len() as int) =~= v@.skip(n as int));
    r
}

/// The text of `s` before the first `sep`, or all of `s` where it holds none
/// (`str::split_once`'s first half, or the whole text).
pub fn first_piece(s: &str, sep: char) -> (r: String)
    ensures
        r@ == split_on(s@, sep)[0],
{
    let v = chars_of(s);
    let mut i: usize = 0;
    while i < v.len() && v[i] != sep
        invariant
            i <= v.len(),
            forall|k: int| 0 <= k < i ==> v@[k] != sep,
        decreases v.len() - i,
    {
        i = i + 1;
    }
    proof {
        assert(!v@.take(i as int).contains(sep)) by {
            if v@.take(i as int).contains(sep) {
                let k = choose|k: int| 0 <= k < i && v@.take(i as int)[k] == sep;
                assert(v@[k] == sep);
            }
        }
        lemma_first_piece(v@, sep, i as int);
        assert(v@.take(i as int) =~= v@.subrange(0, i as int));
    }
    string_of_range(&v, 0, i)
}

proof fn lemma_split_count(s: Seq<char>, sep: char)
    requires
        s.contains(sep),
    ensures
        split_on(s, sep).len() >= 2,
    decreases s.len(),
{
    lemma_split_shape(s.drop_last(), sep);
    if s.last() != sep {
        let k = choose|k: int| 0 <= k < s.len() && s[k] == sep;
        assert(s.drop_last()[k] == sep);
        lemma_split_count(s.drop_last(), sep);
    }
}

/// The first piece of a split is the text before the first separator.
pub proof fn lemma_first_piece(s: Seq<char>, sep: char, i: int)
    requires
        0 <= i <= s.len(),
        !s.take(i).contains(sep),
        i < s.len() ==> s[i] == sep,
    ensures
        split_on(s, sep)[0] == s.take(i),
    decreases s.len(),
{
    if s.len() == 0 {
        assert(s.take(i) =~= Seq::<char>::empty());
    } else {
        let d = s.drop_last();
        let r = split_on(d, sep);
        lemma_split_shape(d, sep);
        if i < s.len() - 1 {
            assert(d.take(i) =~= s.take(i));
            lemma_first_piece(d, sep, i);
            assert(d[i] == sep);
            lemma_split_count(d, sep);
        } else if i == s.len() - 1 {
            assert(!d.contains(sep)) by {
                if d.contains(sep) {
                    let k = choose|k: int| 0 <= k < d.len() && d[k] == sep;
                    assert(s.take(i)[k] == sep);
                }
            }
            lemma_split_free(d, sep);
            assert(d =~= s.take(i));
            assert(s.last() == s[i]);
        } else {
            assert(s.take(i) =~= s);
            assert(!d.contains(sep)) by {
                if d.contains(sep) {
                    let k = choose|k: int| 0 <= k < d.len() && d[k] == sep;
                    assert(s[k] == sep);
                }
            }
            lemma_split_free(d, sep);
            assert(s.last() != sep) by {
                assert(s[s.len() - 1] == s.last());
            }
            assert(d.push(s.last()) =~= s);
        }
    }
}

/// What `str::to_lowercase` returns for a text: Unicode's full lower-case mapping,
/// which takes the whole case table to state.
pub uninterp spec fn lowercase(s: Seq<char>) -> Seq<char>;

/// `str::to_lowercase`. Trusted: the result is exactly `lowercase` of the argument's
/// characters, a function of those characters alone; nothing more of the mapping is stated.
#[verifier::external_body]
pub(crate) fn to_lowercase(s: &str) -> (r: String)
    ensures
        r@ == lowercase(s@),
{
    s.to_lowercase()
}

/// Whether `c` occurs in `s`.
pub fn has_char(s: &str, c: char) -> (b: bool)
    ensures
        b == s@.contains(c),
{
    let v = chars_of(s);
    let mut i: usize = 0;
    while i < v.len()
        invariant
            i <= v.len(),
            v@ == s@,
            forall|k: int| 0 <= k < i ==> v@[k] != c,
        decreases v.len() - i,
    {
        if v[i] == c {
            assert(s@[i as int] == c);
            return true;
        }
        i = i + 1;
    }
    false
}

/// Whether `s` begins with the line `first`, that is with `first` and a line break.
pub fn starts_with_line(s: &str, first: &str) -> (b: bool)
    ensures
        b == has_prefix(s@, first@.push('\n')),
{
    let v = chars_of(s);
    let mut q = chars_of(first);
    q.push('\n');
    let b = matches_at(&v, &q, 0);
    assert(b ==> v@.take(q@.len() as int) =~= v@.subrange(0, q@.len() as int));
    assert(has_prefix(v@, q@) ==> v@.take(q@.len() as int) =~= v@.subrange(0, q@.len() as int));
    b
}

/// The pieces of `parts` one after another, with nothing between them.
pub open spec fn concatenated(parts: Seq<Seq<char>>) -> Seq<char>
    decreases parts.len(),
{
    if parts.len() == 0 {
        Seq::empty()
    } else {
        concatenated(parts.drop_last()) + parts.last()
    }
}

/// All of `parts`, one after another.
pub fn concat_all(parts: &Vec<String>) -> (r: String)
    ensures
        r@ == concatenated(views(parts@)),
{
    let mut r = String::new();
    let mut i: usize = 0;
    while i < parts.len()
        invariant
            i <= parts.len(),
            r@ == concatenated(views(parts@).take(i as int)),
        decreases parts.len() - i,
    {
        let ghost before = r@;
        let w = chars_of(parts[i].as_str());
        let mut j: usize = 0;
        while j < w.len()
            invariant
                j <= w.len(),
                r@ == before + w@.take(j as int),
            decreases w.len() - j,
        {
            push_char(&mut r, w[j]);
            assert(w@.take(j + 1) =~= w@.take(j as int).push(w@[j as int]));
            j = j + 1;
        }
        proof {
            let vs = views(parts@);
            assert(w@.take(j as int) =~= w@);
            assert(vs.take(i + 1).drop_last() =~= vs.take(i as int));
            assert(vs.take(i + 1).last() == parts@[i as int]@);
        }
        i = i + 1;
    }
    assert(views(parts@).take(parts.len() as int) =~= views(parts@));
    r
}

/// `a` followed by `b`.
pub fn glue(a: &str, b: &str) -> (r: String)
    ensures
        r@ == a@ + b@,
{
    let mut r = a.to_owned();
    r.append(b);
    r
}

} // verus!
