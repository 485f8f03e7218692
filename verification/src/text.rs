//! Character-level text operations that the path templates are built on.
//!
//! Texts are modelled as `Seq<char>`, the view of `str` and `String`.

use vstd::prelude::*;

verus! {

/// `token` stands in `text` at index `at`.
pub open spec fn occurs_at(text: Seq<char>, token: Seq<char>, at: int) -> bool {
    &&& 0 <= at
    &&& at + token.len() <= text.len()
    &&& text.subrange(at, at + token.len()) == token
}

/// `token` stands somewhere in `text`.
pub open spec fn contains(text: Seq<char>, token: Seq<char>) -> bool {
    exists|at: int| occurs_at(text, token, at)
}

/// `text` with every occurrence of `token` replaced by `value`.
///
/// Occurrences are taken from left to right and do not overlap; what was put in
/// for one occurrence is not searched again. The empty token occurs once before
/// each character and once at the end.
pub open spec fn substituted(text: Seq<char>, token: Seq<char>, value: Seq<char>) -> Seq<char>
    decreases text.len(),
{
    if token.len() == 0 {
        if text.len() == 0 {
            value
        } else {
            value + text.take(1) + substituted(text.skip(1), token, value)
        }
    } else if text.len() < token.len() {
        text
    } else if occurs_at(text, token, 0) {
        value + substituted(text.skip(token.len() as int), token, value)
    } else {
        text.take(1) + substituted(text.skip(1), token, value)
    }
}

/// `text` ends with `suffix`.
pub open spec fn ends_with(text: Seq<char>, suffix: Seq<char>) -> bool {
    &&& suffix.len() <= text.len()
    &&& text.skip(text.len() - suffix.len()) == suffix
}

/// No character of `text` equals `c`.
pub open spec fn lacks_char(text: Seq<char>, c: char) -> bool {
    forall|i: int| 0 <= i < text.len() ==> text[i] != c
}

/// `base` followed by a separator and `segment`.
pub open spec fn joined(base: Seq<char>, segment: Seq<char>) -> Seq<char> {
    base + seq!['/'] + segment
}

/// The characters of `s`, in order.
pub fn chars_of(s: &str) -> (v: Vec<char>)
    ensures
        v@ == s@,
{
    let mut v: Vec<char> = Vec::new();
    for c in it: s.chars()
        invariant
            it.seq() == s@,
            v@ == s@.take(it.index() as int),
    {
        v.push(c);
    }
    v
}

/// Whether `token` stands in `text` at index `at`.
pub fn matches_at(text: &Vec<char>, token: &Vec<char>, at: usize) -> (found: bool)
    ensures
        found == occurs_at(text@, token@, at as int),
{
    let m: usize = token.len();
    if m > text.len() || at > text.len() - m {
        return false;
    }
    let mut k: usize = 0;
    while k < m
        invariant
            m == token.len(),
            at + m <= text.len(),
            k <= m,
            forall|j: int| 0 <= j < k ==> text@[at + j] == token@[j],
        decreases m - k,
    {
        if text[at + k] != token[k] {
            proof {
                assert(text@.subrange(at as int, at + m)[k as int] == text@[at + k]);
            }
            return false;
        }
        k = k + 1;
    }
    proof {
        assert(text@.subrange(at as int, at + m) =~= token@);
    }
    true
}

/// Puts `value` before each character of `text` and at its end: what replacing
/// the empty token comes to.
fn interleave(text: &str, value: &str) -> (out: String)
    ensures
        out@ == substituted(text@, Seq::<char>::empty(), value@),
{
    let n: usize = text.unicode_len();
    let ghost token = Seq::<char>::empty();
    let mut out = String::new();
    let mut at: usize = 0;
    proof {
        assert(text@.skip(0) =~= text@);
        assert(out@ + substituted(text@, token, value@) =~= substituted(text@, token, value@));
    }
    while at < n
        invariant
            n == text@.len(),
            at <= n,
            token == Seq::<char>::empty(),
            substituted(text@, token, value@) == out@ + substituted(
                text@.skip(at as int),
                token,
                value@,
            ),
        decreases n - at,
    {
        let ghost rest = text@.skip(at as int);
        let ghost before = out@;
        out.append(value);
        out.append(text.substring_char(at, at + 1));
        proof {
            assert(rest.take(1) =~= text@.subrange(at as int, at + 1));
            assert(rest.skip(1) =~= text@.skip(at + 1));
            let inner = substituted(rest.skip(1), token, value@);
            assert(before + (value@ + rest.take(1) + inner) =~= (before + value@ + rest.take(1))
                + inner);
        }
        at = at + 1;
    }
    out.append(value);
    out
}

/// Replaces every occurrence of `token` in `text` by `value`.
pub fn substitute(text: &str, token: &str, value: &str) -> (out: String)
    ensures
        out@ == substituted(text@, token@, value@),
{
    let chars = chars_of(text);
    let pattern = chars_of(token);
    let n: usize = chars.len();
    let m: usize = pattern.len();
    if m == 0 {
        proof {
            assert(token@ =~= Seq::<char>::empty());
        }
        return interleave(text, value);
    }
    if n < m {
        return String::from_str(text);
    }
    let mut out = String::new();
    let mut copied: usize = 0;
    let mut at: usize = 0;
    proof {
        assert(text@.skip(0) =~= text@);
        assert(out@ + text@.subrange(0, 0) =~= Seq::<char>::empty());
        assert(Seq::<char>::empty() + text@ =~= text@);
    }
    while at <= n - m
        invariant
            chars@ == text@,
            pattern@ == token@,
            n == text@.len(),
            m == token@.len(),
            0 < m <= n,
            copied <= at <= n,
            substituted(text@, token@, value@) == out@ + text@.subrange(copied as int, at as int)
                + substituted(text@.skip(at as int), token@, value@),
        decreases n - at,
    {
        let ghost rest = text@.skip(at as int);
        proof {
            assert(rest.subrange(0, m as int) =~= text@.subrange(at as int, at + m));
        }
        if matches_at(&chars, &pattern, at) {
            out.append(text.substring_char(copied, at));
            out.append(value);
            proof {
                assert(rest.skip(m as int) =~= text@.skip(at + m));
                assert(text@.subrange(at + m, at + m) =~= Seq::<char>::empty());
            }
            at = at + m;
            copied = at;
        } else {
            proof {
                assert(text@.subrange(copied as int, at as int) + rest.take(1)
                    =~= text@.subrange(copied as int, at + 1));
                assert(rest.skip(1) =~= text@.skip(at + 1));
            }
            at = at + 1;
        }
    }
    proof {
        assert(text@.subrange(copied as int, at as int) + text@.skip(at as int)
            =~= text@.subrange(copied as int, n as int));
    }
    out.append(text.substring_char(copied, n));
    out
}

/// Appends a separator and `segment` to `base`.
pub fn join(base: String, segment: &str) -> (path: String)
    ensures
        path@ == joined(base@, segment@),
{
    let mut path = base;
    proof {
        reveal_strlit("/");
        assert("/"@ =~= seq!['/']);
    }
    path.append("/");
    path.append(segment);
    path
}

/// A text in which the token does not occur is left as it is.
pub proof fn lemma_absent_token(text: Seq<char>, token: Seq<char>, value: Seq<char>)
    requires
        !contains(text, token),
    ensures
        substituted(text, token, value) == text,
    decreases text.len(),
{
    if token.len() == 0 {
        assert(text.subrange(0, 0) =~= token);
        assert(occurs_at(text, token, 0));
    } else if text.len() < token.len() {
    } else {
        assert(!occurs_at(text, token, 0));
        let rest = text.skip(1);
        assert forall|at: int| !occurs_at(rest, token, at) by {
            if occurs_at(rest, token, at) {
                assert(text.subrange(at + 1, at + 1 + token.len()) =~= rest.subrange(
                    at,
                    at + token.len(),
                ));
                assert(occurs_at(text, token, at + 1));
            }
        }
        lemma_absent_token(rest, token, value);
        assert(text.take(1) + rest =~= text);
    }
}

/// A token cannot occur in a text that lacks the token's last character.
pub proof fn lemma_lacking_last_char(text: Seq<char>, token: Seq<char>)
    requires
        token.len() > 0,
        lacks_char(text, token.last()),
    ensures
        !contains(text, token),
{
    assert forall|at: int| !occurs_at(text, token, at) by {
        if occurs_at(text, token, at) {
            let m = token.len() as int;
            assert(text.subrange(at, at + m)[m - 1] == text[at + m - 1]);
        }
    }
}

/// A token that opens a text is replaced, and the search goes on behind it.
pub proof fn lemma_leading_token(token: Seq<char>, tail: Seq<char>, value: Seq<char>)
    requires
        token.len() > 0,
    ensures
        substituted(token + tail, token, value) == value + substituted(tail, token, value),
{
    let text = token + tail;
    assert(text.subrange(0, token.len() as int) =~= token);
    assert(text.skip(token.len() as int) =~= tail);
}

/// A tail that lacks the token's last character takes no part in the
/// substitution: no occurrence can end inside it.
pub proof fn lemma_untouched_tail(
    text: Seq<char>,
    tail: Seq<char>,
    token: Seq<char>,
    value: Seq<char>,
)
    requires
        token.len() > 0,
        lacks_char(tail, token.last()),
    ensures
        substituted(text + tail, token, value) == substituted(text, token, value) + tail,
    decreases text.len(),
{
    let whole = text + tail;
    let m = token.len() as int;
    if text.len() == 0 {
        assert(whole =~= tail);
        lemma_lacking_last_char(tail, token);
        lemma_absent_token(tail, token, value);
        assert(text + tail =~= tail);
        assert(substituted(text, token, value) =~= text);
    } else if whole.len() < m {
    } else if occurs_at(whole, token, 0) {
        if text.len() < m {
            assert(whole.subrange(0, m)[m - 1] == tail[m - 1 - text.len()]);
        }
        assert(text.subrange(0, m) =~= whole.subrange(0, m));
        assert(whole.skip(m) =~= text.skip(m) + tail);
        lemma_untouched_tail(text.skip(m), tail, token, value);
        assert(value + (substituted(text.skip(m), token, value) + tail) =~= (value + substituted(
            text.skip(m),
            token,
            value,
        )) + tail);
    } else {
        assert(whole.take(1) =~= text.take(1));
        assert(whole.skip(1) =~= text.skip(1) + tail);
        lemma_untouched_tail(text.skip(1), tail, token, value);
        let inner = substituted(text.skip(1), token, value);
        assert(text.take(1) + (inner + tail) =~= (text.take(1) + inner) + tail);
        if text.len() < m {
            assert(inner == text.skip(1));
            assert(text.take(1) + text.skip(1) =~= text);
        } else {
            if occurs_at(text, token, 0) {
                assert(whole.subrange(0, m) =~= text.subrange(0, m));
            }
        }
    }
}

/// A tail that lacks the token's last character adds no occurrence.
pub proof fn lemma_tail_adds_no_occurrence(text: Seq<char>, tail: Seq<char>, token: Seq<char>)
    requires
        token.len() > 0,
        lacks_char(tail, token.last()),
        !contains(text, token),
    ensures
        !contains(text + tail, token),
{
    let whole = text + tail;
    let m = token.len() as int;
    assert forall|at: int| !occurs_at(whole, token, at) by {
        if occurs_at(whole, token, at) {
            if at + m <= text.len() {
                assert(text.subrange(at, at + m) =~= whole.subrange(at, at + m));
                assert(occurs_at(text, token, at));
            } else {
                assert(whole.subrange(at, at + m)[m - 1] == tail[at + m - 1 - text.len()]);
            }
        }
    }
}

} // verus!
