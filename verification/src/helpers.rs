//! Placeholder substitution in path templates.
//!
//! A template may name three roots by placeholder: the user's home directory,
//! the base directory and the local directory. Resolving a template replaces
//! each placeholder by its root, one placeholder after the other; any other
//! text, a `$` followed by an unknown name included, is left as it is.

use crate::text::{
    contains, lacks_char, lemma_absent_token, lemma_lacking_last_char, lemma_leading_token,
    lemma_tail_adds_no_occurrence, lemma_untouched_tail, occurs_at, substitute, substituted,
};
use vstd::prelude::*;

verus! {

/// Placeholder for the user's home directory.
pub const HOME_TOKEN: &'static str = "$HOME";

/// Placeholder for the base directory.
pub const BASE_TOKEN: &'static str = "$BASE";

/// Placeholder for the local directory.
pub const LOCAL_TOKEN: &'static str = "$LOCAL";

/// `arg` with the home placeholder replaced by `home`, then the base
/// placeholder replaced by `base`.
pub open spec fn home_resolved(home: Seq<char>, base: Seq<char>, arg: Seq<char>) -> Seq<char> {
    substituted(substituted(arg, HOME_TOKEN@, home), BASE_TOKEN@, base)
}

/// `arg` resolved as by [`home_resolved`], then with the local placeholder
/// replaced by `local`.
pub open spec fn home_and_local_resolved(
    home: Seq<char>,
    base: Seq<char>,
    local: Seq<char>,
    arg: Seq<char>,
) -> Seq<char> {
    substituted(home_resolved(home, base, arg), LOCAL_TOKEN@, local)
}

/// No placeholder stands in `path`.
pub open spec fn is_resolved(path: Seq<char>) -> bool {
    &&& !contains(path, HOME_TOKEN@)
    &&& !contains(path, BASE_TOKEN@)
    &&& !contains(path, LOCAL_TOKEN@)
}

/// Replaces the home placeholder in `arg` by `home` and the base placeholder
/// by `base`.
pub fn replace_home(home: &str, base: &str, arg: &str) -> (path: String)
    ensures
        path@ == home_resolved(home@, base@, arg@),
{
    let with_home = substitute(arg, HOME_TOKEN, home);
    substitute(with_home.as_str(), BASE_TOKEN, base)
}

/// Replaces the home placeholder in `arg` by `home`, the base placeholder by
/// `base` and the local placeholder by `local`.
pub fn replace_home_and_local(home: &str, base: &str, local: &str, arg: &str) -> (path: String)
    ensures
        path@ == home_and_local_resolved(home@, base@, local@, arg@),
{
    let with_base = replace_home(home, base, arg);
    substitute(with_base.as_str(), LOCAL_TOKEN, local)
}

/// What the three placeholders are made of.
pub proof fn lemma_tokens()
    ensures
        HOME_TOKEN@ == seq!['$', 'H', 'O', 'M', 'E'],
        BASE_TOKEN@ == seq!['$', 'B', 'A', 'S', 'E'],
        LOCAL_TOKEN@ == seq!['$', 'L', 'O', 'C', 'A', 'L'],
{
    reveal_strlit("$HOME");
    reveal_strlit("$BASE");
    reveal_strlit("$LOCAL");
    assert(HOME_TOKEN@ =~= seq!['$', 'H', 'O', 'M', 'E']);
    assert(BASE_TOKEN@ =~= seq!['$', 'B', 'A', 'S', 'E']);
    assert(LOCAL_TOKEN@ =~= seq!['$', 'L', 'O', 'C', 'A', 'L']);
}

/// A template without placeholders resolves to itself, whatever the roots.
pub proof fn law_plain_text_passes_through(
    home: Seq<char>,
    base: Seq<char>,
    local: Seq<char>,
    arg: Seq<char>,
)
    requires
        is_resolved(arg),
    ensures
        home_resolved(home, base, arg) == arg,
        home_and_local_resolved(home, base, local, arg) == arg,
{
    lemma_absent_token(arg, HOME_TOKEN@, home);
    lemma_absent_token(arg, BASE_TOKEN@, base);
    lemma_absent_token(arg, LOCAL_TOKEN@, local);
}

/// A template made of the base placeholder and a tail in lower case resolves
/// to the base directory followed by that tail; the local placeholder is then
/// looked for in the base directory only.
pub proof fn lemma_base_rooted(home: Seq<char>, base: Seq<char>, local: Seq<char>, tail: Seq<char>)
    requires
        lacks_char(tail, 'E'),
        lacks_char(tail, 'L'),
    ensures
        home_resolved(home, base, BASE_TOKEN@ + tail) == base + tail,
        home_and_local_resolved(home, base, local, BASE_TOKEN@ + tail) == substituted(
            base,
            LOCAL_TOKEN@,
            local,
        ) + tail,
{
    lemma_tokens();
    let template = BASE_TOKEN@ + tail;
    assert(!contains(BASE_TOKEN@, HOME_TOKEN@)) by {
        assert forall|at: int| !occurs_at(BASE_TOKEN@, HOME_TOKEN@, at) by {
            if occurs_at(BASE_TOKEN@, HOME_TOKEN@, at) {
                assert(BASE_TOKEN@.subrange(at, at + 5)[1] == 'B');
            }
        }
    }
    lemma_tail_adds_no_occurrence(BASE_TOKEN@, tail, HOME_TOKEN@);
    lemma_absent_token(template, HOME_TOKEN@, home);
    lemma_leading_token(BASE_TOKEN@, tail, base);
    lemma_lacking_last_char(tail, BASE_TOKEN@);
    lemma_absent_token(tail, BASE_TOKEN@, base);
    lemma_untouched_tail(base, tail, LOCAL_TOKEN@, local);
}

/// A template made of the local placeholder and a tail in lower case resolves
/// to the local directory followed by that tail.
pub proof fn lemma_local_rooted(
    home: Seq<char>,
    base: Seq<char>,
    local: Seq<char>,
    tail: Seq<char>,
)
    requires
        lacks_char(tail, 'E'),
        lacks_char(tail, 'L'),
    ensures
        home_and_local_resolved(home, base, local, LOCAL_TOKEN@ + tail) == local + tail,
{
    lemma_tokens();
    let template = LOCAL_TOKEN@ + tail;
    assert(!contains(LOCAL_TOKEN@, HOME_TOKEN@)) by {
        assert forall|at: int| !occurs_at(LOCAL_TOKEN@, HOME_TOKEN@, at) by {
            if occurs_at(LOCAL_TOKEN@, HOME_TOKEN@, at) {
                assert(LOCAL_TOKEN@.subrange(at, at + 5)[1] == LOCAL_TOKEN@[at + 1]);
            }
        }
    }
    assert(!contains(LOCAL_TOKEN@, BASE_TOKEN@)) by {
        assert forall|at: int| !occurs_at(LOCAL_TOKEN@, BASE_TOKEN@, at) by {
            if occurs_at(LOCAL_TOKEN@, BASE_TOKEN@, at) {
                assert(LOCAL_TOKEN@.subrange(at, at + 5)[1] == LOCAL_TOKEN@[at + 1]);
            }
        }
    }
    lemma_tail_adds_no_occurrence(LOCAL_TOKEN@, tail, HOME_TOKEN@);
    lemma_absent_token(template, HOME_TOKEN@, home);
    lemma_tail_adds_no_occurrence(LOCAL_TOKEN@, tail, BASE_TOKEN@);
    lemma_absent_token(template, BASE_TOKEN@, base);
    lemma_leading_token(LOCAL_TOKEN@, tail, local);
    lemma_lacking_last_char(tail, LOCAL_TOKEN@);
    lemma_absent_token(tail, LOCAL_TOKEN@, local);
}

} // verus!
