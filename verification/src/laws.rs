//! The service's cross-endpoint guarantees, proved over the same models the
//! handlers' contracts use: what a shorten stores is what a resolve redirects
//! to, unknown codes report 404, and resolution is stable until a key is
//! overwritten.

use vstd::prelude::*;
use crate::handlers::resolve_model;
use crate::reply::not_found_model;
use crate::reply::redirect_model;

verus! {

/// Law (round trip): once a shorten stored code `c` for original `o`,
/// resolving `c` on a reachable store is a permanent redirect to `o`.
pub proof fn lemma_shorten_resolve_round_trip(
    m: Map<Seq<char>, Seq<char>>,
    c: Seq<char>,
    o: Seq<char>,
)
    ensures
        resolve_model(m.insert(c, o), true, c) == redirect_model(o),
{
}

/// Law (unknown code): resolving a code that no shorten produced reports 404.
pub proof fn lemma_unknown_code_not_found(m: Map<Seq<char>, Seq<char>>, c: Seq<char>)
    requires
        !m.contains_key(c),
    ensures
        resolve_model(m, true, c) == not_found_model(),
{
}

/// Law (idempotence): the reply for a code depends only on what is stored
/// under it, so repeated resolves of `c` answer alike as long as the value at
/// `c` is unchanged.
pub proof fn lemma_resolve_idempotent(
    m1: Map<Seq<char>, Seq<char>>,
    m2: Map<Seq<char>, Seq<char>>,
    c: Seq<char>,
)
    requires
        m1.contains_key(c) == m2.contains_key(c),
        m1.contains_key(c) ==> m1[c] == m2[c],
    ensures
        resolve_model(m1, true, c) == resolve_model(m2, true, c),
{
}

/// Law (no interference): storing a mapping under a different code leaves the
/// resolution of `c` exactly as it was.
pub proof fn lemma_resolve_unaffected_by_other_key(
    m: Map<Seq<char>, Seq<char>>,
    c: Seq<char>,
    k: Seq<char>,
    v: Seq<char>,
)
    requires
        k != c,
    ensures
        resolve_model(m.insert(k, v), true, c) == resolve_model(m, true, c),
{
}

/// Law (repeated shorten): after two shortens of the same original `o` stored
/// codes `c1` and then `c2`, each code redirects to `o` — whether or not the
/// two codes collide.
pub proof fn lemma_two_shortens_both_resolve(
    m: Map<Seq<char>, Seq<char>>,
    c1: Seq<char>,
    c2: Seq<char>,
    o: Seq<char>,
)
    ensures
        resolve_model(m.insert(c1, o).insert(c2, o), true, c1) == redirect_model(o),
        resolve_model(m.insert(c1, o).insert(c2, o), true, c2) == redirect_model(o),
{
}

} // verus!
