//! Collision-free destination directory naming.
//!
//! Given the directory names already present under a base directory and a
//! desired name, the resolver picks the desired name itself when it is
//! unused, and otherwise the first of `name (2)`, `name (3)`, ... that is.
//! The caller creates the directory; creation is atomic per name, so two
//! racing resolutions can both be told a candidate is free, but at most one
//! of them then creates it and the other advances to the next number on its
//! next probe.

use vstd::prelude::*;
use vstd::seq_lib::seq_to_set_is_finite;
use vstd::set_lib::lemma_len_subset;
use vstd::string::StringExecFns;
use crate::decimal::{spec_decimal, u64_to_decimal, lemma_decimal_injective, lemma_decimal_nonempty};
use crate::strutil::{views_of, contains_str};

verus! {

/// The candidate directory name probed at position `n` for a desired name:
/// the desired name itself first, then `name (2)`, `name (3)`, and so on.
pub open spec fn spec_candidate(title: Seq<char>, n: nat) -> Seq<char> {
    if n <= 1 {
        title
    } else {
        title + " ("@ + spec_decimal(n) + ")"@
    }
}

/// Build the candidate name probed at position `n`.
pub fn candidate_name(title: &str, n: u64) -> (r: String)
    ensures
        r@ == spec_candidate(title@, n as nat),
{
    if n <= 1 {
        title.to_owned()
    } else {
        let mut s = title.to_owned();
        s.append(" (");
        let digits = u64_to_decimal(n);
        s.append(digits.as_str());
        s.append(")");
        proof {
            assert(s@ =~= spec_candidate(title@, n as nat));
        }
        s
    }
}

/// Distinct probe positions give distinct candidate names.
pub proof fn lemma_candidate_injective(title: Seq<char>, m: nat, n: nat)
    requires
        m >= 1,
        n >= 1,
        m != n,
    ensures
        spec_candidate(title, m) != spec_candidate(title, n),
{
    reveal_strlit(" (");
    reveal_strlit(")");
    lemma_decimal_nonempty(m);
    lemma_decimal_nonempty(n);
    let cm = spec_candidate(title, m);
    let cn = spec_candidate(title, n);
    if m <= 1 {
        assert(cn.len() == title.len() + 2 + spec_decimal(n).len() + 1);
    } else if n <= 1 {
        assert(cm.len() == title.len() + 2 + spec_decimal(m).len() + 1);
    } else {
        if cm == cn {
            let t = title.len() as int;
            assert(cm.len() == t + 2 + spec_decimal(m).len() + 1);
            assert(cn.len() == t + 2 + spec_decimal(n).len() + 1);
            assert(spec_decimal(m).len() == spec_decimal(n).len());
            let lm = spec_decimal(m).len() as int;
            assert forall|i: int| 0 <= i < lm implies spec_decimal(m)[i] == spec_decimal(n)[i] by {
                assert(cm[t + 2 + i] == spec_decimal(m)[i]);
                assert(cn[t + 2 + i] == spec_decimal(n)[i]);
            }
            assert(spec_decimal(m) =~= spec_decimal(n));
            lemma_decimal_injective(m, n);
            assert(false);
        }
    }
}

/// Every candidate before position `n` is in use among the names `e`.
pub open spec fn earlier_candidates_taken(e: Seq<Seq<char>>, title: Seq<char>, n: nat) -> bool {
    forall|k: nat| 1 <= k < n ==> e.contains(#[trigger] spec_candidate(title, k))
}

/// A name is a valid resolution of `title` against the sibling names `e`:
/// it is some candidate, it is unused among the siblings, and every
/// candidate before it was in use.
pub open spec fn resolved(e: Seq<Seq<char>>, title: Seq<char>, r: Seq<char>) -> bool {
    &&& !e.contains(r)
    &&& exists|n: nat|
        1 <= n && #[trigger] spec_candidate(title, n) == r && earlier_candidates_taken(e, title, n)
}

/// If every candidate before position `n` is in use, there are at least
/// `n - 1` sibling names: the candidates are pairwise distinct.
proof fn lemma_taken_candidates_bound(e: Seq<Seq<char>>, title: Seq<char>, n: nat)
    requires
        n >= 1,
        earlier_candidates_taken(e, title, n),
    ensures
        n - 1 <= e.len(),
{
    broadcast use seq_to_set_is_finite;
    broadcast use vstd::set::group_set_axioms;

    let cands = Seq::new((n - 1) as nat, |i: int| spec_candidate(title, (i + 1) as nat));
    assert forall|i: int, j: int|
        0 <= i < cands.len() && 0 <= j < cands.len() && i != j implies cands[i] != cands[j] by {
        lemma_candidate_injective(title, (i + 1) as nat, (j + 1) as nat);
    }
    assert(cands.no_duplicates());
    cands.unique_seq_to_set();
    assert forall|x: Seq<char>| cands.to_set().contains(x) implies e.to_set().contains(x) by {
        let i = choose|i: int| 0 <= i < cands.len() && cands[i] == x;
        assert(e.contains(spec_candidate(title, (i + 1) as nat)));
    }
    assert(cands.to_set().subset_of(e.to_set()));
    lemma_len_subset(cands.to_set(), e.to_set());
    e.lemma_cardinality_of_set();
}

/// Resolve a collision-free directory name against the sibling names that
/// already exist under the base directory: the desired name itself when it
/// is unused, else the first numbered variant that is.
pub fn resolve_name(existing: &Vec<String>, title: &str) -> (r: String)
    requires
        existing@.len() < usize::MAX,
    ensures
        resolved(views_of(existing@), title@, r@),
{
    let ghost e = views_of(existing@);
    proof {
        assert(e.len() == existing@.len());
    }
    let mut n: usize = 1;
    loop
        invariant
            1 <= n <= existing@.len() + 1,
            existing@.len() < usize::MAX,
            e == views_of(existing@),
            earlier_candidates_taken(e, title@, n as nat),
        decreases existing@.len() + 1 - n,
    {
        let cand = candidate_name(title, n as u64);
        if !contains_str(existing, cand.as_str()) {
            proof {
                assert(spec_candidate(title@, n as nat) == cand@);
            }
            return cand;
        }
        proof {
            assert(e.contains(spec_candidate(title@, n as nat)));
            assert(earlier_candidates_taken(e, title@, (n + 1) as nat));
            lemma_taken_candidates_bound(e, title@, (n + 1) as nat);
        }
        n = n + 1;
    }
}

/// Sequential resolutions never collide: resolving the same desired name
/// again, after the first resolved name has joined the siblings, yields a
/// name distinct from the first and from every older sibling. Running the
/// same request twice therefore produces a second, distinct directory and
/// never reuses the first run's one.
pub proof fn lemma_resolution_collision_free(
    e: Seq<Seq<char>>,
    title: Seq<char>,
    r1: Seq<char>,
    r2: Seq<char>,
)
    requires
        resolved(e, title, r1),
        resolved(e.push(r1), title, r2),
    ensures
        r1 != r2,
        !e.contains(r1),
        !e.contains(r2),
{
    assert(e.push(r1)[e.len() as int] == r1);
    if r1 == r2 {
        assert(e.push(r1).contains(r2));
        assert(false);
    }
    if e.contains(r2) {
        let i = choose|i: int| 0 <= i < e.len() && e[i] == r2;
        assert(e.push(r1)[i] == r2);
        assert(e.push(r1).contains(r2));
        assert(false);
    }
}

/// When the desired name and its first numbered variant are both unused,
/// the first resolution takes the desired name itself and the resolution
/// after it takes the variant numbered 2.
pub proof fn lemma_second_resolution_suffixed(
    e: Seq<Seq<char>>,
    title: Seq<char>,
    r1: Seq<char>,
    r2: Seq<char>,
)
    requires
        resolved(e, title, r1),
        resolved(e.push(r1), title, r2),
        !e.contains(title),
        !e.contains(spec_candidate(title, 2)),
    ensures
        r1 == title,
        r2 == spec_candidate(title, 2),
{
    let n1 = choose|n: nat|
        1 <= n && #[trigger] spec_candidate(title, n) == r1 && earlier_candidates_taken(
            e,
            title,
            n,
        );
    if n1 >= 2 {
        assert(e.contains(spec_candidate(title, 1)));
        assert(false);
    }
    assert(r1 == title);
    let e2 = e.push(r1);
    assert(e2[e.len() as int] == r1);
    let n2 = choose|n: nat|
        1 <= n && #[trigger] spec_candidate(title, n) == r2 && earlier_candidates_taken(
            e2,
            title,
            n,
        );
    if n2 == 1 {
        assert(e2.contains(r2));
        assert(false);
    }
    if n2 > 2 {
        assert(e2.contains(spec_candidate(title, 2)));
        let i = choose|i: int| 0 <= i < e2.len() && e2[i] == spec_candidate(title, 2);
        lemma_candidate_injective(title, 1, 2);
        if i < e.len() {
            assert(e[i] == spec_candidate(title, 2));
            assert(e.contains(spec_candidate(title, 2)));
        }
        assert(false);
    }
    assert(r2 == spec_candidate(title, 2));
}

} // verus!
