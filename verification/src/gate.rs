//! The candidate gate.
//!
//! Before the first model invocation of a request, an external ranking
//! collaborator orders the catalog's operation names by estimated
//! relevance (already cut to its own token budget).  Narrowing joins
//! those ranked names with the mandatory ones that must stay selectable
//! regardless of rank, and deduplicates; order carries no meaning in
//! the result.  It fails only when it is given nothing at all to choose
//! from, which a well-formed request never does: the multi-step
//! operation itself is always mandatory.

use vstd::prelude::*;
use crate::accumulator::has_tok;
use crate::accumulator::toks;
use crate::errors::OpError;

verus! {

/// No two entries hold the same characters.
pub open spec fn no_dup_toks(s: Seq<String>) -> bool {
    forall|i: int, j: int| 0 <= i < j < s.len() ==> s[i]@ != s[j]@
}

/// Whether the list holds an entry with the same characters.
fn contains_string(v: &Vec<String>, s: &String) -> (r: bool)
    ensures
        r == has_tok(toks(v@), s@),
{
    let n = v.len();
    let mut i: usize = 0;
    while i < n
        invariant
            n == v@.len(),
            i <= n,
            forall|j: int| 0 <= j < i ==> v@[j]@ != s@,
        decreases n - i,
    {
        if v[i] == *s {
            proof {
                assert(toks(v@)[i as int] == s@);
            }
            return true;
        }
        i += 1;
    }
    false
}

/// Appends every entry of `src` whose characters are not yet present.
fn push_unique_all(out: &mut Vec<String>, src: &Vec<String>)
    requires
        no_dup_toks(old(out)@),
    ensures
        no_dup_toks(final(out)@),
        forall|i: int|
            0 <= i < final(out)@.len() ==> has_tok(toks(old(out)@), #[trigger] final(out)@[i]@)
                || has_tok(toks(src@), final(out)@[i]@),
        forall|i: int| 0 <= i < src@.len() ==> has_tok(toks(final(out)@), #[trigger] src@[i]@),
        forall|i: int|
            0 <= i < old(out)@.len() ==> has_tok(toks(final(out)@), #[trigger] old(out)@[i]@),
{
    let n = src.len();
    let mut k: usize = 0;
    proof {
        assert forall|i: int| 0 <= i < out@.len() implies has_tok(
            toks(old(out)@),
            #[trigger] out@[i]@,
        ) by {
            assert(toks(out@)[i] == out@[i]@);
        }
    }
    while k < n
        invariant
            n == src@.len(),
            k <= n,
            no_dup_toks(out@),
            forall|i: int|
                0 <= i < out@.len() ==> has_tok(toks(old(out)@), #[trigger] out@[i]@) || (
                exists|j: int| 0 <= j < k && src@[j]@ == out@[i]@),
            forall|j: int| 0 <= j < k ==> has_tok(toks(out@), #[trigger] src@[j]@),
            forall|i: int|
                0 <= i < old(out)@.len() ==> has_tok(toks(out@), #[trigger] old(out)@[i]@),
        decreases n - k,
    {
        let ghost prev = out@;
        if !contains_string(out, &src[k]) {
            out.push(src[k].clone());
            proof {
                assert(out@ == prev.push(src@[k as int]));
                assert forall|i: int| 0 <= i < prev.len() implies out@[i]@ == prev[i]@ by {}
                assert forall|j: int| 0 <= j < k + 1 implies has_tok(
                    toks(out@),
                    #[trigger] src@[j]@,
                ) by {
                    if j < k {
                        let w = choose|w: int| 0 <= w < prev.len() && prev[w]@ == src@[j]@;
                        assert(toks(out@)[w] == src@[j]@);
                    } else {
                        assert(toks(out@)[prev.len() as int] == src@[k as int]@);
                    }
                }
                assert forall|i: int| 0 <= i < old(out)@.len() implies has_tok(
                    toks(out@),
                    #[trigger] old(out)@[i]@,
                ) by {
                    let w = choose|w: int| 0 <= w < prev.len() && prev[w]@ == old(out)@[i]@;
                    assert(toks(out@)[w] == old(out)@[i]@);
                }
            }
        } else {
            proof {
                assert forall|j: int| 0 <= j < k + 1 implies has_tok(
                    toks(out@),
                    #[trigger] src@[j]@,
                ) by {}
            }
        }
        k += 1;
    }
    proof {
        assert forall|i: int| 0 <= i < out@.len() implies has_tok(
            toks(old(out)@),
            #[trigger] out@[i]@,
        ) || has_tok(toks(src@), out@[i]@) by {
            if !has_tok(toks(old(out)@), out@[i]@) {
                let j = choose|j: int| 0 <= j < n && src@[j]@ == out@[i]@;
                assert(toks(src@)[j] == out@[i]@);
            }
        }
    }
}

/// Narrows what a model invocation may select from: the union of the
/// ranked names and the mandatory ones, deduplicated.  Fails with an
/// empty candidate set only when both inputs are empty.
pub fn narrow(ranked: &Vec<String>, mandatory: &Vec<String>) -> (r: Result<Vec<String>, OpError>)
    ensures
        r is Ok <==> (ranked@.len() > 0 || mandatory@.len() > 0),
        r matches Err(e) ==> e == OpError::EmptyCandidateSet,
        r matches Ok(out) ==> no_dup_toks(out@),
        r matches Ok(out) ==> forall|i: int|
            0 <= i < out@.len() ==> has_tok(toks(ranked@), #[trigger] out@[i]@) || has_tok(
                toks(mandatory@),
                out@[i]@,
            ),
        r matches Ok(out) ==> forall|i: int|
            0 <= i < ranked@.len() ==> has_tok(toks(out@), #[trigger] ranked@[i]@),
        r matches Ok(out) ==> forall|i: int|
            0 <= i < mandatory@.len() ==> has_tok(toks(out@), #[trigger] mandatory@[i]@),
{
    if ranked.len() == 0 && mandatory.len() == 0 {
        return Err(OpError::EmptyCandidateSet);
    }
    let mut out: Vec<String> = Vec::new();
    push_unique_all(&mut out, ranked);
    let ghost mid = out@;
    push_unique_all(&mut out, mandatory);
    proof {
        assert forall|i: int| 0 <= i < out@.len() implies has_tok(
            toks(ranked@),
            #[trigger] out@[i]@,
        ) || has_tok(toks(mandatory@), out@[i]@) by {
            if has_tok(toks(mid), out@[i]@) {
                let w = choose|w: int| 0 <= w < mid.len() && mid[w]@ == out@[i]@;
            }
        }
        assert forall|i: int| 0 <= i < ranked@.len() implies has_tok(
            toks(out@),
            #[trigger] ranked@[i]@,
        ) by {
            let w = choose|w: int| 0 <= w < mid.len() && mid[w]@ == ranked@[i]@;
        }
    }
    Ok(out)
}

} // verus!
