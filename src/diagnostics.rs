//! Reshapes the engine's authorization output: reasons become a set, errors
//! keep the engine's order.

use vstd::prelude::*;

use crate::envelope::{texts, AuthorizationData, Decision};

verus! {

broadcast use vstd::seq_lib::lemma_seq_contains_after_push;

/// Merges duplicate identifiers, keeping each identifier that occurs.
pub fn distinct_reasons(raw: &Vec<String>) -> (r: Vec<String>)
    ensures
        texts(r@).no_duplicates(),
        forall|t: Seq<char>| texts(r@).contains(t) <==> texts(raw@).contains(t),
{
    let ghost src = texts(raw@);
    let mut out: Vec<String> = Vec::new();
    let mut i: usize = 0;
    while i < raw.len()
        invariant
            0 <= i <= raw.len(),
            src == texts(raw@),
            texts(out@).no_duplicates(),
            forall|t: Seq<char>| texts(out@).contains(t) <==> src.take(i as int).contains(t),
        decreases raw.len() - i,
    {
        let ghost x = raw@[i as int]@;
        let mut seen = false;
        let mut j: usize = 0;
        while j < out.len()
            invariant
                0 <= j <= out.len(),
                i < raw.len(),
                seen <==> texts(out@).take(j as int).contains(raw@[i as int]@),
            decreases out.len() - j,
        {
            if out[j] == raw[i] {
                seen = true;
            }
            assert(texts(out@).take(j + 1) =~= texts(out@).take(j as int).push(out@[j as int]@));
            j += 1;
        }
        assert(texts(out@).take(out.len() as int) =~= texts(out@));
        assert(src.take(i as int).push(x) == src.take(i + 1));
        if !seen {
            let ghost before = texts(out@);
            out.push(raw[i].clone());
            assert(texts(out@) =~= before.push(x));
        }
        i += 1;
    }
    assert(src.take(raw.len() as int) =~= src);
    out
}

/// The authorization payload: the decision, the reasons as a set, and the
/// errors in the engine's order with duplicates kept.
pub fn authorization_data(decision: Decision, reasons: &Vec<String>, errors: Vec<String>) -> (r:
    AuthorizationData)
    ensures
        r.wf(),
        r.decision == decision,
        texts(r.reasons@).to_set() == texts(reasons@).to_set(),
        texts(r.errors@) == texts(errors@),
{
    let distinct = distinct_reasons(reasons);
    assert(texts(distinct@).to_set() =~= texts(reasons@).to_set());
    AuthorizationData { decision, reasons: distinct, errors }
}

} // verus!
