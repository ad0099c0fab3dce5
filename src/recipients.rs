//! Building the list of send targets from decoded recipient entries.
use vstd::prelude::*;

verus! {

/// The values of the `Some` items of `s`, in order.
pub open spec fn decoded<T>(s: Seq<Option<T>>) -> Seq<T>
    decreases s.len(),
{
    if s.len() == 0 {
        Seq::empty()
    } else {
        let rest = decoded(s.drop_first());
        match s[0] {
            Some(x) => seq![x] + rest,
            None => rest,
        }
    }
}

/// How many items of `s` are `Some`.
pub open spec fn count_decoded<T>(s: Seq<Option<T>>) -> nat
    decreases s.len(),
{
    if s.len() == 0 {
        0
    } else {
        (if s[0] is Some { 1nat } else { 0nat }) + count_decoded(s.drop_first())
    }
}

/// As many targets as entries that decoded.
pub proof fn lemma_decoded_len<T>(s: Seq<Option<T>>)
    ensures
        decoded(s).len() == count_decoded(s),
    decreases s.len(),
{
    if s.len() > 0 {
        lemma_decoded_len(s.drop_first());
    }
}

/// Keeps the recipients that decoded, in order, and drops the others.
pub fn select_recipients<T>(candidates: Vec<Option<T>>) -> (r: Vec<T>)
    ensures
        r@ == decoded(candidates@),
        r@.len() == count_decoded(candidates@),
{
    let mut rest = candidates;
    let mut out: Vec<T> = Vec::new();
    while rest.len() > 0
        invariant
            decoded(candidates@) == out@ + decoded(rest@),
        decreases rest@.len(),
    {
        let ghost before = rest@;
        let item = rest.remove(0);
        assert(rest@ =~= before.drop_first());
        match item {
            Some(x) => {
                assert(out@.push(x) + decoded(rest@) =~= out@ + (seq![x] + decoded(rest@)));
                out.push(x);
            },
            None => {},
        }
    }
    assert(out@ + decoded(rest@) =~= out@);
    proof {
        lemma_decoded_len(candidates@);
    }
    out
}

} // verus!
