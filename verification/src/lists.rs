//! Models of lists.

use vstd::prelude::*;

verus! {

/// The values of the present entries of `s`, in order.
pub open spec fn present_values<A>(s: Seq<Option<A>>) -> Seq<A>
    decreases s.len(),
{
    if s.len() == 0 {
        Seq::empty()
    } else {
        match s.last() {
            Some(a) => present_values(s.drop_last()).push(a),
            None => present_values(s.drop_last()),
        }
    }
}


/// Keeping the present entries is `filter_map` with the identity: nothing
/// present is dropped, nothing absent is kept, and the order stays.
pub proof fn lemma_present_values_filter_map<A>(s: Seq<Option<A>>)
    ensures
        present_values(s) == s.filter_map(|o: Option<A>| o),
    decreases s.len(),
{
    if s.len() > 0 {
        lemma_present_values_filter_map(s.drop_last());
        match s.last() {
            Some(a) => {
                assert(present_values(s.drop_last()).push(a) =~= s.drop_last().filter_map(|o: Option<A>| o) + seq![a]);
            },
            None => {},
        }
    }
}

/// Every present entry is kept, and one more present entry at the end adds
/// exactly its value at the end.
pub proof fn lemma_present_values_keep<A>(s: Seq<Option<A>>, a: A)
    ensures
        present_values(s.push(Some(a))) == present_values(s).push(a),
        present_values(s.push(None)) == present_values(s),
        forall|i: int| 0 <= i < s.len() && (#[trigger] s[i]) is Some ==> present_values(s).contains(s[i]->0),
    decreases s.len(),
{
    assert(s.push(Some(a)).drop_last() =~= s);
    assert(s.push(None::<A>).drop_last() =~= s);
    if s.len() > 0 {
        let r = s.drop_last();
        lemma_present_values_keep(r, a);
        assert forall|i: int| 0 <= i < s.len() && (#[trigger] s[i]) is Some implies present_values(s).contains(s[i]->0) by {
            if i < s.len() - 1 {
                assert(s[i] == r[i]);
                assert(present_values(r).contains(r[i]->0));
                let k = choose|k: int| 0 <= k < present_values(r).len() && present_values(r)[k] == r[i]->0;
                match s.last() {
                    Some(b) => { assert(present_values(s)[k] == r[i]->0); },
                    None => {},
                }
            } else {
                match s.last() {
                    Some(b) => { assert(present_values(s)[present_values(r).len() as int] == b); },
                    None => {},
                }
            }
        }
    }
}

} // verus!
