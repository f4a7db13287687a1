use vstd::prelude::*;
use crate::codec::Recipient;
use crate::rng::random_index;

verus! {

/// Swapping two positions of a sequence leaves its multiset of elements
/// unchanged.
proof fn lemma_swap_to_multiset<A>(s: Seq<A>, i: int, j: int)
    requires
        0 <= i < s.len(),
        0 <= j < s.len(),
    ensures
        s.update(i, s[j]).update(j, s[i]).to_multiset() == s.to_multiset(),
{
    broadcast use vstd::seq_lib::to_multiset_update;
    broadcast use vstd::seq_lib::group_to_multiset_ensures;
    broadcast use vstd::multiset::group_multiset_axioms;
    broadcast use vstd::multiset::group_multiset_properties;

    let s1 = s.update(i, s[j]);
    assert(s1[j] == s[j]);
    assert(s1.to_multiset() == s.to_multiset().insert(s[j]).remove(s[i]));
    assert(s.to_multiset().contains(s[i]));
    assert(s1.update(j, s[i]).to_multiset() == s1.to_multiset().insert(s[i]).remove(s[j]));
    assert(s.to_multiset().insert(s[j]).remove(s[i]).insert(s[i]).remove(s[j])
        =~= s.to_multiset());
}

/// Computes an unlinkable reordering of the recipients: a Fisher-Yates
/// shuffle that walks the indexes from the top down and swaps each with a
/// fresh uniformly drawn index at or below it, every draw taken from the
/// secure random source internal to this component. The result holds exactly
/// the input elements - same multiset, same length, no duplication or loss.
/// `None` only when the random source refused a draw; the input is then
/// discarded, and no partial reordering is observable. A sequence of length
/// at most one needs no draw, so on it the shuffle always succeeds.
pub fn permute(recipients: Vec<Recipient>) -> (r: Option<Vec<Recipient>>)
    ensures
        r matches Some(out) ==> out@.to_multiset() == recipients@.to_multiset() && out@.len()
            == recipients@.len(),
        recipients@.len() <= 1 ==> r is Some,
{
    let mut v = recipients;
    if v.len() < 2 {
        return Some(v);
    }
    let ghost orig = v@;
    let mut i: usize = v.len() - 1;
    while i >= 1
        invariant
            i < v@.len(),
            i < usize::MAX,
            recipients@.len() >= 2,
            v@.len() == orig.len(),
            v@.to_multiset() == orig.to_multiset(),
        decreases i,
    {
        let j = match random_index(i + 1) {
            Some(j) => j,
            None => {
                return None;
            },
        };
        let a = v[i];
        let b = v[j];
        proof {
            lemma_swap_to_multiset(v@, i as int, j as int);
        }
        v.set(i, b);
        v.set(j, a);
        i = i - 1;
    }
    Some(v)
}

} // verus!
