//! Turning one vector into another, entry by entry.
use vstd::prelude::*;

verus! {

/// `f` of every entry of `items`, in order.
pub fn map_vec<A, B, F: Fn(A) -> B>(items: Vec<A>, f: F) -> (mapped: Vec<B>)
    requires
        forall|a: A| f.requires((a,)),
    ensures
        mapped@.len() == items@.len(),
        forall|i: int|
            0 <= i < mapped@.len() ==> f.ensures((items@[i],), #[trigger] mapped@[i]),
{
    let mut mapped: Vec<B> = Vec::new();
    for item in it: items
        invariant
            it.seq() == items@,
            forall|a: A| f.requires((a,)),
            mapped@.len() == it.index(),
            forall|i: int|
                0 <= i < mapped@.len() ==> f.ensures((items@[i],), #[trigger] mapped@[i]),
    {
        mapped.push(f(item));
    }
    mapped
}

/// What `f` makes of the entries that `keep` holds of, in order. `f` makes something of an entry
/// exactly if `keep` holds of it.
pub(crate) fn filter_map_vec<A, B, F: Fn(A) -> Option<B>>(
    items: Vec<A>,
    f: F,
    Ghost(keep): Ghost<spec_fn(A) -> bool>,
) -> (mapped: Vec<B>)
    requires
        forall|a: A| f.requires((a,)),
        forall|a: A, b: Option<B>| #[trigger] f.ensures((a,), b) ==> (b is Some <==> keep(a)),
    ensures
        mapped@.len() == items@.filter(keep).len(),
        forall|i: int|
            0 <= i < mapped@.len() ==> f.ensures(
                (items@.filter(keep)[i],),
                Some(#[trigger] mapped@[i]),
            ),
{
    let ghost all = items@;
    let mut mapped: Vec<B> = Vec::new();
    assert(all.take(0).filter(keep) =~= Seq::<A>::empty()) by {
        reveal(Seq::filter);
    }
    for item in it: items
        invariant
            it.seq() == all,
            forall|a: A| f.requires((a,)),
            forall|a: A, b: Option<B>| #[trigger] f.ensures((a,), b) ==> (b is Some <==> keep(a)),
            mapped@.len() == all.take(it.index() as int).filter(keep).len(),
            forall|i: int|
                0 <= i < mapped@.len() ==> f.ensures(
                    (all.take(it.index() as int).filter(keep)[i],),
                    Some(#[trigger] mapped@[i]),
                ),
    {
        proof {
            let n = it.index() as int;
            reveal(Seq::filter);
            assert(all.take(n + 1).drop_last() =~= all.take(n));
            assert(all.take(n + 1).last() == item);
        }
        let made: Option<B> = f(item);
        if let Some(b) = made {
            mapped.push(b);
        }
    }
    assert(all.take(all.len() as int) =~= all);
    mapped
}

} // verus!
