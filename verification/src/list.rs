//! Lists together with the lists of their items' views.
use vstd::prelude::*;

verus! {

/// A list with no items.
pub fn no_items<T: DeepView>() -> (v: Vec<T>)
    ensures
        v@.len() == 0,
        v.deep_view() == Seq::<T::V>::empty(),
{
    let v: Vec<T> = Vec::new();
    assert(v.deep_view() =~= Seq::<T::V>::empty());
    v
}

/// Appends `item` to `v`.
pub fn push_item<T: DeepView>(v: &mut Vec<T>, item: T)
    ensures
        final(v)@ == old(v)@.push(item),
        final(v).deep_view() == old(v).deep_view().push(item.deep_view()),
{
    v.push(item);
    assert(v.deep_view() =~= old(v).deep_view().push(item.deep_view()));
}

/// Takes the last item off `v`, where there is one.
pub fn pop_item<T: DeepView>(v: &mut Vec<T>) -> (r: Option<T>)
    ensures
        r is Some ==> old(v)@.len() > 0 && final(v)@ == old(v)@.drop_last(),
        r is Some ==> final(v).deep_view() == old(v).deep_view().drop_last(),
        r is Some ==> r->0.deep_view() == old(v).deep_view().last() && r->0 == old(v)@.last(),
        r is None ==> old(v)@.len() == 0 && final(v)@ == old(v)@,
{
    let r = v.pop();
    assert(r is Some ==> v.deep_view() =~= old(v).deep_view().drop_last());
    r
}

} // verus!
