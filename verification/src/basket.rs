use vstd::prelude::*;

use crate::container::Container;

verus! {

/// A single-slot container: holds zero or one item.
///
/// `put` overwrites whatever the slot held (the old item is discarded, not
/// returned); `get` reads and clears the slot in one step.
pub struct Basket<T> {
    item: Option<T>,
}

impl<T> Basket<T> {
    /// A basket pre-loaded with one item.
    pub fn new(item: T) -> (r: Self)
        ensures
            r.contents() == seq![item],
    {
        Basket { item: Some(item) }
    }

    /// A basket holding nothing.
    pub fn new_empty() -> (r: Self)
        ensures
            r.contents() == Seq::<T>::empty(),
    {
        Basket { item: None }
    }
}

impl<T> Container<T> for Basket<T> {
    closed spec fn contents(&self) -> Seq<T> {
        match self.item {
            Some(x) => seq![x],
            None => Seq::empty(),
        }
    }

    open spec fn put_model(pre: Seq<T>, item: T) -> Seq<T> {
        seq![item]
    }

    fn get(&mut self) -> (r: Option<T>) {
        self.item.take()
    }

    fn put(&mut self, item: T) {
        self.item = Some(item);
    }

    fn is_empty(&self) -> (r: bool) {
        self.item.is_none()
    }
}

/// Law: on a freshly constructed (empty) basket, `put(x)` makes `x` the one
/// content, so the next `get` returns `x` and leaves the basket empty, and a
/// `get` after that finds nothing.
pub proof fn lemma_basket_round_trip<T>(x: T)
    ensures
        Basket::<T>::put_model(Seq::empty(), x) == seq![x],
        Basket::<T>::put_model(Seq::empty(), x).last() == x,
        Basket::<T>::put_model(Seq::empty(), x).drop_last() == Seq::<T>::empty(),
{
}

/// Law: a second `put` overwrites. After `put(a); put(b)` the basket holds
/// `b` alone — the next `get` returns `b`, and `a` is gone unless it equals
/// `b`.
pub proof fn lemma_basket_overwrite<T>(pre: Seq<T>, a: T, b: T)
    ensures
        Basket::<T>::put_model(Basket::<T>::put_model(pre, a), b) == seq![b],
        Basket::<T>::put_model(Basket::<T>::put_model(pre, a), b).last() == b,
        a != b ==> !Basket::<T>::put_model(Basket::<T>::put_model(pre, a), b).contains(a),
{
}

} // verus!
