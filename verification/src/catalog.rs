use vstd::prelude::*;
use vstd::slice::slice_index_get;

use crate::media::Media;

verus! {

/// An ordered, growable collection of media items. Created empty, grown
/// only by appending at the end, read by fallible indexed lookup; indices
/// are stable, since nothing removes.
pub struct Catalog {
    items: Vec<Media>,
}

impl View for Catalog {
    type V = Seq<Media>;

    closed spec fn view(&self) -> Seq<Media> {
        self.items@
    }
}

impl Catalog {
    /// An empty catalog.
    pub fn new() -> (r: Self)
        ensures
            r@ == Seq::<Media>::empty(),
    {
        Catalog { items: Vec::new() }
    }

    /// Appends `item` at the end; always succeeds, and the prior items keep
    /// their positions.
    pub fn add(&mut self, item: Media)
        ensures
            final(self)@ == old(self)@.push(item),
    {
        self.items.push(item);
    }

    /// The number of items held.
    pub fn len(&self) -> (r: usize)
        ensures
            r == self@.len(),
    {
        self.items.len()
    }

    /// Borrowed lookup: the item at position `i` when `i` is in range,
    /// absence otherwise — never a fault, whatever `i` is.
    pub fn get_by_index(&self, i: usize) -> (r: Option<&Media>)
        ensures
            i < self@.len() ==> (r matches Some(m) && *m == self@[i as int]),
            i >= self@.len() ==> r is None,
    {
        if i < self.items.len() {
            Some(slice_index_get(self.items.as_slice(), i))
        } else {
            None
        }
    }
}

/// Law: appending keeps order. After adding `x`, then `y`, then `z` to a
/// catalog holding `pre`, the items at the three new positions are `x`, `y`,
/// `z`, in that order, and the first `pre.len()` items are unchanged.
pub proof fn lemma_catalog_order(pre: Seq<Media>, x: Media, y: Media, z: Media)
    ensures
        pre.push(x).push(y).push(z).len() == pre.len() + 3,
        pre.push(x).push(y).push(z)[pre.len() as int] == x,
        pre.push(x).push(y).push(z)[pre.len() as int + 1] == y,
        pre.push(x).push(y).push(z)[pre.len() as int + 2] == z,
        forall|i: int| 0 <= i < pre.len() ==> pre.push(x).push(y).push(z)[i] == pre[i],
{
}

} // verus!
