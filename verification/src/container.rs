use vstd::prelude::*;

verus! {

/// A capability for storing and retrieving items, independent of the
/// storage shape behind it.
///
/// The abstract state of a container is `contents`, the sequence of items it
/// currently holds, ordered so that the item returned by the next `get` is
/// the last element. Each implementation fixes through `put_model` what `put`
/// does to that state: a single-slot container overwrites, a stack appends.
/// Generic callers can therefore be verified once, against this trait alone,
/// and hold for every conforming container.
pub trait Container<T>: Sized {
    /// The items currently held, with the one the next `get` returns last.
    spec fn contents(&self) -> Seq<T>;

    /// The contents after `put` of `item` on a container holding `pre`.
    spec fn put_model(pre: Seq<T>, item: T) -> Seq<T>;

    /// Removes and returns the last element of `contents`; returns `None`,
    /// and changes nothing, when the container is empty. Absence is an
    /// ordinary result, never a fault.
    fn get(&mut self) -> (r: Option<T>)
        ensures
            old(self).contents().len() == 0 ==> r is None
                && final(self).contents() == old(self).contents(),
            old(self).contents().len() > 0 ==> r == Some(old(self).contents().last())
                && final(self).contents() == old(self).contents().drop_last(),
    ;

    /// Stores `item`, making it the one the next `get` returns; always
    /// succeeds. The full effect on the contents is `put_model`.
    fn put(&mut self, item: T)
        ensures
            final(self).contents() == Self::put_model(old(self).contents(), item),
            final(self).contents().len() > 0,
            final(self).contents().last() == item,
    ;

    /// Pure query: true exactly when `get` would return `None`.
    fn is_empty(&self) -> (r: bool)
        ensures
            r == (self.contents().len() == 0),
    ;
}

/// Stores a string in any container of strings: one helper, reused across
/// every storage shape.
pub fn add_string<C: Container<String>>(c: &mut C, s: String)
    ensures
        final(c).contents() == C::put_model(old(c).contents(), s),
        final(c).contents().len() > 0,
        final(c).contents().last() == s,
{
    c.put(s);
}

} // verus!
