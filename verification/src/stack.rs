use vstd::prelude::*;

use crate::container::Container;

verus! {

/// A stack-shaped container: an ordered sequence of items, appended at the
/// tail by `put` and drained from the tail by `get` — last in, first out.
pub struct Stack<T> {
    items: Vec<T>,
}

impl<T> Stack<T> {
    /// A stack whose contents are an existing ordered sequence, oldest
    /// first; the last element of `items` is the first `get` returns.
    pub fn new(items: Vec<T>) -> (r: Self)
        ensures
            r.contents() == items@,
    {
        Stack { items }
    }
}

impl<T> Container<T> for Stack<T> {
    closed spec fn contents(&self) -> Seq<T> {
        self.items@
    }

    open spec fn put_model(pre: Seq<T>, item: T) -> Seq<T> {
        pre.push(item)
    }

    fn get(&mut self) -> (r: Option<T>) {
        self.items.pop()
    }

    fn put(&mut self, item: T) {
        self.items.push(item);
    }

    fn is_empty(&self) -> (r: bool) {
        self.items.len() == 0
    }
}

/// Law: the stack is LIFO. Putting `a`, then `b`, then `c` on a stack
/// holding `pre`, the three following `get`s return `c`, `b`, `a` in that
/// order and leave the stack holding `pre` again; started from an empty
/// stack, a fourth `get` then finds nothing.
pub proof fn lemma_stack_lifo<T>(pre: Seq<T>, a: T, b: T, c: T)
    ensures
        Stack::<T>::put_model(Stack::<T>::put_model(Stack::<T>::put_model(pre, a), b), c)
            == pre.push(a).push(b).push(c),
        pre.push(a).push(b).push(c).last() == c,
        pre.push(a).push(b).push(c).drop_last() == pre.push(a).push(b),
        pre.push(a).push(b).last() == b,
        pre.push(a).push(b).drop_last() == pre.push(a),
        pre.push(a).last() == a,
        pre.push(a).drop_last() == pre,
{
}

} // verus!
