use vstd::prelude::*;

verus! {

/// The in-flight message buffer: a FIFO sequence, viewed with its head at
/// index 0. `push` appends at the tail; `pop` removes the head.
pub(crate) struct Queue<T> {
    vec: Vec<T>,
}

impl<T> View for Queue<T> {
    type V = Seq<T>;

    closed spec fn view(&self) -> Seq<T> {
        self.vec@
    }
}

impl<T> Queue<T> {
    pub(crate) fn new() -> (r: Self)
        ensures
            r@ == Seq::<T>::empty(),
    {
        Self { vec: Vec::new() }
    }

    pub(crate) fn push(&mut self, t: T)
        ensures
            final(self)@ == old(self)@.push(t),
    {
        self.vec.push(t);
    }

    pub(crate) fn pop(&mut self) -> (r: Option<T>)
        ensures
            old(self)@.len() == 0 ==> r is None && final(self)@ == old(self)@,
            old(self)@.len() > 0 ==> r == Some(old(self)@[0]) && final(self)@ == old(self)@.drop_first(),
    {
        if self.vec.is_empty() {
            None
        } else {
            Some(self.vec.remove(0))
        }
    }
}

} // verus!
