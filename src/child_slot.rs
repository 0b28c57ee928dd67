//! The slot that holds the server's process handle between launch and exit.
use vstd::prelude::*;

verus! {

/// What taking from a slot that holds `held` yields: the handle it held, and
/// the slot left behind, which is always empty.
pub open spec fn take_spec<T>(held: Option<T>) -> (Option<T>, Option<T>) {
    (held, None)
}

/// Holds at most one process handle. A handle can be taken out once; nothing
/// puts one back, so once taken the slot stays empty.
pub struct ChildSlot<T> {
    child: Option<T>,
}

impl<T> ChildSlot<T> {
    /// The handle the slot holds, if any.
    pub closed spec fn held(&self) -> Option<T> {
        self.child
    }

    /// A slot holding the handle of a freshly launched process.
    pub fn new(child: T) -> (r: ChildSlot<T>)
        ensures
            r.held() == Some(child),
    {
        ChildSlot { child: Some(child) }
    }

    /// A slot with no process in it.
    pub fn empty() -> (r: ChildSlot<T>)
        ensures
            r.held() is None,
    {
        ChildSlot { child: None }
    }

    pub fn is_empty(&self) -> (r: bool)
        ensures
            r == self.held() is None,
    {
        self.child.is_none()
    }

    /// Takes the handle out for termination, leaving the slot empty.
    pub fn take(&mut self) -> (r: Option<T>)
        ensures
            (r, final(self).held()) == take_spec(old(self).held()),
    {
        let r = self.child.take();
        r
    }
}

/// Shutting down twice is safe: the second take finds the slot empty,
/// yields nothing and leaves it empty, whatever the slot held at first.
pub proof fn lemma_second_take_is_noop<T>(held: Option<T>)
    ensures
        take_spec(take_spec(held).1) == (None::<T>, None::<T>),
        take_spec(held).0 == held,
{
}

} // verus!
