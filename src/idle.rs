use vstd::prelude::*;

verus! {

/// Deferred callbacks of one window, in the order in which they run.
pub struct IdleQueue<T> {
    items: Vec<T>,
}

/// What enqueuing one callback does: the callback goes to the tail, and a
/// wake request is owed exactly when the queue was empty before.
pub open spec fn enqueue_step<T>(q: Seq<T>, callback: T) -> (Seq<T>, bool) {
    (q.push(callback), q.len() == 0)
}

impl<T> IdleQueue<T> {
    /// The pending callbacks, oldest first.
    pub closed spec fn items_spec(&self) -> Seq<T> {
        self.items@
    }

    pub fn new() -> (r: IdleQueue<T>)
        ensures
            r.items_spec() == Seq::<T>::empty(),
    {
        IdleQueue { items: Vec::new() }
    }

    pub fn is_empty(&self) -> (r: bool)
        ensures
            r == (self.items_spec().len() == 0),
    {
        self.items.len() == 0
    }

    pub fn len(&self) -> (r: usize)
        ensures
            r == self.items_spec().len(),
    {
        self.items.len()
    }

    /// Appends `callback` and reports whether the native scheduler must be
    /// woken, which is the case exactly when the queue was empty.
    pub fn push(&mut self, callback: T) -> (wake: bool)
        ensures
            (final(self).items_spec(), wake) == enqueue_step(old(self).items_spec(), callback),
            final(self).items_spec() == old(self).items_spec().push(callback),
            wake == (old(self).items_spec().len() == 0),
    {
        let wake = self.items.len() == 0;
        self.items.push(callback);
        wake
    }

    /// Swaps the whole contents out for an empty queue and returns them in
    /// insertion order.
    pub fn take_all(&mut self) -> (r: Vec<T>)
        ensures
            r@ == old(self).items_spec(),
            final(self).items_spec() == Seq::<T>::empty(),
    {
        let mut taken: Vec<T> = Vec::new();
        std::mem::swap(&mut taken, &mut self.items);
        taken
    }
}

} // verus!
