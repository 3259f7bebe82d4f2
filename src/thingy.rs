use vstd::prelude::*;

verus! {

/// A receiver: plain mutable state that a bound callback may change.
#[derive(Debug, Clone, Copy, PartialEq, Eq, Structural)]
pub struct Thingy {
    pub count: i32,
}

impl Thingy {
    /// A receiver whose counter starts at `count`.
    pub fn new(count: i32) -> (r: Thingy)
        ensures
            r.count == count,
    {
        Thingy { count }
    }

    /// Adds `n` to the counter.
    pub fn add_count(&mut self, n: i32)
        requires
            i32::MIN <= old(self).count + n <= i32::MAX,
        ensures
            final(self).count == old(self).count + n,
    {
        self.count = self.count + n;
    }

    /// Takes one from the counter; the argument is ignored.
    pub fn decrement_count(&mut self, _n: i32)
        requires
            old(self).count > i32::MIN,
        ensures
            final(self).count == old(self).count - 1,
    {
        self.count = self.count - 1;
    }

    /// The state after `add_count(n)`, in the shape a bound callback takes.
    pub fn added(self, n: i32) -> (r: Thingy)
        requires
            i32::MIN <= self.count + n <= i32::MAX,
        ensures
            r.count == self.count + n,
    {
        let mut next = self;
        next.add_count(n);
        next
    }

    /// The state after `decrement_count(n)`, in the shape a bound callback
    /// takes.
    pub fn decremented(self, n: i32) -> (r: Thingy)
        requires
            self.count > i32::MIN,
        ensures
            r.count == self.count - 1,
    {
        let mut next = self;
        next.decrement_count(n);
        next
    }
}

} // verus!
