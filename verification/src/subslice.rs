//! Leasable buffers: a buffer plus an active window into it.
//!
//! A layer can narrow the window before passing the buffer on, and the
//! creating layer gets the whole buffer back with `reset` or `take`.
//! The buffer is owned here; `take` returns it whole.

use vstd::prelude::*;

verus! {

/// A mutable leasable buffer.
pub struct SubSliceMut<T> {
    pub internal: Vec<T>,
    pub start: usize,
    pub end: usize,
}

impl<T> SubSliceMut<T> {
    /// The window lies within the buffer.
    pub open spec fn wf(self) -> bool {
        self.start <= self.end <= self.internal@.len()
    }

    /// The bytes visible through the window.
    pub open spec fn active(self) -> Seq<T> {
        self.internal@.subrange(self.start as int, self.end as int)
    }

    /// Lease a whole buffer.
    pub fn new(buffer: Vec<T>) -> (r: SubSliceMut<T>)
        ensures
            r.wf(),
            r.internal@ == buffer@,
            r.start == 0,
            r.end == buffer@.len(),
    {
        let len = buffer.len();
        SubSliceMut { internal: buffer, start: 0, end: len }
    }

    /// The currently accessible portion.
    pub fn active_slice(&self) -> (r: &[T])
        requires
            self.wf(),
        ensures
            r@ == self.active(),
    {
        vstd::slice::slice_subrange(self.internal.as_slice(), self.start, self.end)
    }

    /// Give the whole buffer back, consuming the lease.
    pub fn take(self) -> (r: Vec<T>)
        ensures
            r@ == self.internal@,
    {
        self.internal
    }

    /// Widen the window to the whole buffer again.
    pub fn reset(&mut self)
        ensures
            final(self).internal@ == old(self).internal@,
            final(self).start == 0,
            final(self).end == old(self).internal@.len(),
            final(self).wf(),
    {
        self.start = 0;
        self.end = self.internal.len();
    }

    /// The length of the accessible portion.
    pub fn len(&self) -> (r: usize)
        requires
            self.wf(),
        ensures
            r == self.end - self.start,
    {
        self.end - self.start
    }

    /// The accessible portion, as a slice.
    pub fn as_slice(&self) -> (r: &[T])
        requires
            self.wf(),
        ensures
            r@ == self.active(),
    {
        vstd::slice::slice_subrange(self.internal.as_slice(), self.start, self.end)
    }

    /// Whether the window is narrower than the buffer.
    pub fn is_sliced(&self) -> (r: bool)
        requires
            self.wf(),
        ensures
            r == (self.internal@.len() != self.end - self.start),
    {
        self.internal.len() != self.end - self.start
    }

    /// Narrow the window to `[from, to)` of the current window.
    pub fn slice(&mut self, from: usize, to: usize)
        requires
            old(self).wf(),
            from <= to,
            to <= old(self).end - old(self).start,
        ensures
            final(self).wf(),
            final(self).internal@ == old(self).internal@,
            final(self).start == old(self).start + from,
            final(self).end == old(self).start + to,
            final(self).active() == old(self).active().subrange(from as int, to as int),
    {
        let new_start = self.start + from;
        let new_end = self.start + to;
        self.start = new_start;
        self.end = new_end;
        proof {
            assert(self.active() =~= old(self).active().subrange(from as int, to as int));
        }
    }
}

/// An immutable leasable buffer.
pub struct SubSlice<T> {
    pub internal: Vec<T>,
    pub start: usize,
    pub end: usize,
}

impl<T> SubSlice<T> {
    /// The window lies within the buffer.
    pub open spec fn wf(self) -> bool {
        self.start <= self.end <= self.internal@.len()
    }

    /// The bytes visible through the window.
    pub open spec fn active(self) -> Seq<T> {
        self.internal@.subrange(self.start as int, self.end as int)
    }

    /// Lease a whole buffer.
    pub fn new(buffer: Vec<T>) -> (r: SubSlice<T>)
        ensures
            r.wf(),
            r.internal@ == buffer@,
            r.start == 0,
            r.end == buffer@.len(),
    {
        let len = buffer.len();
        SubSlice { internal: buffer, start: 0, end: len }
    }

    /// The currently accessible portion.
    pub fn active_slice(&self) -> (r: &[T])
        requires
            self.wf(),
        ensures
            r@ == self.active(),
    {
        vstd::slice::slice_subrange(self.internal.as_slice(), self.start, self.end)
    }

    /// Give the whole buffer back, consuming the lease.
    pub fn take(self) -> (r: Vec<T>)
        ensures
            r@ == self.internal@,
    {
        self.internal
    }

    /// Widen the window to the whole buffer again.
    pub fn reset(&mut self)
        ensures
            final(self).internal@ == old(self).internal@,
            final(self).start == 0,
            final(self).end == old(self).internal@.len(),
            final(self).wf(),
    {
        self.start = 0;
        self.end = self.internal.len();
    }

    /// The length of the accessible portion.
    pub fn len(&self) -> (r: usize)
        requires
            self.wf(),
        ensures
            r == self.end - self.start,
    {
        self.end - self.start
    }

    /// The accessible portion, as a slice.
    pub fn as_slice(&self) -> (r: &[T])
        requires
            self.wf(),
        ensures
            r@ == self.active(),
    {
        vstd::slice::slice_subrange(self.internal.as_slice(), self.start, self.end)
    }

    /// Whether the window is narrower than the buffer.
    pub fn is_sliced(&self) -> (r: bool)
        requires
            self.wf(),
        ensures
            r == (self.internal@.len() != self.end - self.start),
    {
        self.internal.len() != self.end - self.start
    }

    /// Narrow the window to `[from, to)` of the current window.
    pub fn slice(&mut self, from: usize, to: usize)
        requires
            old(self).wf(),
            from <= to,
            to <= old(self).end - old(self).start,
        ensures
            final(self).wf(),
            final(self).internal@ == old(self).internal@,
            final(self).start == old(self).start + from,
            final(self).end == old(self).start + to,
            final(self).active() == old(self).active().subrange(from as int, to as int),
    {
        let new_start = self.start + from;
        let new_end = self.start + to;
        self.start = new_start;
        self.end = new_end;
        proof {
            assert(self.active() =~= old(self).active().subrange(from as int, to as int));
        }
    }
}

/// Either kind of leasable buffer, for code that must accept both.
pub enum SubSliceMutImmut<T> {
    Immutable(SubSlice<T>),
    Mutable(SubSliceMut<T>),
}

impl<T> SubSliceMutImmut<T> {
    pub open spec fn wf(self) -> bool {
        match self {
            SubSliceMutImmut::Immutable(b) => b.wf(),
            SubSliceMutImmut::Mutable(b) => b.wf(),
        }
    }

    pub open spec fn active(self) -> Seq<T> {
        match self {
            SubSliceMutImmut::Immutable(b) => b.active(),
            SubSliceMutImmut::Mutable(b) => b.active(),
        }
    }

    /// Widen the window to the whole buffer again.
    pub fn reset(&mut self)
        ensures
            final(self).wf(),
    {
        match self {
            SubSliceMutImmut::Immutable(b) => b.reset(),
            SubSliceMutImmut::Mutable(b) => b.reset(),
        }
    }

    /// The length of the accessible portion.
    pub fn len(&self) -> (r: usize)
        requires
            self.wf(),
        ensures
            r == self.active().len(),
    {
        match self {
            SubSliceMutImmut::Immutable(b) => b.len(),
            SubSliceMutImmut::Mutable(b) => b.len(),
        }
    }

    /// Narrow the window to `[from, to)` of the current window.
    pub fn slice(&mut self, from: usize, to: usize)
        requires
            old(self).wf(),
            from <= to,
            to <= old(self).active().len(),
        ensures
            final(self).wf(),
            final(self).active() == old(self).active().subrange(from as int, to as int),
    {
        match self {
            SubSliceMutImmut::Immutable(b) => b.slice(from, to),
            SubSliceMutImmut::Mutable(b) => b.slice(from, to),
        }
    }
}

} // verus!
