//! A double buffer: one buffer is read while the other is written, and a
//! swap exchanges the two roles. Readers get plain borrows of the buffers;
//! the owner alone mutates them.

use vstd::prelude::*;

verus! {

/// Two buffers and a marker saying which of them is currently active.
#[derive(Debug)]
pub struct DoubleBuffer<T> {
    primary: Vec<T>,
    secondary: Vec<T>,
    active: usize,
}

impl<T> DoubleBuffer<T> {
    /// The active marker only ever picks one of the two buffers.
    #[verifier::type_invariant]
    spec fn wf(self) -> bool {
        self.active < 2
    }

    /// The contents of the buffer currently presented to readers.
    pub closed spec fn active_view(self) -> Seq<T> {
        if self.active == 0 {
            self.primary@
        } else {
            self.secondary@
        }
    }

    /// The contents of the buffer currently open for writing.
    pub closed spec fn inactive_view(self) -> Seq<T> {
        if self.active == 0 {
            self.secondary@
        } else {
            self.primary@
        }
    }

    /// Two empty buffers, each with room for `size` elements.
    pub fn new(size: usize) -> (result: DoubleBuffer<T>)
        ensures
            result.active_view() == Seq::<T>::empty(),
            result.inactive_view() == Seq::<T>::empty(),
    {
        DoubleBuffer {
            primary: Vec::with_capacity(size),
            secondary: Vec::with_capacity(size),
            active: 0,
        }
    }

    /// Borrows the buffer currently presented to readers.
    pub fn get_active_buffer(&self) -> (result: &Vec<T>)
        ensures
            result@ == self.active_view(),
    {
        proof {
            use_type_invariant(self);
        }
        if self.active == 0 {
            &self.primary
        } else {
            &self.secondary
        }
    }

    /// Borrows the buffer currently open for writing.
    pub fn get_inactive_buffer(&self) -> (result: &Vec<T>)
        ensures
            result@ == self.inactive_view(),
    {
        proof {
            use_type_invariant(self);
        }
        if self.active == 0 {
            &self.secondary
        } else {
            &self.primary
        }
    }

    /// Exchanges the roles of the two buffers.
    pub fn swap_buffers(&mut self)
        ensures
            final(self).active_view() == old(self).inactive_view(),
            final(self).inactive_view() == old(self).active_view(),
    {
        proof {
            use_type_invariant(&*self);
        }
        self.active = 1 - self.active;
    }

    /// Replaces the contents of the inactive buffer.
    pub fn write_to_inactive_buffer(&mut self, data: Vec<T>)
        ensures
            final(self).inactive_view() == data@,
            final(self).active_view() == old(self).active_view(),
    {
        proof {
            use_type_invariant(&*self);
        }
        if self.active == 0 {
            self.secondary = data;
        } else {
            self.primary = data;
        }
    }
}

} // verus!
