use crate::capacity::{layout_of, Capacity};
use core::marker::PhantomData;
use core::mem::ManuallyDrop;
use vstd::prelude::*;

verus! {

/// A type whose size and alignment are at least those of `T1` and of `T2`, for
/// use as the buffer type of a box that may hold a value of either type.
pub union AnyOf2<T1, T2> {
    first: ManuallyDrop<T1>,
    second: ManuallyDrop<T2>,
}

/// The capacity descriptor of the buffer type `B`: a record of its size and
/// alignment, against which the layout of a value is checked.
pub struct BufFor<B> {
    size: usize,
    align: usize,
    marker: PhantomData<B>,
}

impl<B> BufFor<B> {
    #[verifier::type_invariant]
    spec fn inv(self) -> bool {
        self.capacity() == layout_of::<B>() && self.capacity().wf()
    }

    /// The size and alignment recorded for `B`.
    pub closed spec fn capacity(self) -> Capacity {
        Capacity { size: self.size, align: self.align }
    }

    /// Records the size and alignment of the type `B`.
    pub fn new() -> (r: Self)
        ensures
            r.capacity() == layout_of::<B>(),
            r.capacity().wf(),
    {
        let cap = Capacity::of::<B>();
        BufFor { size: cap.size, align: cap.align, marker: PhantomData }
    }

    /// The size and alignment recorded for `B`.
    pub fn layout(&self) -> (r: Capacity)
        ensures
            r == self.capacity(),
            r == layout_of::<B>(),
            r.wf(),
    {
        proof {
            use_type_invariant(self);
        }
        Capacity { size: self.size, align: self.align }
    }

    /// The size, in bytes, recorded for `B`.
    pub fn required_size(&self) -> (r: usize)
        ensures
            r == layout_of::<B>().size,
    {
        proof {
            use_type_invariant(self);
        }
        self.size
    }

    /// The alignment, in bytes, recorded for `B`.
    pub fn required_alignment(&self) -> (r: usize)
        ensures
            r == layout_of::<B>().align,
    {
        proof {
            use_type_invariant(self);
        }
        self.align
    }
}

} // verus!
