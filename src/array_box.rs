use crate::buffer::BufFor;
use crate::capacity::{
    admission, combined, combined_size, layout_of, lemma_combined_dominates, Capacity,
    ConstructError,
};
use core::borrow::{Borrow, BorrowMut};
use core::marker::PhantomData;
use core::ops::{Deref, DerefMut};
use vstd::prelude::*;

verus! {

/// What constructing a box of buffer type `B` from `source` yields: the value
/// it then holds, or the value handed back with the reason it did not fit.
pub open spec fn construction<T, B>(source: T) -> Result<T, (T, ConstructError)> {
    match admission(layout_of::<B>(), layout_of::<T>()) {
        Ok(()) => Ok(source),
        Err(e) => Err((source, e)),
    }
}

/// A value whose type fits the buffer is held as it was given: construction
/// succeeds, and the box then reads back exactly `source`.
pub proof fn lemma_fitting_value_reads_back<T, B>(source: T)
    requires
        layout_of::<B>().holds(layout_of::<T>()),
    ensures
        construction::<T, B>(source) == Ok::<T, (T, ConstructError)>(source),
{
}

/// A value larger than the buffer, whose alignment the buffer meets, is refused
/// with `CapacityExceeded` and handed back untouched; `new` may not be called
/// with it.
pub proof fn lemma_oversized_value_refused<T, B>(source: T)
    requires
        layout_of::<T>().size > layout_of::<B>().size,
        layout_of::<T>().align <= layout_of::<B>().align,
    ensures
        admission(layout_of::<B>(), layout_of::<T>()) == Err::<(), ConstructError>(
            ConstructError::CapacityExceeded,
        ),
        construction::<T, B>(source) == Err::<T, (T, ConstructError)>(
            (source, ConstructError::CapacityExceeded),
        ),
{
}

/// A value that needs a stricter alignment than the buffer has is refused with
/// `AlignmentExceeded` and handed back untouched; `new` may not be called with
/// it.
pub proof fn lemma_overaligned_value_refused<T, B>(source: T)
    requires
        layout_of::<T>().align > layout_of::<B>().align,
    ensures
        admission(layout_of::<B>(), layout_of::<T>()) == Err::<(), ConstructError>(
            ConstructError::AlignmentExceeded,
        ),
        construction::<T, B>(source) == Err::<T, (T, ConstructError)>(
            (source, ConstructError::AlignmentExceeded),
        ),
{
}

/// A buffer type at least as large and as aligned as the combined capacity of
/// `T1` and `T2` takes a value of either type, and each reads back as it was
/// given.
pub proof fn lemma_combined_buffer_takes_both<T1, T2, B>(first: T1, second: T2)
    requires
        layout_of::<T1>().wf(),
        layout_of::<T2>().wf(),
        combined_size(layout_of::<T1>(), layout_of::<T2>()) <= isize::MAX,
        layout_of::<B>().holds(combined(layout_of::<T1>(), layout_of::<T2>())),
    ensures
        admission(layout_of::<B>(), layout_of::<T1>()) == Ok::<(), ConstructError>(()),
        admission(layout_of::<B>(), layout_of::<T2>()) == Ok::<(), ConstructError>(()),
        construction::<T1, B>(first) == Ok::<T1, (T1, ConstructError)>(first),
        construction::<T2, B>(second) == Ok::<T2, (T2, ConstructError)>(second),
{
    lemma_combined_dominates(layout_of::<T1>(), layout_of::<T2>());
}

/// A container that holds one value of type `T` as a plain field, never on the
/// heap, and admits it only where `T` is no larger and no more strictly aligned
/// than the buffer type `B`.
///
/// The layout of `T` is recorded when the box is made, together with the layout
/// of `B`, and the second is known to hold the first for as long as the box
/// exists.
pub struct ArrayBox<T, B> {
    fit: Fit<T, B>,
    value: T,
}

/// A buffer together with the layout of the type it was found to hold.
struct Fit<T, B> {
    buf: BufFor<B>,
    shape: Capacity,
    marker: PhantomData<T>,
}

impl<T, B> Fit<T, B> {
    #[verifier::type_invariant]
    spec fn inv(self) -> bool {
        &&& self.shape == layout_of::<T>()
        &&& self.shape.wf()
        &&& self.buf.capacity().holds(self.shape)
    }

    /// Storage for `B`, where `B` is known to hold `T`.
    fn new() -> (r: Self)
        requires
            admission(layout_of::<B>(), layout_of::<T>()) == Ok::<(), ConstructError>(()),
    {
        let buf = BufFor::<B>::new();
        let shape = Capacity::of::<T>();
        Fit { buf, shape, marker: PhantomData }
    }

    /// Storage for `B`, where it holds `T`; else why it does not.
    fn try_new() -> (r: Result<Self, ConstructError>)
        ensures
            match r {
                Ok(_) => admission(layout_of::<B>(), layout_of::<T>()) == Ok::<(), ConstructError>(()),
                Err(e) => admission(layout_of::<B>(), layout_of::<T>()) == Err::<(), ConstructError>(e),
            },
    {
        let buf = BufFor::<B>::new();
        let shape = Capacity::of::<T>();
        match buf.layout().check_fit(&shape) {
            Ok(()) => Ok(Fit { buf, shape, marker: PhantomData }),
            Err(e) => Err(e),
        }
    }

    fn shape(&self) -> (r: Capacity)
        ensures
            r == layout_of::<T>(),
            r.wf(),
    {
        proof {
            use_type_invariant(self);
        }
        self.shape
    }

    fn capacity(&self) -> (r: Capacity)
        ensures
            r == layout_of::<B>(),
            r.wf(),
            r.holds(layout_of::<T>()),
    {
        proof {
            use_type_invariant(self);
        }
        self.buf.layout()
    }
}

impl<T, B> View for ArrayBox<T, B> {
    type V = T;

    /// The value the box holds.
    closed spec fn view(&self) -> T {
        self.value
    }
}

impl<T, B> ArrayBox<T, B> {
    /// Places `source` into a new box.
    ///
    /// The buffer type must be at least as large and as aligned as `T`.
    pub fn new(source: T) -> (r: Self)
        requires
            admission(layout_of::<B>(), layout_of::<T>()) == Ok::<(), ConstructError>(()),
        ensures
            r@ == source,
    {
        ArrayBox { fit: Fit::new(), value: source }
    }

    /// Places `source` into a new box, or hands it back untouched with the
    /// reason it does not fit: `AlignmentExceeded` where `T` needs a stricter
    /// alignment than `B`, else `CapacityExceeded` where `T` is larger than `B`.
    pub fn try_new(source: T) -> (r: Result<Self, (T, ConstructError)>)
        ensures
            match r {
                Ok(b) => construction::<T, B>(source) == Ok::<T, (T, ConstructError)>(b@),
                Err(e) => construction::<T, B>(source) == Err::<T, (T, ConstructError)>(e),
            },
    {
        match Fit::try_new() {
            Ok(fit) => Ok(ArrayBox { fit, value: source }),
            Err(e) => Err((source, e)),
        }
    }

    /// The layout of the held value, captured when the box was made.
    pub fn shape(&self) -> (r: Capacity)
        ensures
            r == layout_of::<T>(),
            r.wf(),
    {
        self.fit.shape()
    }

    /// The capacity of the box's buffer, which holds the layout of the value.
    pub fn capacity(&self) -> (r: Capacity)
        ensures
            r == layout_of::<B>(),
            r.wf(),
            r.holds(layout_of::<T>()),
    {
        self.fit.capacity()
    }

    /// A shared view of the held value.
    pub fn as_ptr(&self) -> (r: &T)
        ensures
            *r == self@,
    {
        &self.value
    }

    /// An exclusive view of the held value; what is written through it is
    /// what the box then holds.
    pub fn as_mut_ptr(&mut self) -> (r: &mut T)
        ensures
            *r == old(self)@,
            final(self)@ == *final(r),
    {
        &mut self.value
    }
}

impl<T, B> AsRef<T> for ArrayBox<T, B> {
    fn as_ref(&self) -> (r: &T)
        ensures
            *r == self@,
    {
        self.as_ptr()
    }
}

impl<T, B> AsMut<T> for ArrayBox<T, B> {
    fn as_mut(&mut self) -> (r: &mut T)
        ensures
            *r == old(self)@,
            final(self)@ == *final(r),
    {
        self.as_mut_ptr()
    }
}

impl<T, B> Borrow<T> for ArrayBox<T, B> {
    fn borrow(&self) -> &T
        returns
            &self@,
    {
        self.as_ptr()
    }
}

impl<T, B> BorrowMut<T> for ArrayBox<T, B> {
    // Left without a contract: naming its result is ambiguous here beside
    // std's blanket `BorrowMut<T> for T`. It is `as_mut_ptr`, whose contract
    // states the view.
    fn borrow_mut(&mut self) -> &mut T {
        self.as_mut_ptr()
    }
}

impl<T, B> Deref for ArrayBox<T, B> {
    type Target = T;

    fn deref(&self) -> (r: &T)
        ensures
            *r == self@,
    {
        self.as_ptr()
    }
}

impl<T, B> DerefMut for ArrayBox<T, B> {
    fn deref_mut(&mut self) -> (r: &mut T)
        ensures
            *r == old(self)@,
            final(self)@ == *final(r),
    {
        self.as_mut_ptr()
    }
}

} // verus!
