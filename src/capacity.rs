use vstd::arithmetic::power2::is_pow2;
use vstd::layout::{align_of, size_of};
use vstd::prelude::*;

verus! {

/// The size and alignment, in bytes, that a region of storage commits to.
#[derive(Clone, Copy, Debug, PartialEq, Eq, Structural)]
pub struct Capacity {
    pub size: usize,
    pub align: usize,
}

/// Why a value could not be placed into a buffer.
#[derive(Clone, Copy, Debug, PartialEq, Eq, Structural)]
pub enum ConstructError {
    /// The value is larger than the buffer.
    CapacityExceeded,
    /// The value needs a stricter alignment than the buffer has.
    AlignmentExceeded,
}

/// The layout of the sized type `T`.
pub open spec fn layout_of<T>() -> Capacity {
    Capacity { size: size_of::<T>() as usize, align: align_of::<T>() as usize }
}

/// Whether storage of capacity `cap` can receive a value whose layout is `shape`;
/// the alignment is examined before the size.
pub open spec fn admission(cap: Capacity, shape: Capacity) -> Result<(), ConstructError> {
    if shape.align > cap.align {
        Err(ConstructError::AlignmentExceeded)
    } else if shape.size > cap.size {
        Err(ConstructError::CapacityExceeded)
    } else {
        Ok(())
    }
}

/// The smallest multiple of `align` that is at least `n`.
pub open spec fn round_up(n: int, align: int) -> int
    recommends
        align > 0,
{
    if n % align == 0 {
        n
    } else {
        n + (align - n % align)
    }
}

/// The larger of two alignments.
pub open spec fn max_align(a: Capacity, b: Capacity) -> usize {
    if a.align >= b.align { a.align } else { b.align }
}

/// The larger of two sizes, rounded up to the larger alignment.
pub open spec fn combined_size(a: Capacity, b: Capacity) -> int {
    let size = if a.size >= b.size { a.size } else { b.size };
    round_up(size as int, max_align(a, b) as int)
}

/// The layout of storage that can hold either of two layouts, one at a time.
pub open spec fn combined(a: Capacity, b: Capacity) -> Capacity {
    Capacity { size: combined_size(a, b) as usize, align: max_align(a, b) }
}

impl Capacity {
    /// A layout that some Rust type can have: a power-of-two alignment, and a
    /// size that is a multiple of it and fits in `isize`.
    pub open spec fn wf(self) -> bool {
        &&& is_pow2(self.align as int)
        &&& self.align > 0
        &&& self.size % self.align == 0
        &&& self.size <= isize::MAX
    }

    /// Whether this capacity is at least as large and as aligned as `shape`.
    pub open spec fn holds(self, shape: Capacity) -> bool {
        shape.size <= self.size && shape.align <= self.align
    }

    /// The size and alignment of the type `T`.
    pub fn of<T>() -> (r: Capacity)
        ensures
            r == layout_of::<T>(),
            r.wf(),
    {
        vstd::layout::layout_for_type_is_valid::<T>();
        let r = Capacity { size: core::mem::size_of::<T>(), align: core::mem::align_of::<T>() };
        proof {
            broadcast use vstd::layout::group_align_properties;
            assert(is_pow2(r.align as int));
        }
        r
    }

    /// Decides whether a value of layout `shape` may be placed into storage of
    /// this capacity: the alignment is examined first, then the size.
    pub fn check_fit(&self, shape: &Capacity) -> (r: Result<(), ConstructError>)
        ensures
            r == admission(*self, *shape),
    {
        if shape.align > self.align {
            Err(ConstructError::AlignmentExceeded)
        } else if shape.size > self.size {
            Err(ConstructError::CapacityExceeded)
        } else {
            Ok(())
        }
    }

    /// The capacity of storage that can hold a value of either layout, one at a
    /// time: the larger alignment, and the larger size rounded up to it.
    pub fn any_of2(a: &Capacity, b: &Capacity) -> (r: Capacity)
        requires
            a.wf(),
            b.wf(),
            combined_size(*a, *b) <= isize::MAX,
        ensures
            r == combined(*a, *b),
            r.wf(),
            r.holds(*a),
            r.holds(*b),
    {
        proof {
            lemma_combined_dominates(*a, *b);
        }
        let align = if a.align >= b.align { a.align } else { b.align };
        let size = if a.size >= b.size { a.size } else { b.size };
        let rem = size % align;
        let total = if rem == 0 { size } else { size + (align - rem) };
        Capacity { size: total, align }
    }
}

/// Rounding up to a positive alignment gives a multiple of it that is no
/// smaller than the input and less than one alignment above it.
pub proof fn lemma_round_up(n: int, align: int)
    requires
        n >= 0,
        align > 0,
    ensures
        round_up(n, align) >= n,
        round_up(n, align) < n + align,
        round_up(n, align) % align == 0,
        forall|m: int| m >= n && #[trigger] (m % align) == 0 ==> m >= round_up(n, align),
{
    if n % align != 0 {
        assert((n + (align - n % align)) % align == 0) by (nonlinear_arith)
            requires
                align > 0,
        {
            vstd::arithmetic::div_mod::lemma_fundamental_div_mod(n, align);
            vstd::arithmetic::div_mod::lemma_mod_multiples_basic(n / align + 1, align);
        }
        assert forall|m: int| m >= n && #[trigger] (m % align) == 0 implies m >= round_up(n, align) by {
            vstd::arithmetic::div_mod::lemma_fundamental_div_mod(n, align);
            vstd::arithmetic::div_mod::lemma_fundamental_div_mod(m, align);
            if m < n + (align - n % align) {
                assert(m / align <= n / align) by (nonlinear_arith)
                    requires
                        m == align * (m / align),
                        n == align * (n / align) + n % align,
                        m < align * (n / align) + align,
                        align > 0,
                ;
                assert(m <= align * (n / align)) by (nonlinear_arith)
                    requires
                        m == align * (m / align),
                        m / align <= n / align,
                        align > 0,
                ;
            }
        }
    }
}

/// The combined capacity of two layouts holds each of them, has the larger of
/// their alignments, and is the smallest size with that alignment that holds both.
pub proof fn lemma_combined_dominates(a: Capacity, b: Capacity)
    requires
        a.wf(),
        b.wf(),
        combined_size(a, b) <= isize::MAX,
    ensures
        combined(a, b).wf(),
        combined(a, b).holds(a),
        combined(a, b).holds(b),
        combined(a, b).align == a.align || combined(a, b).align == b.align,
        forall|c: Capacity|
            #![trigger c.holds(a), c.holds(b)]
            c.holds(a) && c.holds(b) && c.align == combined(a, b).align && c.size % c.align == 0
                ==> c.size >= combined(a, b).size,
{
    let align: int = if a.align >= b.align { a.align as int } else { b.align as int };
    let size: int = if a.size >= b.size { a.size as int } else { b.size as int };
    lemma_round_up(size, align);
}

/// Storage of the combined capacity of two layouts admits a value of either
/// layout, and is at least as large and as aligned as each.
pub proof fn lemma_combined_admits_both(a: Capacity, b: Capacity)
    requires
        a.wf(),
        b.wf(),
        combined_size(a, b) <= isize::MAX,
    ensures
        admission(combined(a, b), a) == Ok::<(), ConstructError>(()),
        admission(combined(a, b), b) == Ok::<(), ConstructError>(()),
        combined(a, b).size >= a.size && combined(a, b).size >= b.size,
        combined(a, b).align >= a.align && combined(a, b).align >= b.align,
{
    lemma_combined_dominates(a, b);
}

} // verus!
