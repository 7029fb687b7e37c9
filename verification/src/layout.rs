//! The memory layout of an oracle account: a `#[repr(C)]` record of the `u64`
//! sequence number followed by a payload of a caller-chosen size and alignment.
use vstd::prelude::*;

verus! {

/// Size in bytes of the sequence number that opens every oracle account.
pub const SEQUENCE_SIZE: usize = 8;

/// Alignment of the sequence number: that of `u64` on the target (8 on
/// 64-bit targets, 4 on some 32-bit ones).
pub open spec fn sequence_align() -> nat {
    vstd::layout::align_of::<u64>()
}

/// Largest alignment that Rust admits for a type (2^29).
pub const MAX_ALIGN: usize = 536870912;

/// `n` is a power of two.
pub open spec fn is_power_of_two(n: nat) -> bool
    decreases n,
{
    if n <= 1 {
        n == 1
    } else {
        n % 2 == 0 && is_power_of_two(n / 2)
    }
}

/// The smallest multiple of `a` that is not below `n`.
pub open spec fn round_up(n: int, a: int) -> int
    recommends
        a > 0,
{
    ((n + a - 1) / a) * a
}

/// Offset of the payload inside the record: the sequence number, padded up to
/// the payload's alignment.
pub open spec fn payload_offset(align: nat) -> int {
    round_up(SEQUENCE_SIZE as int, align as int)
}

/// Alignment of the whole record: the larger of its two fields' alignments.
pub open spec fn record_align(align: nat) -> int {
    if align <= sequence_align() {
        sequence_align() as int
    } else {
        align as int
    }
}

/// Size of the record (what `size_of` gives for the oracle account type):
/// payload offset plus payload size, padded up to the record's alignment.
pub open spec fn record_size(size: nat, align: nat) -> int {
    round_up(payload_offset(align) + size, record_align(align))
}

/// A payload of `size` bytes aligned to `align` is a layout that Rust admits:
/// the alignment is a power of two no larger than `MAX_ALIGN`, the size is a
/// multiple of it, and the whole record fits in `isize::MAX` bytes.
pub open spec fn valid_layout(size: nat, align: nat) -> bool {
    &&& is_power_of_two(align)
    &&& align <= MAX_ALIGN
    &&& size % align == 0
    &&& record_size(size, align) <= isize::MAX
}

/// The size and alignment of a payload type: what the oracle account layout
/// reads of it.
#[derive(Clone, Copy, Debug, PartialEq, Eq)]
pub struct PayloadLayout {
    size: usize,
    align: usize,
}

proof fn lemma_small_power_of_two(a: nat)
    requires
        is_power_of_two(a),
        a <= 8,
    ensures
        a == 1 || a == 2 || a == 4 || a == 8,
{
    reveal_with_fuel(is_power_of_two, 4);
}

proof fn lemma_power_of_two_positive(a: nat)
    requires
        is_power_of_two(a),
    ensures
        a >= 1,
    decreases a,
{
    if a > 1 {
        lemma_power_of_two_positive(a / 2);
    }
}

proof fn lemma_round_up_multiple(n: int, a: int)
    requires
        a > 0,
        n >= 0,
        n % a == 0,
    ensures
        round_up(n, a) == n,
{
    assert(((n + a - 1) / a) * a == n) by (nonlinear_arith)
        requires
            a > 0,
            n >= 0,
            n % a == 0,
    {
        let q = n / a;
        assert(n == q * a);
        assert((n + a - 1) / a == q);
    }
}

proof fn lemma_round_up_small(a: int)
    requires
        a > 8,
    ensures
        round_up(8, a) == a,
{
    assert((8 + a - 1) / a == 1) by (nonlinear_arith)
        requires
            a > 8,
    ;
}

/// The alignment of the sequence number is a power of two that divides its
/// size, so one of 1, 2, 4 and 8.
pub proof fn lemma_sequence_align()
    ensures
        sequence_align() == 1 || sequence_align() == 2 || sequence_align() == 4
            || sequence_align() == 8,
{
    broadcast use vstd::layout::layout_of_primitives, vstd::layout::align_properties,
        vstd::layout::align_nonzero;

    let a = sequence_align() as int;
    assert(vstd::layout::size_of::<u64>() == 8);
    assert(8int % a == 0);
    assert(a == 1 || a == 2 || a == 4 || a == 8) by (nonlinear_arith)
        requires
            a > 0,
            8int % a == 0,
    {
        if a > 8 {
            assert(8int % a == 8);
        }
    }
}

proof fn lemma_round_up_covers(n: int, a: int)
    requires
        a > 0,
    ensures
        round_up(n, a) >= n,
        round_up(n, a) <= n + a - 1,
        round_up(n, a) % a == 0,
{
    assert(((n + a - 1) / a) * a >= n && ((n + a - 1) / a) * a <= n + a - 1) by (nonlinear_arith)
        requires
            a > 0,
    ;
    assert((((n + a - 1) / a) * a) % a == 0) by (nonlinear_arith)
        requires
            a > 0,
    ;
}

/// For a valid layout the record size is computed by two simple cases.
proof fn lemma_record_size_cases(size: nat, align: nat)
    requires
        is_power_of_two(align),
        size % align == 0,
    ensures
        align <= 8 ==> record_align(align) <= 8 && record_align(align) >= 1 && record_size(
            size,
            align,
        ) == ((8 + size + record_align(align) - 1) / record_align(align)) * record_align(align),
        align > 8 ==> record_size(size, align) == align + size,
        record_size(size, align) >= SEQUENCE_SIZE + size,
        record_size(size, align) <= SEQUENCE_SIZE + size + align + 7,
{
    lemma_power_of_two_positive(align);
    lemma_sequence_align();
    if align <= 8 {
        lemma_small_power_of_two(align);
        assert(payload_offset(align) == 8);
        lemma_round_up_covers(8 + size as int, record_align(align));
    } else {
        lemma_round_up_small(align as int);
        assert((align + size) % align == 0) by (nonlinear_arith)
            requires
                size % align == 0,
                align > 0,
        ;
        lemma_round_up_multiple((align + size) as int, align as int);
    }
}

/// Where the record puts things: the payload at the first multiple of its
/// alignment at or after the eight sequence bytes, and the record's end at
/// the first multiple of the record's alignment (the larger of the
/// sequence's and the payload's) at or after the payload's end.
pub proof fn lemma_record_placement(size: nat, align: nat)
    requires
        valid_layout(size, align),
    ensures
        payload_offset(align) % (align as int) == 0,
        8 <= payload_offset(align) < 8 + align,
        record_align(align) >= align,
        record_align(align) >= sequence_align(),
        record_align(align) == align || record_align(align) == sequence_align(),
        record_size(size, align) % record_align(align) == 0,
        payload_offset(align) + size <= record_size(size, align) < payload_offset(align) + size
            + record_align(align),
{
    lemma_power_of_two_positive(align);
    lemma_sequence_align();
    lemma_round_up_covers(8, align as int);
    lemma_round_up_covers(payload_offset(align) + size, record_align(align));
}

/// Checks that `n` is a power of two.
fn check_power_of_two(n: usize) -> (r: bool)
    ensures
        r == is_power_of_two(n as nat),
{
    let mut m = n;
    while m > 1 && m % 2 == 0
        invariant
            is_power_of_two(m as nat) == is_power_of_two(n as nat),
        decreases m,
    {
        m = m / 2;
    }
    m == 1
}

impl PayloadLayout {
    #[verifier::type_invariant]
    closed spec fn inv(self) -> bool {
        valid_layout(self.size as nat, self.align as nat)
    }

    /// Size in bytes of the payload.
    pub closed spec fn spec_size(self) -> nat {
        self.size as nat
    }

    /// Alignment in bytes of the payload.
    pub closed spec fn spec_align(self) -> nat {
        self.align as nat
    }

    /// Size in bytes of an oracle account that holds such a payload.
    pub open spec fn spec_record_size(self) -> int {
        record_size(self.spec_size(), self.spec_align())
    }

    /// The layout of a payload of `size` bytes aligned to `align`; `None`
    /// where Rust admits no type of that layout in an oracle account.
    pub fn new(size: usize, align: usize) -> (r: Option<Self>)
        ensures
            r is Some <==> valid_layout(size as nat, align as nat),
            r matches Some(l) ==> l.spec_size() == size && l.spec_align() == align,
    {
        if !check_power_of_two(align) || align > MAX_ALIGN {
            return None;
        }
        proof {
            lemma_power_of_two_positive(align as nat);
        }
        if size % align != 0 {
            return None;
        }
        proof {
            lemma_record_size_cases(size as nat, align as nat);
        }
        let total: usize = if align <= 8 {
            if size > usize::MAX - 15 {
                return None;
            }
            let seq_align = core::mem::align_of::<u64>();
            let m = if align <= seq_align {
                seq_align
            } else {
                align
            };
            proof {
                lemma_sequence_align();
                lemma_round_up_covers(SEQUENCE_SIZE + size as int, m as int);
            }
            ((SEQUENCE_SIZE + size + (m - 1)) / m) * m
        } else {
            if size > usize::MAX - align {
                return None;
            }
            align + size
        };
        if total > isize::MAX as usize {
            return None;
        }
        Some(PayloadLayout { size, align })
    }

    /// The layout of the type `T`, as `core::mem::size_of` and
    /// `core::mem::align_of` give it; `None` where an oracle account cannot
    /// hold a `T` (its alignment is above `MAX_ALIGN`, or its record would
    /// not fit in `isize::MAX` bytes).
    pub fn of<T>() -> (r: Option<Self>)
        ensures
            r is Some <==> valid_layout(
                vstd::layout::size_of::<T>(),
                vstd::layout::align_of::<T>(),
            ),
            r matches Some(l) ==> l.spec_size() == vstd::layout::size_of::<T>() && l.spec_align()
                == vstd::layout::align_of::<T>(),
    {
        Self::new(core::mem::size_of::<T>(), core::mem::align_of::<T>())
    }

    /// The layout of a `u64` (or of a `#[repr(C)]` record of one `u64`).
    pub fn of_u64() -> (l: Self)
        ensures
            l.spec_size() == 8,
            l.spec_align() == sequence_align(),
    {
        let align = core::mem::align_of::<u64>();
        proof {
            lemma_sequence_align();
            reveal_with_fuel(is_power_of_two, 4);
            lemma_record_size_cases(8, align as nat);
        }
        PayloadLayout { size: 8, align }
    }

    /// Size in bytes of the payload; the record holds it after the eight
    /// sequence bytes.
    pub fn size(&self) -> (r: usize)
        ensures
            r == self.spec_size(),
            SEQUENCE_SIZE + r <= self.spec_record_size() <= isize::MAX,
    {
        proof {
            use_type_invariant(self);
            lemma_record_size_cases(self.size as nat, self.align as nat);
        }
        self.size
    }

    /// Alignment in bytes of the payload.
    pub fn align(&self) -> (r: usize)
        ensures
            r == self.spec_align(),
    {
        self.align
    }

    /// Size in bytes of an oracle account that holds such a payload.
    pub fn record_size(&self) -> (r: usize)
        ensures
            r == self.spec_record_size(),
            r <= isize::MAX,
            r >= SEQUENCE_SIZE + self.spec_size(),
    {
        proof {
            use_type_invariant(self);
            lemma_record_size_cases(self.size as nat, self.align as nat);
        }
        if self.align <= 8 {
            let seq_align = core::mem::align_of::<u64>();
            let m = if self.align <= seq_align {
                seq_align
            } else {
                self.align
            };
            proof {
                lemma_round_up_covers(SEQUENCE_SIZE + self.size as int, m as int);
            }
            ((SEQUENCE_SIZE + self.size + (m - 1)) / m) * m
        } else {
            self.align + self.size
        }
    }
}

} // verus!
