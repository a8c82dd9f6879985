use core::cmp::Ordering;
use vstd::prelude::*;
use vstd::std_specs::cmp::{PartialOrdSpec, PartialOrdSpecImpl};

verus! {

/// A quantity of memory, counted in bytes.
///
/// Two sizes are equal exactly when they hold the same byte count, whichever
/// constructor produced them, and sizes are ordered by their byte counts.
#[derive(Debug, Clone, Copy, PartialEq, Eq, Structural, Ord, Hash)]
pub struct ByteSize(u64);

impl View for ByteSize {
    type V = nat;

    /// The byte count.
    closed spec fn view(&self) -> nat {
        self.0 as nat
    }
}

impl PartialOrdSpecImpl for ByteSize {
    open spec fn obeys_partial_cmp_spec() -> bool {
        true
    }

    /// Sizes compare as their byte counts do.
    open spec fn partial_cmp_spec(&self, other: &Self) -> Option<Ordering> {
        if self@ < other@ {
            Some(Ordering::Less)
        } else if self@ == other@ {
            Some(Ordering::Equal)
        } else {
            Some(Ordering::Greater)
        }
    }
}

impl PartialOrd for ByteSize {
    fn partial_cmp(&self, other: &Self) -> (r: Option<Ordering>) {
        if self.0 < other.0 {
            Some(Ordering::Less)
        } else if self.0 == other.0 {
            Some(Ordering::Equal)
        } else {
            Some(Ordering::Greater)
        }
    }
}

impl ByteSize {
    /// A size of `n` bytes.
    pub fn bytes(n: u64) -> (r: Self)
        ensures
            r@ == n,
    {
        ByteSize(n)
    }

    /// A size of `n` kibibytes (`n * 1024` bytes).
    pub fn kib(n: u64) -> (r: Self)
        requires
            n * 1024 <= u64::MAX,
        ensures
            r@ == n * 1024,
    {
        ByteSize(n * 1024)
    }

    /// A size of `n` mebibytes (`n * 1024 * 1024` bytes).
    pub fn mib(n: u64) -> (r: Self)
        requires
            n * 1024 * 1024 <= u64::MAX,
        ensures
            r@ == n * 1024 * 1024,
    {
        ByteSize(n * 1024 * 1024)
    }

    /// A size of `n` gibibytes (`n * 1024 * 1024 * 1024` bytes).
    pub fn gib(n: u64) -> (r: Self)
        requires
            n * 1024 * 1024 * 1024 <= u64::MAX,
        ensures
            r@ == n * 1024 * 1024 * 1024,
    {
        ByteSize(n * 1024 * 1024 * 1024)
    }

    /// The byte count.
    pub fn as_bytes(self) -> (r: u64)
        ensures
            r == self@,
    {
        self.0
    }

    /// Every size has a byte count that fits in a `u64`.
    pub proof fn lemma_view_bounded(self)
        ensures
            self@ <= u64::MAX,
    {
    }

    /// Sizes are equal exactly when their byte counts are: the constructor
    /// that produced a size leaves no trace in it.
    pub proof fn lemma_eq_iff_same_bytes(a: ByteSize, b: ByteSize)
        ensures
            (a == b) <==> (a@ == b@),
    {
    }

    /// Sizes are ordered by their byte counts: one size is smaller than
    /// another exactly when it holds fewer bytes.
    pub proof fn lemma_ordered_by_bytes(a: ByteSize, b: ByteSize)
        ensures
            (PartialOrdSpec::partial_cmp_spec(&a, &b) == Some(Ordering::Less)) <==> a@ < b@,
            (PartialOrdSpec::partial_cmp_spec(&a, &b) == Some(Ordering::Equal)) <==> a@ == b@,
            (PartialOrdSpec::partial_cmp_spec(&a, &b) == Some(Ordering::Greater)) <==> a@ > b@,
    {
    }

    /// Each unit is 1024 of the unit below it: a size of `kib(1024 * n)` is
    /// the size `mib(n)`, and a size of `mib(1024 * n)` is the size `gib(n)`
    /// (`a`, `b`, `c` and `d` hold the byte counts those constructors
    /// promise).
    pub proof fn lemma_units_scale_by_1024(n: nat, a: ByteSize, b: ByteSize, c: ByteSize, d: ByteSize)
        requires
            a@ == (1024 * n) * 1024,
            b@ == n * 1024 * 1024,
            c@ == (1024 * n) * 1024 * 1024,
            d@ == n * 1024 * 1024 * 1024,
        ensures
            a == b,
            c == d,
    {
        assert((1024 * n) * 1024 == n * 1024 * 1024) by (nonlinear_arith);
        assert((1024 * n) * 1024 * 1024 == n * 1024 * 1024 * 1024) by (nonlinear_arith);
    }
}

} // verus!
