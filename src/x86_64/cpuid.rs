use super::{CpuId2, CpuIdEntry2, __IncompleteArrayField};
use vstd::layout::size_of;
use vstd::prelude::*;

verus! {

/// Maximum number of CPUID entries that a backend reports in one call.
pub const MAX_CPUID_ENTRIES: usize = 80;

/// The number of `unit`-byte elements that hold `bytes` bytes: `bytes / unit`
/// rounded up.
pub open spec fn units_for(bytes: nat, unit: nat) -> nat
    recommends
        unit > 0,
{
    ((bytes + unit - 1) as nat / unit) as nat
}

/// Returns a `Vec<T>` of default values whose size in bytes is the smallest
/// multiple of `size_of::<T>()` that is at least `size_in_bytes`.
pub fn vec_with_size_in_bytes<T: Default>(size_in_bytes: usize) -> (v: Vec<T>)
    requires
        size_of::<T>() > 0,
        size_in_bytes + size_of::<T>() - 1 <= usize::MAX,
    ensures
        v@.len() == units_for(size_in_bytes as nat, size_of::<T>()),
        v@.len() * size_of::<T>() >= size_in_bytes,
        size_in_bytes > 0 ==> (v@.len() - 1) * size_of::<T>() < size_in_bytes,
        forall|i: int| 0 <= i < v@.len() ==> call_ensures(T::default, (), #[trigger] v@[i]),
{
    proof {
        lemma_units_cover(size_in_bytes as nat, size_of::<T>());
    }
    let unit = core::mem::size_of::<T>();
    let rounded_size: usize = (size_in_bytes + (unit - 1)) / unit;
    let mut v: Vec<T> = Vec::with_capacity(rounded_size);
    let mut k: usize = 0;
    while k < rounded_size
        invariant
            k <= rounded_size,
            v@.len() == k,
            forall|i: int| 0 <= i < v@.len() ==> call_ensures(T::default, (), #[trigger] v@[i]),
        decreases rounded_size - k,
    {
        v.push(T::default());
        k = k + 1;
    }
    v
}

/// Returns a `Vec<T>` large enough to hold one `T` followed by `count` values
/// of `F`, for a `T` that ends in a zero-length array of `F`.
///
/// Only the first element is used as a `T`; the memory after it holds the
/// entries, contiguous with it and aligned as a `T` is.
pub fn vec_with_array_field<T: Default, F>(count: usize) -> (v: Vec<T>)
    requires
        size_of::<T>() > 0,
        size_of::<T>() + count * size_of::<F>() + size_of::<T>() - 1 <= usize::MAX,
    ensures
        v@.len() == units_for((size_of::<T>() + count * size_of::<F>()) as nat, size_of::<T>()),
        v@.len() * size_of::<T>() >= size_of::<T>() + count * size_of::<F>(),
        forall|i: int| 0 <= i < v@.len() ==> call_ensures(T::default, (), #[trigger] v@[i]),
{
    assert(count * size_of::<F>() <= usize::MAX) by (nonlinear_arith)
        requires
            size_of::<T>() + count * size_of::<F>() + size_of::<T>() - 1 <= usize::MAX,
            size_of::<T>() > 0,
    ;
    let element_space: usize = count * core::mem::size_of::<F>();
    let vec_size_bytes: usize = core::mem::size_of::<T>() + element_space;
    vec_with_size_in_bytes::<T>(vec_size_bytes)
}

/// `units_for(bytes, unit)` elements of `unit` bytes hold at least `bytes`
/// bytes, and one element fewer would not.
pub proof fn lemma_units_cover(bytes: nat, unit: nat)
    requires
        unit > 0,
    ensures
        units_for(bytes, unit) * unit >= bytes,
        bytes > 0 ==> (units_for(bytes, unit) - 1) * unit < bytes,
{
    let n = (bytes + unit - 1) as nat;
    let q = n / unit;
    vstd::arithmetic::div_mod::lemma_fundamental_div_mod(n as int, unit as int);
    let r = n % unit;
    assert(n == q * unit + r && 0 <= r < unit);
    assert(q * unit >= bytes) by (nonlinear_arith)
        requires
            n == q * unit + r,
            r < unit,
            n == bytes + unit - 1,
    ;
    assert(bytes > 0 ==> (q - 1) * unit < bytes) by (nonlinear_arith)
        requires
            n == q * unit + r,
            r >= 0,
            n == bytes + unit - 1,
    ;
}

/// A batch of CPUID entries: a `CpuId2` header followed by a number of entry
/// slots fixed at construction.
///
/// The header's count of entries is the logical size and may be written by a
/// backend through [`CpuId::as_mut_ptr`]; every view of the entries clamps it
/// to the number of allocated slots first, so no view reaches past them.
pub struct CpuId {
    /// The header; only its count and padding are stored.
    header: CpuId2,
    /// The entry slots that follow the header.
    entries: Vec<CpuIdEntry2>,
    /// Number of entry slots.
    allocated_len: usize,
}

impl CpuId {
    /// Number of entry slots, fixed at construction.
    pub closed spec fn capacity(&self) -> nat {
        self.allocated_len as nat
    }

    /// The count of entries that the header declares.
    pub closed spec fn declared(&self) -> nat {
        self.header.nent as nat
    }

    /// Every allocated entry slot, in order.
    pub closed spec fn slots(&self) -> Seq<CpuIdEntry2> {
        self.entries@
    }

    /// The slots number exactly the capacity, which a header count can hold.
    pub open spec fn wf(&self) -> bool {
        &&& self.slots().len() == self.capacity()
        &&& self.capacity() <= u32::MAX
    }

    /// The declared count, clamped to the number of slots.
    pub open spec fn clamped_len(&self) -> nat {
        if self.declared() <= self.slots().len() {
            self.declared()
        } else {
            self.slots().len()
        }
    }

    /// The entries in use: the first `clamped_len()` slots.
    pub open spec fn entries(&self) -> Seq<CpuIdEntry2> {
        self.slots().take(self.clamped_len() as int)
    }

    /// What [`CpuId::new`] makes for `n` slots: every slot zero and all of
    /// them declared.
    pub open spec fn is_new(&self, n: nat) -> bool {
        &&& self.wf()
        &&& self.capacity() == n
        &&& self.declared() == n
        &&& self.slots() == Seq::new(n, |_i: int| CpuIdEntry2::zero())
    }

    /// What [`CpuId::from_entries`] makes of `e`: one slot for each entry, all
    /// of them declared.
    pub open spec fn holds_exactly(&self, e: Seq<CpuIdEntry2>) -> bool {
        &&& self.wf()
        &&& self.capacity() == e.len()
        &&& self.declared() == e.len()
        &&& self.slots() == e
    }

    /// `self` and `other` hold the same header count and the same slots.
    pub open spec fn same_contents(&self, other: &CpuId) -> bool {
        &&& self.capacity() == other.capacity()
        &&& self.declared() == other.declared()
        &&& self.slots() == other.slots()
    }

    /// Creates a `CpuId` with `array_len` zeroed entry slots, all of them
    /// declared.
    pub fn new(array_len: usize) -> (r: CpuId)
        requires
            array_len <= u32::MAX,
        ensures
            r.is_new(array_len as nat),
    {
        let mut entries: Vec<CpuIdEntry2> = Vec::with_capacity(array_len);
        let mut k: usize = 0;
        while k < array_len
            invariant
                k <= array_len,
                entries@ == Seq::new(k as nat, |_i: int| CpuIdEntry2::zero()),
            decreases array_len - k,
        {
            entries.push(CpuIdEntry2::zeroed());
            k = k + 1;
            assert(entries@ =~= Seq::new(k as nat, |_i: int| CpuIdEntry2::zero()));
        }
        CpuId {
            header: CpuId2 {
                nent: array_len as u32,
                padding: 0,
                entries: __IncompleteArrayField::new(),
            },
            entries,
            allocated_len: array_len,
        }
    }

    /// Creates a `CpuId` that holds a copy of `entries`, in order, with one
    /// slot for each and all of them declared.
    pub fn from_entries(entries: &[CpuIdEntry2]) -> (r: CpuId)
        requires
            entries@.len() <= u32::MAX,
        ensures
            r.holds_exactly(entries@),
    {
        let n: usize = entries.len();
        let mut slots: Vec<CpuIdEntry2> = Vec::with_capacity(n);
        let mut k: usize = 0;
        while k < n
            invariant
                n == entries@.len(),
                k <= n,
                slots@ == entries@.take(k as int),
            decreases n - k,
        {
            slots.push(entries[k]);
            k = k + 1;
            assert(slots@ =~= entries@.take(k as int));
        }
        assert(slots@ =~= entries@);
        CpuId {
            header: CpuId2 { nent: n as u32, padding: 0, entries: __IncompleteArrayField::new() },
            entries: slots,
            allocated_len: n,
        }
    }

    /// Returns the entries in use, for changing them before they are handed
    /// to a vCPU.
    ///
    /// A header count above the number of slots is first lowered to it.
    pub fn mut_entries_slice(&mut self) -> (r: &mut [CpuIdEntry2])
        requires
            old(self).wf(),
        ensures
            r@ == old(self).entries(),
            final(r)@.len() == r@.len() ==> final(self).wf(),
            final(self).capacity() == old(self).capacity(),
            final(self).declared() == old(self).clamped_len(),
            final(self).slots() == final(r)@ + old(self).slots().skip(
                old(self).clamped_len() as int,
            ),
    {
        if self.header.nent as usize > self.allocated_len {
            self.header.nent = self.allocated_len as u32;
        }
        let nent: usize = self.header.nent as usize;
        let (used, _unused) = self.entries.as_mut_slice().split_at_mut(nent);
        used
    }

    /// Returns the header and every entry slot, for reading by a backend.
    pub fn as_ptr(&self) -> (r: (&CpuId2, &[CpuIdEntry2]))
        ensures
            r.0.nent == self.declared(),
            r.1@ == self.slots(),
    {
        (&self.header, self.entries.as_slice())
    }

    /// Returns the header and every entry slot, for a backend to fill in.
    ///
    /// The slots cannot grow, so the header count is all that a backend can
    /// set beyond them; the entry views clamp it.
    pub fn as_mut_ptr(&mut self) -> (r: (&mut CpuId2, &mut [CpuIdEntry2]))
        requires
            old(self).wf(),
        ensures
            r.0.nent == old(self).declared(),
            r.1@ == old(self).slots(),
            final(self).capacity() == old(self).capacity(),
            final(self).declared() == final(r.0).nent,
            final(self).slots() == final(r.1)@,
            final(r.1)@.len() == r.1@.len() ==> final(self).wf(),
    {
        (&mut self.header, self.entries.as_mut_slice())
    }
}


impl Clone for CpuId {
    /// Copies the header count and every allocated slot, not only the
    /// declared ones, into storage of its own.
    fn clone(&self) -> (r: Self)
        ensures
            r.same_contents(self),
    {
        let n: usize = self.entries.len();
        let mut entries: Vec<CpuIdEntry2> = Vec::with_capacity(n);
        let mut k: usize = 0;
        while k < n
            invariant
                n == self.entries@.len(),
                k <= n,
                entries@ == self.entries@.take(k as int),
            decreases n - k,
        {
            entries.push(self.entries[k]);
            k = k + 1;
            assert(entries@ =~= self.entries@.take(k as int));
        }
        assert(entries@ =~= self.entries@);
        CpuId {
            header: CpuId2 {
                nent: self.header.nent,
                padding: self.header.padding,
                entries: __IncompleteArrayField::new(),
            },
            entries,
            allocated_len: self.allocated_len,
        }
    }
}

impl PartialEq for CpuId {
    /// Two batches are equal when their header counts are equal and so are
    /// the entries in use; the number of slots does not count.
    fn eq(&self, other: &Self) -> (r: bool)
        ensures
            r == (self.declared() == other.declared() && self.entries() == other.entries()),
    {
        if self.header.nent != other.header.nent {
            return false;
        }
        let a: usize = if (self.header.nent as usize) <= self.entries.len() {
            self.header.nent as usize
        } else {
            self.entries.len()
        };
        let b: usize = if (other.header.nent as usize) <= other.entries.len() {
            other.header.nent as usize
        } else {
            other.entries.len()
        };
        if a != b {
            assert(self.entries().len() != other.entries().len());
            return false;
        }
        let mut k: usize = 0;
        while k < a
            invariant
                a == self.clamped_len(),
                a == other.clamped_len(),
                a <= self.entries@.len(),
                a <= other.entries@.len(),
                k <= a,
                forall|i: int| 0 <= i < k ==> self.entries@[i] == other.entries@[i],
            decreases a - k,
        {
            if self.entries[k] != other.entries[k] {
                assert(self.entries()[k as int] != other.entries()[k as int]);
                return false;
            }
            k = k + 1;
        }
        assert(self.entries() =~= other.entries());
        true
    }
}

impl vstd::std_specs::cmp::PartialEqSpecImpl for CpuId {
    open spec fn obeys_eq_spec() -> bool {
        true
    }

    open spec fn eq_spec(&self, other: &Self) -> bool {
        self.declared() == other.declared() && self.entries() == other.entries()
    }
}

/// A batch made by `CpuId::new(n)` offers exactly `n` entries, all zero.
pub proof fn lemma_new_offers_capacity(x: CpuId, n: nat)
    requires
        x.is_new(n),
    ensures
        x.entries().len() == n,
        x.entries() == Seq::new(n, |_i: int| CpuIdEntry2::zero()),
{
    assert(x.entries() =~= Seq::new(n, |_i: int| CpuIdEntry2::zero()));
}

/// A batch made by `CpuId::from_entries(e)` offers `e` itself, element by
/// element and in order.
pub proof fn lemma_from_entries_offers_them(x: CpuId, e: Seq<CpuIdEntry2>)
    requires
        x.holds_exactly(e),
    ensures
        x.entries() == e,
{
    assert(x.entries() =~= e);
}

/// A copy made by `clone` is equal to the batch it was made from, in both
/// directions.
pub proof fn lemma_clone_is_equal(x: CpuId, c: CpuId)
    requires
        c.same_contents(&x),
    ensures
        c.declared() == x.declared() && c.entries() == x.entries(),
        x.declared() == c.declared() && x.entries() == c.entries(),
{
}

/// A header count above the number of slots never widens the view: the
/// entries in use are then exactly the slots.
pub proof fn lemma_overdeclared_count_is_clamped(x: CpuId)
    requires
        x.wf(),
        x.declared() > x.capacity(),
    ensures
        x.clamped_len() == x.capacity(),
        x.entries().len() <= x.capacity(),
        x.entries() == x.slots(),
{
    assert(x.entries() =~= x.slots());
}

/// Clamping settles the count: once `mut_entries_slice` has lowered it, a
/// second call finds nothing to lower and offers the same entries.
pub proof fn lemma_clamp_is_stable(x: CpuId, y: CpuId)
    requires
        x.wf(),
        y.wf(),
        y.capacity() == x.capacity(),
        y.declared() == x.clamped_len(),
        y.slots() == x.slots(),
    ensures
        y.declared() == y.clamped_len(),
        y.clamped_len() == x.clamped_len(),
        y.entries() == x.entries(),
{
}

} // verus!
