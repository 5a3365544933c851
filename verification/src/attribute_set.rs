use bitvec::order::Lsb0;
use bitvec::vec::BitVec;
use core::marker::PhantomData;
use vstd::prelude::*;

verus! {

// ---------------------------------------------------------------------------
// The outside bit-vector that backs every attribute set.
// ---------------------------------------------------------------------------

/// Bit storage backed by `bitvec`'s `BitVec<u8, Lsb0>`.
///
/// The vector is opaque: its bits are known as `bitvec_bits`, and they are read
/// and written only through the wrappers below.
#[verifier::external_body]
#[derive(Debug)]
pub struct BitStorage {
    inner: BitVec<u8, Lsb0>,
}

/// The bits that the `BitVec<u8, Lsb0>` of a `BitStorage` holds, in index order.
pub uninterp spec fn bitvec_bits(v: BitStorage) -> Seq<bool>;

/// The value of bit `i` of a byte string in least-significant-bit-first order,
/// which is the layout `Lsb0` gives to `u8` storage.
pub open spec fn lsb0_bit(bytes: Seq<u8>, i: int) -> bool {
    (bytes[i / 8] >> ((i % 8) as u8)) & 1u8 == 1u8
}

/// Calls `BitVec::<u8, Lsb0>::repeat(false, len)`: a vector of `len` cleared bits.
#[verifier::external_body]
fn bitvec_zeroed(len: usize) -> (r: BitStorage)
    requires
        len <= 0x10000,
    ensures
        bitvec_bits(r) == Seq::new(len as nat, |i: int| false),
{
    BitStorage { inner: BitVec::repeat(false, len) }
}

/// Calls `BitVec::<u8, Lsb0>::from_slice`: the bits of `bytes`, eight per byte,
/// least significant bit first.
#[verifier::external_body]
fn bitvec_from_bytes(bytes: &[u8]) -> (r: BitStorage)
    requires
        bytes@.len() <= 0x2000,
    ensures
        bitvec_bits(r).len() == 8 * bytes@.len(),
        forall|i: int| 0 <= i < 8 * bytes@.len() ==> #[trigger] bitvec_bits(r)[i] == lsb0_bit(bytes@, i),
{
    BitStorage { inner: BitVec::from_slice(bytes) }
}

/// Calls `BitSlice::get` with a single index: the bit at `i`, or `None` past the end.
#[verifier::external_body]
fn bitvec_get(v: &BitStorage, i: usize) -> (r: Option<bool>)
    ensures
        r == (if i < bitvec_bits(*v).len() { Some(bitvec_bits(*v)[i as int]) } else { None::<bool> }),
{
    match v.inner.get(i) {
        Some(b) => Some(*b),
        None => None,
    }
}

/// Calls `BitSlice::set`: overwrites the bit at `i` (in bounds) with `value`.
/// `set` panics only on an index out of bounds, which `requires` rules out, so
/// the call does not unwind.
#[verifier::external_body]
fn bitvec_set(v: &mut BitStorage, i: usize, value: bool)
    requires
        i < bitvec_bits(*old(v)).len(),
    ensures
        bitvec_bits(*final(v)) == bitvec_bits(*old(v)).update(i as int, value),
    no_unwind
{
    v.inner.set(i, value)
}

/// Calls `BitSlice::iter_ones`, collected: the indices of the set bits in
/// increasing order.
#[verifier::external_body]
fn bitvec_iter_ones(v: &BitStorage) -> (r: Vec<usize>)
    ensures
        forall|k: int| 0 <= k < r@.len() ==> #[trigger] r@[k] < bitvec_bits(*v).len(),
        forall|k: int| 0 <= k < r@.len() ==> bitvec_bits(*v)[#[trigger] r@[k] as int],
        forall|k: int, l: int| 0 <= k < l < r@.len() ==> r@[k] < r@[l],
        forall|i: int| 0 <= i < bitvec_bits(*v).len() && #[trigger] bitvec_bits(*v)[i] ==> r@.contains(i as usize),
{
    v.inner.iter_ones().collect()
}

/// Calls `<BitVec<u8, Lsb0> as Clone>::clone`: a copy holding the same bits.
#[verifier::external_body]
fn bitvec_clone(v: &BitStorage) -> (r: BitStorage)
    ensures
        bitvec_bits(r) == bitvec_bits(*v),
{
    BitStorage { inner: v.inner.clone() }
}

// ---------------------------------------------------------------------------
// Enumerations indexed by a code.
// ---------------------------------------------------------------------------

/// A new-type over a 16-bit event code, used as an index into bit sets.
pub trait EvdevEnum: Copy + Sized {
    /// The code this value stands for.
    spec fn spec_index(self) -> nat;

    /// The value whose code is `i` (codes are 16 bits wide).
    spec fn spec_from_index(i: nat) -> Self;

    fn from_index(i: usize) -> (r: Self)
        requires
            i < 0x10000,
        ensures
            r == Self::spec_from_index(i as nat),
            r.spec_index() == i,
    ;

    fn to_index(self) -> (r: usize)
        ensures
            r == self.spec_index(),
            r < 0x10000,
    ;

    proof fn lemma_index_bounded(self)
        ensures
            self.spec_index() < 0x10000,
            Self::spec_from_index(self.spec_index()) == self,
    ;

    proof fn lemma_from_index(i: nat)
        requires
            i < 0x10000,
        ensures
            Self::spec_from_index(i).spec_index() == i,
    ;
}

/// An enumeration with a kernel-defined number of codes, so that a set of its
/// values fits a fixed number of bytes.
pub trait ArrayedEvdevEnum: EvdevEnum {
    /// The number of codes the kernel defines (`*_CNT`).
    spec fn spec_count() -> nat;

    fn count() -> (r: usize)
        ensures
            r == Self::spec_count(),
            0 < r <= 0x1000,
    ;
}

/// The number of bytes that hold `count` bits.
pub open spec fn bytes_for(count: nat) -> nat {
    ((count + 7) / 8) as nat
}

/// A collection of bits representing either device capability or state.
///
/// Its capacity is the number of codes of `T`, rounded up to whole bytes.
#[derive(Debug)]
pub struct AttributeSet<T: ArrayedEvdevEnum> {
    bits: BitStorage,
    _indexer: PhantomData<T>,
}

/// Borrowed attribute sets are plain references to an [`AttributeSet`].
pub type AttributeSetRef<T> = AttributeSet<T>;

/// `s` lists exactly the values whose codes are in `codes`, in increasing code order.
pub open spec fn enumerates<T: EvdevEnum>(s: Seq<T>, codes: Set<nat>) -> bool {
    &&& forall|k: int| 0 <= k < s.len() ==> codes.contains(#[trigger] s[k].spec_index())
    &&& forall|k: int, l: int| 0 <= k < l < s.len() ==> s[k].spec_index() < s[l].spec_index()
    &&& forall|i: nat| codes.contains(i) ==> exists|k: int| 0 <= k < s.len() && #[trigger] s[k].spec_index() == i
}

impl<T: ArrayedEvdevEnum> AttributeSet<T> {
    /// The number of bits an attribute set of `T` holds.
    pub open spec fn capacity() -> nat {
        8 * bytes_for(T::spec_count())
    }

    /// The bits, in code order.
    pub closed spec fn bits(&self) -> Seq<bool> {
        bitvec_bits(self.bits)
    }

    #[verifier::type_invariant]
    closed spec fn wf(&self) -> bool {
        self.bits().len() == Self::capacity()
    }

    /// The codes present in the set.
    pub closed spec fn codes(&self) -> Set<nat> {
        Set::new(|i: nat| i < self.bits().len() && self.bits()[i as int])
    }

    /// Creates an empty set.
    pub fn new() -> (r: Self)
        ensures
            r@ == Set::<nat>::empty(),
    {
        let n = T::count();
        let nbytes = (n + 7) / 8;
        let r = AttributeSet { bits: bitvec_zeroed(nbytes * 8), _indexer: PhantomData };
        assert(r@ =~= Set::<nat>::empty());
        r
    }

    /// Creates a set from the byte buffer the kernel fills for it: bit `i` of
    /// the buffer, least significant bit first, says whether code `i` is in the set.
    pub fn from_raw_bytes(bytes: &[u8]) -> (r: Self)
        requires
            bytes@.len() == bytes_for(T::spec_count()),
        ensures
            forall|i: nat| #[trigger] r@.contains(i) <==> (i < Self::capacity() && lsb0_bit(bytes@, i as int)),
    {
        // the kernel's bound on the number of codes bounds the buffer
        let _count = T::count();
        AttributeSet { bits: bitvec_from_bytes(bytes), _indexer: PhantomData }
    }

    /// Returns `true` if this set contains the passed value.
    pub fn contains(&self, attr: T) -> (b: bool)
        ensures
            b == self@.contains(attr.spec_index()),
            b ==> attr.spec_index() < Self::capacity(),
    {
        proof { use_type_invariant(self); }
        match bitvec_get(&self.bits, attr.to_index()) {
            Some(b) => b,
            None => false,
        }
    }

    /// Adds `attr` to the set.
    pub fn insert(&mut self, attr: T)
        requires
            attr.spec_index() < Self::capacity(),
        ensures
            final(self)@ == old(self)@.insert(attr.spec_index()),
    {
        self.set(attr, true)
    }

    /// Removes `attr` from the set.
    pub fn remove(&mut self, attr: T)
        requires
            attr.spec_index() < Self::capacity(),
        ensures
            final(self)@ == old(self)@.remove(attr.spec_index()),
    {
        self.set(attr, false)
    }

    /// Puts `attr` in the set if `on`, takes it out otherwise.
    pub fn set(&mut self, attr: T, on: bool)
        requires
            attr.spec_index() < Self::capacity(),
        ensures
            final(self)@ == (if on { old(self)@.insert(attr.spec_index()) } else { old(self)@.remove(attr.spec_index()) }),
    {
        proof { use_type_invariant(&*self); }
        let idx = attr.to_index();
        bitvec_set(&mut self.bits, idx, on);
        assert(self@ =~= (if on { old(self)@.insert(attr.spec_index()) } else { old(self)@.remove(attr.spec_index()) }));
    }

    /// The values in the set, in increasing code order.
    pub fn iter(&self) -> (r: Vec<T>)
        ensures
            enumerates(r@, self@),
            forall|i: nat| #[trigger] self@.contains(i) ==> i < Self::capacity(),
    {
        let start = T::from_index(0);
        let r = self.slice_iter(start);
        assert(self@.filter(|i: nat| i >= start.spec_index()) =~= self@);
        r
    }

    /// The values in the set whose code is at least that of `start`, in
    /// increasing code order.
    pub fn slice_iter(&self, start: T) -> (r: Vec<T>)
        ensures
            enumerates(r@, self@.filter(|i: nat| i >= start.spec_index())),
            forall|i: nat| #[trigger] self@.contains(i) ==> i < Self::capacity(),
    {
        proof { use_type_invariant(self); }
        let _count = T::count();
        let ones = bitvec_iter_ones(&self.bits);
        let lo = start.to_index();
        let ghost codes = self@.filter(|i: nat| i >= start.spec_index());
        let mut out: Vec<T> = Vec::new();
        let mut k: usize = 0;
        while k < ones.len()
            invariant
                k <= ones@.len(),
                lo == start.spec_index(),
                codes == self@.filter(|i: nat| i >= start.spec_index()),
                self.bits().len() == Self::capacity(),
                T::spec_count() <= 0x1000,
                forall|j: int| 0 <= j < ones@.len() ==> ones@[j] < bitvec_bits(self.bits).len(),
                forall|j: int| 0 <= j < ones@.len() ==> bitvec_bits(self.bits)[#[trigger] ones@[j] as int],
                forall|j: int, l: int| 0 <= j < l < ones@.len() ==> ones@[j] < ones@[l],
                forall|m: int| 0 <= m < out@.len() ==> codes.contains(#[trigger] out@[m].spec_index()),
                forall|m: int, l: int| 0 <= m < l < out@.len() ==> out@[m].spec_index() < out@[l].spec_index(),
                forall|m: int| 0 <= m < out@.len() ==> #[trigger] out@[m].spec_index() < (if k == 0 { 0 } else { ones@[k - 1] + 1 }),
                forall|j: int| 0 <= j < k && ones@[j] >= lo ==> exists|m: int| 0 <= m < out@.len() && #[trigger] out@[m].spec_index() == ones@[j],
            decreases ones@.len() - k,
        {
            let idx = ones[k];
            let ghost old_out = out@;
            if idx >= lo {
                let v = T::from_index(idx);
                out.push(v);
                proof {
                    assert(codes.contains(idx as nat));
                    assert(out@[out@.len() - 1].spec_index() == idx);
                }
            }
            proof {
                assert forall|j: int| 0 <= j < k + 1 && ones@[j] >= lo implies exists|m: int| 0 <= m < out@.len() && #[trigger] out@[m].spec_index() == ones@[j] by {
                    if j < k {
                        let m = choose|m: int| 0 <= m < old_out.len() && #[trigger] old_out[m].spec_index() == ones@[j];
                        assert(out@[m] == old_out[m]);
                    } else {
                        assert(out@[out@.len() - 1].spec_index() == ones@[j]);
                    }
                }
            }
            k += 1;
        }
        proof {
            assert forall|i: nat| codes.contains(i) implies exists|m: int| 0 <= m < out@.len() && #[trigger] out@[m].spec_index() == i by {
                assert(i < self.bits().len() && self.bits()[i as int]);
                assert(ones@.contains(i as usize));
                let j = choose|j: int| 0 <= j < ones@.len() && ones@[j] == i as usize;
            }
        }
        out
    }
}

impl<T: ArrayedEvdevEnum> View for AttributeSet<T> {
    type V = Set<nat>;

    open spec fn view(&self) -> Set<nat> {
        self.codes()
    }
}

impl<T: ArrayedEvdevEnum> Clone for AttributeSet<T> {
    fn clone(&self) -> (r: Self)
        ensures
            r@ == self@,
    {
        proof { use_type_invariant(self); }
        let r = AttributeSet { bits: bitvec_clone(&self.bits), _indexer: PhantomData };
        assert(r@ =~= self@);
        r
    }
}


/// Each value of `supported`, in increasing code order, with whether `state` holds it.
pub fn states_of<T: ArrayedEvdevEnum>(supported: &AttributeSet<T>, state: &AttributeSet<T>) -> (r: Vec<(T, bool)>)
    ensures
        enumerates(r@.map_values(|p: (T, bool)| p.0), supported@),
        forall|k: int| 0 <= k < r@.len() ==> #[trigger] r@[k].1 == state@.contains(r@[k].0.spec_index()),
{
    let list = supported.iter();
    let mut out: Vec<(T, bool)> = Vec::new();
    let mut i: usize = 0;
    while i < list.len()
        invariant
            i <= list@.len(),
            enumerates(list@, supported@),
            out@.len() == i,
            forall|k: int| 0 <= k < i ==> #[trigger] out@[k].0 == list@[k],
            forall|k: int| 0 <= k < i ==> #[trigger] out@[k].1 == state@.contains(out@[k].0.spec_index()),
        decreases list@.len() - i,
    {
        let v = list[i];
        let on = state.contains(v);
        out.push((v, on));
        i += 1;
    }
    assert(out@.map_values(|p: (T, bool)| p.0) =~= list@);
    out
}

} // verus!
