//! Fixed-capacity memory-region allocator backing hardware-visible buffers.
//!
//! The pool hands out aligned blocks and accounts for its free space; sample
//! buffers are built on blocks obtained here. Allocation fails (it never
//! panics) when no free region can satisfy the request, and a failed request
//! leaves the pool untouched.

use vstd::prelude::*;
use vstd::arithmetic::div_mod::{
    lemma_fundamental_div_mod, lemma_mod_multiples_basic, lemma_mod_multiples_vanish,
    lemma_mod_pos_bound, lemma_small_mod,
};
use crate::Error;

verus! {

/// One contiguous span of unallocated pool space.
#[derive(Clone, Copy, Debug, PartialEq, Eq, Structural)]
pub(crate) struct FreeRange {
    pub(crate) start: u32,
    pub(crate) len: u32,
}

/// Total length of a sequence of free ranges.
pub(crate) open spec fn sum_lens(s: Seq<FreeRange>) -> int
    decreases s.len(),
{
    if s.len() == 0 {
        0
    } else {
        s[0].len + sum_lens(s.subrange(1, s.len() as int))
    }
}

proof fn lemma_sum_elem(s: Seq<FreeRange>, i: int)
    requires
        0 <= i < s.len(),
    ensures
        s[i].len <= sum_lens(s),
    decreases s.len(),
{
    lemma_sum_nonneg(s.subrange(1, s.len() as int));
    if i > 0 {
        lemma_sum_elem(s.subrange(1, s.len() as int), i - 1);
    }
}

proof fn lemma_sum_nonneg(s: Seq<FreeRange>)
    ensures
        sum_lens(s) >= 0,
    decreases s.len(),
{
    if s.len() > 0 {
        lemma_sum_nonneg(s.subrange(1, s.len() as int));
    }
}

proof fn lemma_sum_push(s: Seq<FreeRange>, r: FreeRange)
    ensures
        sum_lens(s.push(r)) == sum_lens(s) + r.len,
    decreases s.len(),
{
    if s.len() == 0 {
        assert(s.push(r)[0] == r);
        assert(s.push(r).subrange(1, 1) =~= Seq::<FreeRange>::empty());
        assert(sum_lens(s.push(r).subrange(1, 1)) == 0);
    } else {
        assert(s.push(r)[0] == s[0]);
        assert(s.push(r).subrange(1, s.len() as int + 1) =~= s.subrange(1, s.len() as int).push(
            r,
        ));
        lemma_sum_push(s.subrange(1, s.len() as int), r);
    }
}

proof fn lemma_sum_update(s: Seq<FreeRange>, i: int, r: FreeRange)
    requires
        0 <= i < s.len(),
    ensures
        sum_lens(s.update(i, r)) == sum_lens(s) - s[i].len + r.len,
    decreases s.len(),
{
    if i == 0 {
        assert(s.update(0, r)[0] == r);
        assert(s.update(0, r).subrange(1, s.len() as int) =~= s.subrange(1, s.len() as int));
    } else {
        assert(s.update(i, r)[0] == s[0]);
        assert(s.update(i, r).subrange(1, s.len() as int) =~= s.subrange(
            1,
            s.len() as int,
        ).update(i - 1, r));
        lemma_sum_update(s.subrange(1, s.len() as int), i - 1, r);
    }
}

/// The smallest multiple of `align` that is at least `x` (`align >= 1`).
pub open spec fn align_up(x: int, align: int) -> int {
    ((x + align - 1) / align) * align
}

proof fn lemma_align_up_props(x: int, align: int)
    requires
        0 <= x,
        1 <= align,
    ensures
        x <= align_up(x, align),
        align_up(x, align) <= x + align - 1,
        align_up(x, align) % align == 0,
{
    let n = x + align - 1;
    let q = n / align;
    lemma_fundamental_div_mod(n, align);
    lemma_mod_pos_bound(n, align);
    assert(q * align == align * q) by (nonlinear_arith);
    assert(align_up(x, align) == n - n % align);
    lemma_mod_multiples_basic(q, align);
}

proof fn lemma_align_up_of_multiple(x: int, align: int)
    requires
        0 <= x,
        1 <= align,
        x % align == 0,
    ensures
        align_up(x, align) == x,
{
    lemma_align_up_props(x, align);
    let d = align_up(x, align) - x;
    lemma_fundamental_div_mod(x, align);
    lemma_mod_multiples_vanish(x / align, d, align);
    lemma_small_mod(d as nat, align as nat);
}

/// Whether an aligned block of `size` bytes fits inside `r`.
pub(crate) open spec fn can_fit(r: FreeRange, size: int, align: int) -> bool {
    align_up(r.start as int, align) + size <= r.start + r.len
}

/// An allocated block of pool memory: `data` is the caller-visible storage,
/// `base` its address inside the pool. Blocks are created only by
/// [`VramAllocator::allocate`] and by tearing down a buffer built from one.
#[derive(Debug)]
pub struct Block {
    pub(crate) base: u32,
    pub(crate) data: Vec<u8>,
}

impl Block {
    /// Address of the block inside the pool.
    pub closed spec fn spec_base(&self) -> u32 {
        self.base
    }

    /// The bytes the block holds.
    pub closed spec fn spec_bytes(&self) -> Seq<u8> {
        self.data@
    }

    /// Size of the block in bytes.
    pub open spec fn spec_size(&self) -> int {
        self.spec_bytes().len() as int
    }

    /// A block never outgrows the pool's address space.
    pub open spec fn wf(&self) -> bool {
        self.spec_base() + self.spec_bytes().len() <= u32::MAX
    }

    /// Reassemble a block from an address and the bytes that live there,
    /// as teardown of a buffer built from a block does.
    pub(crate) fn from_parts(base: u32, data: Vec<u8>) -> (b: Block)
        requires
            base + data@.len() <= u32::MAX,
        ensures
            b.wf(),
            b.spec_base() == base,
            b.spec_bytes() == data@,
    {
        Block { base, data }
    }

    /// Take the block apart into its address and its bytes.
    pub(crate) fn into_parts(self) -> (r: (u32, Vec<u8>))
        ensures
            r.0 == self.spec_base(),
            r.1@ == self.spec_bytes(),
    {
        (self.base, self.data)
    }

    /// Address of the block inside the pool.
    pub fn base(&self) -> (r: u32)
        ensures
            r == self.spec_base(),
    {
        self.base
    }

    /// Size of the block in bytes.
    pub fn size(&self) -> (r: usize)
        ensures
            r == self.spec_size(),
    {
        self.data.len()
    }

    /// Read access to the block's bytes.
    pub fn bytes(&self) -> (r: &Vec<u8>)
        ensures
            r@ == self.spec_bytes(),
    {
        &self.data
    }
}

/// A fixed-capacity memory pool with free-space accounting.
///
/// Free space is kept as a list of disjoint ranges; an allocation carves an
/// aligned block out of the first range that can hold one and returns the
/// alignment padding to the pool, so `free_space` drops by exactly the
/// requested size.
pub struct VramAllocator {
    capacity: u32,
    free: u32,
    ranges: Vec<FreeRange>,
}

impl VramAllocator {
    /// Total size of the pool in bytes.
    pub closed spec fn spec_capacity(&self) -> u32 {
        self.capacity
    }

    /// Unallocated bytes left in the pool.
    pub closed spec fn spec_free(&self) -> u32 {
        self.free
    }

    /// Whether some free range can hold an aligned block of `size` bytes.
    pub closed spec fn can_satisfy(&self, size: int, align: int) -> bool {
        align >= 1 && exists|i: int|
            0 <= i < self.ranges@.len() && can_fit(self.ranges@[i], size, align)
    }

    /// Free-space accounting matches the ranges, and every range lies in the pool.
    pub closed spec fn wf(&self) -> bool {
        &&& sum_lens(self.ranges@) == self.free as int
        &&& forall|i: int|
            0 <= i < self.ranges@.len() ==> (#[trigger] self.ranges@[i]).start
                + self.ranges@[i].len <= self.capacity
    }

    /// A fresh pool of `capacity` bytes, all of it free: a request succeeds
    /// exactly when its alignment is positive and its size is within capacity.
    pub fn new(capacity: u32) -> (r: VramAllocator)
        ensures
            r.wf(),
            r.spec_capacity() == capacity,
            r.spec_free() == capacity,
            forall|size: int, align: int|
                #[trigger] r.can_satisfy(size, align) <==> (align >= 1 && size <= capacity),
    {
        let mut ranges: Vec<FreeRange> = Vec::new();
        ranges.push(FreeRange { start: 0, len: capacity });
        let r = VramAllocator { capacity, free: capacity, ranges };
        proof {
            lemma_sum_push(Seq::<FreeRange>::empty(), FreeRange { start: 0, len: capacity });
            assert forall|size: int, align: int|
                #[trigger] r.can_satisfy(size, align) <==> (align >= 1 && size <= capacity) by {
                if align >= 1 {
                    lemma_align_up_props(0, align);
                    lemma_small_mod(align_up(0, align) as nat, align as nat);
                    assert(align_up(0, align) == 0);
                    assert(can_fit(r.ranges@[0], size, align) <==> size <= capacity);
                }
            }
        }
        r
    }

    /// Unallocated bytes left in the pool.
    pub fn free_space(&self) -> (r: u32)
        ensures
            r == self.spec_free(),
    {
        self.free
    }

    /// Carve an aligned block of `size` bytes out of the pool.
    ///
    /// Succeeds exactly when some free range can hold such a block; free
    /// space then drops by exactly `size`. A request the pool cannot satisfy
    /// (in particular, one larger than the current free space) fails with
    /// [`Error::AllocationFailure`] and leaves the pool unchanged.
    pub fn allocate(&mut self, size: u32, align: u32) -> (r: Result<Block, Error>)
        requires
            old(self).wf(),
        ensures
            final(self).wf(),
            final(self).spec_capacity() == old(self).spec_capacity(),
            r.is_ok() <==> old(self).can_satisfy(size as int, align as int),
            size > old(self).spec_free() ==> r.is_err(),
            r.is_err() ==> *final(self) == *old(self) && r == Err::<Block, Error>(
                Error::AllocationFailure,
            ),
            r.is_ok() ==> {
                &&& final(self).spec_free() == old(self).spec_free() - size
                &&& r.unwrap().wf()
                &&& r.unwrap().spec_size() == size
                &&& r.unwrap().spec_base() % align == 0
                &&& r.unwrap().spec_base() + size <= old(self).spec_capacity()
            },
    {
        if align == 0 {
            return Err(Error::AllocationFailure);
        }
        let mut i: usize = 0;
        while i < self.ranges.len()
            invariant
                self == old(self),
                old(self).wf(),
                align >= 1,
                i <= self.ranges@.len(),
                forall|j: int| 0 <= j < i ==> !can_fit(self.ranges@[j], size as int, align as int),
            decreases self.ranges@.len() - i,
        {
            let rng = self.ranges[i];
            let start = rng.start as u64;
            let al = align as u64;
            proof {
                lemma_align_up_props(start as int, al as int);
                assert(rng.start + rng.len <= self.capacity);
            }
            let aligned = ((start + al - 1) / al) * al;
            if aligned + (size as u64) <= start + (rng.len as u64) {
                // This range holds an aligned block: carve it out, keep the
                // remainder on the right and return the padding on the left.
                proof {
                    assert(aligned as int == align_up(rng.start as int, align as int));
                    assert(can_fit(rng, size as int, align as int));
                    lemma_sum_elem(self.ranges@, i as int);
                    assert(size <= rng.len);
                    assert(size <= self.free);
                }
                let base = aligned as u32;
                let right = FreeRange {
                    start: base + size,
                    len: (rng.start + rng.len) - (base + size),
                };
                let pad_range = FreeRange { start: rng.start, len: (aligned - start) as u32 };
                let ghost pre = self.ranges@;
                proof {
                    lemma_sum_update(pre, i as int, right);
                }
                *vstd::std_specs::vec::vec_index_mut(&mut self.ranges, i) = right;
                if pad_range.len > 0 {
                    proof {
                        lemma_sum_push(pre.update(i as int, right), pad_range);
                    }
                    self.ranges.push(pad_range);
                }
                self.free = self.free - size;
                let data = vec![0u8; size as usize];
                proof {
                    assert forall|j: int|
                        0 <= j < self.ranges@.len() implies (#[trigger] self.ranges@[j]).start
                        + self.ranges@[j].len <= self.capacity by {
                        if j < pre.len() && j != i {
                            assert(self.ranges@[j] == pre[j]);
                            assert(pre[j].start + pre[j].len <= self.capacity);
                        }
                    }
                    assert(can_fit(old(self).ranges@[i as int], size as int, align as int));
                    assert(old(self).can_satisfy(size as int, align as int));
                }
                return Ok(Block { base, data });
            }
            i += 1;
        }
        Err(Error::AllocationFailure)
    }

    /// Resize a block. The pool does not support growing a block in place,
    /// so this falls back to allocate-new, copy, free-old: the contents are
    /// carried over up to the smaller of the two sizes. On failure the
    /// original block comes back untouched and the pool is left unchanged —
    /// note that the new block is carved while the old one still holds its
    /// space, so the request must fit alongside it.
    pub fn reallocate(&mut self, block: Block, new_size: u32, align: u32) -> (r: Result<
        Block,
        (Error, Block),
    >)
        requires
            old(self).wf(),
            block.wf(),
            block.spec_base() + block.spec_size() <= old(self).spec_capacity(),
            old(self).spec_free() + block.spec_size() <= old(self).spec_capacity(),
        ensures
            final(self).wf(),
            final(self).spec_capacity() == old(self).spec_capacity(),
            r.is_ok() <==> old(self).can_satisfy(new_size as int, align as int),
            r is Err ==> *final(self) == *old(self),
            r matches Err(p) ==> p.0 == Error::AllocationFailure && p.1 == block,
            r matches Ok(nb) ==> {
                &&& nb.wf()
                &&& nb.spec_size() == new_size
                &&& nb.spec_base() % align == 0
                &&& final(self).spec_free() == old(self).spec_free() - new_size
                    + block.spec_size()
                &&& forall|j: int|
                    0 <= j < new_size && j < block.spec_size() ==> nb.spec_bytes()[j]
                        == block.spec_bytes()[j]
            },
    {
        match self.allocate(new_size, align) {
            Err(_) => Err((Error::AllocationFailure, block)),
            Ok(mut nb) => {
                let copy_len: usize = if block.data.len() < nb.data.len() {
                    block.data.len()
                } else {
                    nb.data.len()
                };
                let ghost mid = *self;
                let ghost nb_base = nb.base;
                let mut i: usize = 0;
                while i < copy_len
                    invariant
                        i <= copy_len,
                        copy_len <= nb.data@.len(),
                        copy_len <= block.data@.len(),
                        nb.data@.len() == new_size,
                        nb.base == nb_base,
                        *self == mid,
                        forall|j: int| 0 <= j < i ==> nb.data@[j] == block.data@[j],
                    decreases copy_len - i,
                {
                    let b = block.data[i];
                    *vstd::std_specs::vec::vec_index_mut(&mut nb.data, i) = b;
                    i += 1;
                }
                self.deallocate(block);
                Ok(nb)
            },
        }
    }

    /// Return a block to the pool. A block may be returned at most once, and
    /// only to the pool it was carved from; free space grows by its size, and
    /// the block's range becomes usable whole again: a request of the same
    /// size succeeds for any alignment the block's address satisfies.
    pub fn deallocate(&mut self, block: Block)
        requires
            old(self).wf(),
            block.wf(),
            block.spec_base() + block.spec_size() <= old(self).spec_capacity(),
            old(self).spec_free() + block.spec_size() <= old(self).spec_capacity(),
        ensures
            final(self).wf(),
            final(self).spec_capacity() == old(self).spec_capacity(),
            final(self).spec_free() == old(self).spec_free() + block.spec_size(),
            block.spec_size() > 0 ==> forall|a: int|
                1 <= a && block.spec_base() as int % a == 0 ==> #[trigger] final(self).can_satisfy(
                    block.spec_size(),
                    a,
                ),
    {
        let len: usize = block.data.len();
        if len > 0 {
            let ghost pre = self.ranges@;
            proof {
                lemma_sum_push(pre, FreeRange { start: block.base, len: len as u32 });
            }
            self.ranges.push(FreeRange { start: block.base, len: len as u32 });
            self.free = self.free + (len as u32);
            proof {
                assert forall|j: int|
                    0 <= j < self.ranges@.len() implies (#[trigger] self.ranges@[j]).start
                    + self.ranges@[j].len <= self.capacity by {
                    if j < pre.len() {
                        assert(self.ranges@[j] == pre[j]);
                        assert(pre[j].start + pre[j].len <= self.capacity);
                    }
                }
                assert forall|a: int|
                    1 <= a && block.spec_base() as int % a == 0 implies #[trigger] self.can_satisfy(
                    block.spec_size(),
                    a,
                ) by {
                    lemma_align_up_of_multiple(block.spec_base() as int, a);
                    let i = pre.len() as int;
                    assert(self.ranges@[i] == FreeRange { start: block.base, len: len as u32 });
                    assert(can_fit(self.ranges@[i], block.spec_size(), a));
                }
            }
        }
    }
}

} // verus!
