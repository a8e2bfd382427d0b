use vstd::prelude::*;

verus! {

/// How many of the slots hold a live block.
pub closed spec fn count_live(s: Seq<Option<Vec<u8>>>) -> nat
    decreases s.len(),
{
    if s.len() == 0 {
        0
    } else {
        count_live(s.drop_last()) + if s.last() is Some {
            1nat
        } else {
            0nat
        }
    }
}

/// A model of the native allocator. Every block the native side hands over
/// is tracked until the one call that frees it; freeing is only statable for
/// a live block, so a double free is impossible in verified code rather than
/// merely undefined.
pub struct NativeHeap {
    /// One slot per allocation ever made: `Some` while live, `None` once freed.
    blocks: Vec<Option<Vec<u8>>>,
}

impl NativeHeap {
    /// The number of allocations ever made, live or freed.
    pub closed spec fn block_count(&self) -> nat {
        self.blocks@.len()
    }

    /// True when block `id` exists and has not been freed.
    pub closed spec fn live(&self, id: int) -> bool {
        0 <= id < self.blocks@.len() && self.blocks@[id] is Some
    }

    /// The bytes of a live block.
    pub closed spec fn contents(&self, id: int) -> Seq<u8>
        recommends
            self.live(id),
    {
        self.blocks@[id]->Some_0@
    }

    /// How many blocks are currently live: what a leak check reads.
    pub closed spec fn live_blocks(&self) -> nat {
        count_live(self.blocks@)
    }

    /// A fresh heap with no allocations.
    pub fn new() -> (r: NativeHeap)
        ensures
            r.block_count() == 0,
            r.live_blocks() == 0,
    {
        NativeHeap { blocks: Vec::new() }
    }

    /// Allocate a block holding `data`; the returned id is fresh.
    pub fn allocate(&mut self, data: Vec<u8>) -> (id: usize)
        ensures
            id as int == old(self).block_count(),
            final(self).block_count() == old(self).block_count() + 1,
            final(self).live_blocks() == old(self).live_blocks() + 1,
            final(self).live(id as int),
            final(self).contents(id as int) == data@,
            forall|j: int|
                j != id ==> final(self).live(j) == old(self).live(j) && (old(self).live(j)
                    ==> final(self).contents(j) == old(self).contents(j)),
    {
        let id = self.blocks.len();
        proof {
            assert(self.blocks@.push(Some(data)).drop_last() =~= self.blocks@);
        }
        self.blocks.push(Some(data));
        id
    }

    /// Free the live block `id`. A block can only be freed once: after this
    /// call it is no longer live, and no call can free it again.
    pub fn free(&mut self, id: usize)
        requires
            old(self).live(id as int),
        ensures
            final(self).block_count() == old(self).block_count(),
            final(self).live_blocks() == old(self).live_blocks() - 1,
            !final(self).live(id as int),
            forall|j: int|
                j != id ==> final(self).live(j) == old(self).live(j) && (old(self).live(j)
                    ==> final(self).contents(j) == old(self).contents(j)),
    {
        proof {
            lemma_count_live_free(self.blocks@, id as int);
        }
        self.blocks.set(id, None);
    }

    /// Read the bytes of a live block; the heap is unchanged.
    pub fn read(&self, id: usize) -> (r: &Vec<u8>)
        requires
            self.live(id as int),
        ensures
            r@ == self.contents(id as int),
    {
        self.blocks[id].as_ref().unwrap()
    }

    /// The allocation count fits the machine word.
    pub proof fn lemma_block_count_bounded(&self)
        ensures
            self.block_count() <= usize::MAX,
    {
        vstd::std_specs::vec::axiom_spec_len(&self.blocks);
    }

    /// Count the live blocks, for a leak check after a transfer has been
    /// consumed and disposed of.
    pub fn live_count(&self) -> (r: usize)
        ensures
            r as nat == self.live_blocks(),
    {
        let n = self.blocks.len();
        let mut cnt: usize = 0;
        let mut i: usize = 0;
        while i < n
            invariant
                0 <= i <= n,
                n == self.blocks@.len(),
                cnt <= i,
                cnt as nat == count_live(self.blocks@.take(i as int)),
            decreases n - i,
        {
            proof {
                assert(self.blocks@.take(i + 1).drop_last() =~= self.blocks@.take(i as int));
                assert(self.blocks@.take(i + 1).last() == self.blocks@[i as int]);
            }
            if self.blocks[i].is_some() {
                cnt = cnt + 1;
            }
            i = i + 1;
        }
        proof {
            assert(self.blocks@.take(n as int) =~= self.blocks@);
        }
        cnt
    }
}

/// Freeing one live slot lowers the live count by exactly one.
proof fn lemma_count_live_free(s: Seq<Option<Vec<u8>>>, id: int)
    requires
        0 <= id < s.len(),
        s[id] is Some,
    ensures
        count_live(s.update(id, None)) == count_live(s) - 1,
    decreases s.len(),
{
    let t = s.update(id, None);
    if id == s.len() - 1 {
        assert(t.drop_last() =~= s.drop_last());
    } else {
        assert(t.drop_last() =~= s.drop_last().update(id, None));
        assert(t.last() == s.last());
        lemma_count_live_free(s.drop_last(), id);
    }
}

} // verus!
