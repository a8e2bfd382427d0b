use vstd::prelude::*;
use vstd::string::StringExecFns;
use vstd::utf8::{decode_utf8, valid_utf8};

use crate::codec;
use crate::heap::NativeHeap;

verus! {

/// A native string array exactly as the native side hands it over: the id of
/// the allocation holding the array itself, and one slot per array position,
/// each either the id of a string block or `None` for a NULL pointer.
pub struct NativeStrArray {
    /// The allocation holding the pointer array itself.
    pub arr_id: usize,
    /// The array's slots, in order.
    pub entries: Vec<Option<usize>>,
}

/// Index of the first NULL slot, or the length when none occurs.
pub open spec fn first_none(slots: Seq<Option<usize>>) -> int
    decreases slots.len(),
{
    if slots.len() == 0 {
        0
    } else if slots[0] is None {
        0
    } else {
        1 + first_none(slots.drop_first())
    }
}

pub proof fn lemma_first_none_bounds(slots: Seq<Option<usize>>)
    ensures
        0 <= first_none(slots) <= slots.len(),
        forall|i: int| 0 <= i < first_none(slots) ==> slots[i] is Some,
        first_none(slots) < slots.len() ==> slots[first_none(slots)] is None,
    decreases slots.len(),
{
    if slots.len() == 0 {
    } else if slots[0] is None {
    } else {
        lemma_first_none_bounds(slots.drop_first());
        assert forall|i: int| 0 <= i < first_none(slots) implies slots[i] is Some by {
            if i > 0 {
                assert(slots.drop_first()[i - 1] == slots[i]);
            }
        }
        if first_none(slots) < slots.len() {
            assert(slots.drop_first()[first_none(slots) - 1] == slots[first_none(slots)]);
        }
    }
}

/// A position with no NULL slot before it, and a NULL slot (or the end) at
/// it, is the first-NULL position.
pub proof fn lemma_first_none_of_clean(slots: Seq<Option<usize>>, i: int)
    requires
        0 <= i <= slots.len(),
        forall|j: int| 0 <= j < i ==> slots[j] is Some,
        i < slots.len() ==> slots[i] is None,
    ensures
        first_none(slots) == i,
    decreases slots.len(),
{
    if slots.len() == 0 {
    } else if slots[0] is None {
        assert(i == 0);
    } else {
        assert(forall|j: int| 0 <= j < i - 1 ==> slots.drop_first()[j] == slots[j + 1]);
        if i - 1 < slots.drop_first().len() {
            assert(slots.drop_first()[i - 1] == slots[i]);
        }
        lemma_first_none_of_clean(slots.drop_first(), i - 1);
    }
}

/// Scan for the first NULL slot among the first `declared` slots.
pub fn find_first_none(slots: &Vec<Option<usize>>, declared: usize) -> (r: usize)
    requires
        declared <= slots@.len(),
    ensures
        r as int == first_none(slots@.take(declared as int)),
{
    let mut i: usize = 0;
    while i < declared
        invariant
            0 <= i <= declared <= slots@.len(),
            forall|j: int| 0 <= j < i ==> slots@[j] is Some,
        decreases declared - i,
    {
        if slots[i].is_none() {
            proof {
                assert(forall|j: int| 0 <= j < i ==> slots@.take(declared as int)[j] == slots@[j]);
                lemma_first_none_of_clean(slots@.take(declared as int), i as int);
            }
            return i;
        }
        i = i + 1;
    }
    proof {
        assert(forall|j: int| 0 <= j < declared ==> slots@.take(declared as int)[j] == slots@[j]);
        lemma_first_none_of_clean(slots@.take(declared as int), declared as int);
    }
    declared
}

/// The text an entry block decodes to: its bytes before the first NUL as
/// text, or the diagnostic placeholder when they are not valid text.
pub open spec fn decoded_entry(heap: NativeHeap, id: int) -> Seq<char> {
    let t = codec::c_content(heap.contents(id));
    if valid_utf8(t) {
        decode_utf8(t)
    } else {
        placeholder_text()
    }
}

/// The placeholder yielded in place of an entry that does not decode.
pub open spec fn placeholder_text() -> Seq<char> {
    "<invalid utf8>"@
}

/// The ownership-transfer sequence over a native string array.
///
/// It owns the array allocation and every string block before the array's
/// first NULL slot (clamped further by the declared length). Each `next`
/// decodes one entry and frees its block; `dispose` frees every block not
/// yet yielded and the array allocation itself, so every transferred
/// allocation is freed exactly once however far iteration got.
pub struct StringArrayIter {
    /// The array allocation still to be freed; `None` models a NULL base
    /// pointer, which owns nothing.
    pub arr_id: Option<usize>,
    /// The owned string blocks, in array order, already clamped at the
    /// first NULL slot.
    pub ids: Vec<usize>,
    /// The consumption cursor: blocks before it have been yielded and freed.
    pub at: usize,
}

impl StringArrayIter {
    /// The logical length: the number of entries before the first NULL.
    pub open spec fn length(&self) -> int {
        self.ids@.len() as int
    }

    /// How many entries have been yielded so far.
    pub open spec fn cursor(&self) -> int {
        self.at as int
    }

    /// The block id of entry `i`.
    pub open spec fn entry_id(&self, i: int) -> int {
        self.ids@[i] as int
    }

    /// True when the sequence still owns block `j`.
    pub open spec fn owns_block(&self, j: int) -> bool {
        (exists|i: int| self.cursor() <= i < self.length() && self.entry_id(i) == j) || (
        self.arr_id matches Some(a) && a as int == j)
    }

    /// The sequence's ownership claims hold in `heap`: every unconsumed
    /// entry block and the array allocation are live and pairwise distinct.
    pub open spec fn wf(&self, heap: NativeHeap) -> bool {
        &&& self.cursor() <= self.length()
        &&& forall|i: int| self.cursor() <= i < self.length() ==> heap.live(self.entry_id(i))
        &&& forall|i: int, j: int|
            self.cursor() <= i < j < self.length() ==> self.entry_id(i) != self.entry_id(j)
        &&& (self.arr_id matches Some(a) ==> heap.live(a as int) && (forall|i: int|
            self.cursor() <= i < self.length() ==> self.entry_id(i) != a as int))
    }

    /// The empty sequence, for a NULL native result: it owns nothing and
    /// yields nothing.
    pub fn empty() -> (it: StringArrayIter)
        ensures
            it.length() == 0,
            it.cursor() == 0,
            it.arr_id is None,
            forall|h: NativeHeap| it.wf(h),
    {
        StringArrayIter { arr_id: None, ids: Vec::new(), at: 0 }
    }

    /// Wrap a native string array whose declared length is `declared`.
    ///
    /// The logical length is clamped to the first NULL slot found among the
    /// first `declared` slots, defending against a declared length that
    /// disagrees with the NULL-terminated convention. Slots past the first
    /// NULL are not owned and never touched.
    pub fn new(arr: NativeStrArray, declared: usize, heap: &NativeHeap) -> (it: StringArrayIter)
        requires
            declared <= arr.entries@.len(),
            heap.live(arr.arr_id as int),
            forall|i: int|
                0 <= i < first_none(arr.entries@.take(declared as int)) ==> arr.entries@[i] is Some
                    && heap.live(arr.entries@[i]->Some_0 as int) && arr.entries@[i]->Some_0
                    != arr.arr_id,
            forall|i: int, j: int|
                0 <= i < j < first_none(arr.entries@.take(declared as int))
                    ==> arr.entries@[i]->Some_0 != arr.entries@[j]->Some_0,
        ensures
            it.wf(*heap),
            it.cursor() == 0,
            it.arr_id == Some(arr.arr_id),
            it.length() == first_none(arr.entries@.take(declared as int)),
            forall|i: int| 0 <= i < it.length() ==> it.entry_id(i) == arr.entries@[i]->Some_0,
    {
        proof {
            lemma_first_none_bounds(arr.entries@.take(declared as int));
        }
        let clamped = find_first_none(&arr.entries, declared);
        let ghost taken = arr.entries@.take(declared as int);
        let mut ids: Vec<usize> = Vec::new();
        let mut i: usize = 0;
        while i < clamped
            invariant
                0 <= i <= clamped <= declared <= arr.entries@.len(),
                clamped as int == first_none(taken),
                taken == arr.entries@.take(declared as int),
                forall|j: int| 0 <= j < clamped ==> taken[j] == arr.entries@[j],
                forall|j: int| 0 <= j < first_none(taken) ==> taken[j] is Some,
                ids@.len() == i as int,
                forall|j: int| 0 <= j < i ==> ids@[j] == arr.entries@[j]->Some_0,
            decreases clamped - i,
        {
            proof {
                assert(taken[i as int] == arr.entries@[i as int]);
                assert(taken[i as int] is Some);
            }
            ids.push(arr.entries[i].unwrap());
            i = i + 1;
        }
        StringArrayIter { arr_id: Some(arr.arr_id), ids, at: 0 }
    }

    /// Yield the next entry, decoding its bytes and freeing its block, or
    /// `None` when the sequence is exhausted. Only the yielded entry's block
    /// changes: it is freed, exactly once.
    pub fn next(&mut self, heap: &mut NativeHeap) -> (r: Option<String>)
        requires
            old(self).wf(*old(heap)),
        ensures
            final(self).wf(*final(heap)),
            final(self).length() == old(self).length(),
            final(self).arr_id == old(self).arr_id,
            forall|i: int|
                0 <= i < old(self).length() ==> final(self).entry_id(i) == old(self).entry_id(i),
            old(self).cursor() == old(self).length() ==> r is None && *final(heap) == *old(heap)
                && *final(self) == *old(self),
            old(self).cursor() < old(self).length() ==> ({
                &&& final(self).cursor() == old(self).cursor() + 1
                &&& r matches Some(s) && s@ == decoded_entry(
                    *old(heap),
                    old(self).entry_id(old(self).cursor()),
                )
                &&& !final(heap).live(old(self).entry_id(old(self).cursor()))
                &&& final(heap).block_count() == old(heap).block_count()
                &&& final(heap).live_blocks() == old(heap).live_blocks() - 1
                &&& forall|j: int|
                    j != old(self).entry_id(old(self).cursor()) ==> final(heap).live(j) == old(
                        heap,
                    ).live(j) && (old(heap).live(j) ==> final(heap).contents(j) == old(
                        heap,
                    ).contents(j))
            }),
    {
        if self.at == self.ids.len() {
            return None;
        }
        let id = self.ids[self.at];
        proof {
            assert(self.entry_id(self.at as int) == id as int);
            assert(heap.live(id as int));
        }
        let text = {
            let block = heap.read(id);
            match codec::from_c_string(block.as_slice()) {
                Ok(s) => s,
                Err(_) => String::from_str("<invalid utf8>"),
            }
        };
        heap.free(id);
        self.at = self.at + 1;
        proof {
            assert forall|k: int|
                self.at as int <= k < self.ids@.len() implies heap.live(self.entry_id(k)) by {
                assert(old(self).entry_id(old(self).at as int) != old(self).entry_id(k));
            }
            assert forall|i: int, j: int|
                self.at as int <= i < j < self.ids@.len() implies self.entry_id(i)
                    != self.entry_id(j) by {
                assert(old(self).entry_id(i) != old(self).entry_id(j));
            }
            match self.arr_id {
                Some(a) => {
                    assert(old(self).entry_id(old(self).at as int) != a as int);
                    assert(heap.live(a as int));
                    assert forall|i: int|
                        self.at as int <= i < self.ids@.len() implies self.entry_id(i)
                            != a as int by {
                        assert(old(self).entry_id(i) != a as int);
                    }
                },
                None => {},
            }
        }
        Some(text)
    }

    /// Tear the sequence down: free every entry block not yet yielded, then
    /// the array allocation itself. Nothing else in the heap is touched, so
    /// together with `next` every transferred allocation is freed exactly
    /// once, however iteration ended.
    pub fn dispose(self, heap: &mut NativeHeap)
        requires
            self.wf(*old(heap)),
        ensures
            forall|i: int| self.cursor() <= i < self.length() ==> !final(heap).live(self.entry_id(i)),
            self.arr_id matches Some(a) ==> !final(heap).live(a as int),
            final(heap).block_count() == old(heap).block_count(),
            final(heap).live_blocks() == old(heap).live_blocks() - (self.length() - self.cursor())
                - (if self.arr_id is Some {
                1int
            } else {
                0int
            }),
            forall|j: int|
                !self.owns_block(j) ==> final(heap).live(j) == old(heap).live(j) && (old(
                    heap,
                ).live(j) ==> final(heap).contents(j) == old(heap).contents(j)),
    {
        let len = self.ids.len();
        let mut i: usize = self.at;
        while i < len
            invariant
                self.at <= i <= len,
                len == self.ids@.len(),
                self.wf(*old(heap)),
                forall|k: int| self.cursor() <= k < i ==> !heap.live(self.entry_id(k)),
                forall|k: int| i <= k < len ==> heap.live(self.entry_id(k)),
                (self.arr_id matches Some(a) ==> heap.live(a as int)),
                heap.block_count() == old(heap).block_count(),
                heap.live_blocks() == old(heap).live_blocks() - (i - self.at),
                forall|j: int|
                    !self.owns_block(j) ==> heap.live(j) == old(heap).live(j) && (old(
                        heap,
                    ).live(j) ==> heap.contents(j) == old(heap).contents(j)),
            decreases len - i,
        {
            let id = self.ids[i];
            proof {
                assert(self.entry_id(i as int) == id as int);
                assert(heap.live(id as int));
            }
            heap.free(id);
            proof {
                assert forall|k: int| i as int + 1 <= k < len implies heap.live(
                    self.entry_id(k),
                ) by {
                    assert(self.entry_id(i as int) != self.entry_id(k));
                }
                assert forall|k: int| self.cursor() <= k < i as int + 1 implies !heap.live(
                    self.entry_id(k),
                ) by {
                    if k < i as int {
                        assert(self.entry_id(k) != self.entry_id(i as int));
                    }
                }
                match self.arr_id {
                    Some(a) => {
                        assert(self.entry_id(i as int) != a as int);
                    },
                    None => {},
                }
                assert forall|j: int| !self.owns_block(j) implies heap.live(j) == old(
                    heap,
                ).live(j) && (old(heap).live(j) ==> heap.contents(j) == old(heap).contents(j)) by {
                    if j == self.entry_id(i as int) {
                        assert(self.cursor() <= (i as int) && (i as int) < self.length());
                        assert(self.owns_block(j));
                    }
                }
            }
            i = i + 1;
        }
        match self.arr_id {
            Some(a) => {
                heap.free(a);
                proof {
                    assert forall|k: int|
                        self.cursor() <= k < self.length() implies !heap.live(self.entry_id(k)) by {
                        assert(self.entry_id(k) != a as int);
                    }
                    assert forall|j: int| !self.owns_block(j) implies heap.live(j) == old(
                        heap,
                    ).live(j) && (old(heap).live(j) ==> heap.contents(j) == old(
                        heap,
                    ).contents(j)) by {
                        if j == a as int {
                            assert(self.owns_block(j));
                        }
                    }
                }
            },
            None => {},
        }
    }

    /// Yield and decode every remaining entry in order, then tear the
    /// sequence down: the result holds one decoded text per entry before the
    /// first NULL, in native order, and every transferred allocation has
    /// been freed exactly once.
    pub fn drain(self, heap: &mut NativeHeap) -> (r: Vec<String>)
        requires
            self.wf(*old(heap)),
        ensures
            r@.len() == self.length() - self.cursor(),
            forall|k: int|
                0 <= k < r@.len() ==> r@[k]@ == decoded_entry(
                    *old(heap),
                    self.entry_id(self.cursor() + k),
                ),
            forall|i: int| self.cursor() <= i < self.length() ==> !final(heap).live(self.entry_id(i)),
            self.arr_id matches Some(a) ==> !final(heap).live(a as int),
            final(heap).block_count() == old(heap).block_count(),
            final(heap).live_blocks() == old(heap).live_blocks() - (self.length() - self.cursor())
                - (if self.arr_id is Some {
                1int
            } else {
                0int
            }),
            forall|j: int|
                !self.owns_block(j) ==> final(heap).live(j) == old(heap).live(j) && (old(
                    heap,
                ).live(j) ==> final(heap).contents(j) == old(heap).contents(j)),
    {
        let len = self.ids.len();
        let mut out: Vec<String> = Vec::new();
        let mut i: usize = self.at;
        while i < len
            invariant
                self.at <= i <= len,
                len == self.ids@.len(),
                self.wf(*old(heap)),
                out@.len() == i - self.at,
                forall|k: int|
                    0 <= k < out@.len() ==> out@[k]@ == decoded_entry(
                        *old(heap),
                        self.entry_id(self.cursor() + k),
                    ),
                forall|k: int| self.cursor() <= k < i ==> !heap.live(self.entry_id(k)),
                forall|k: int|
                    i <= k < len ==> heap.live(self.entry_id(k)) && heap.contents(self.entry_id(k))
                        == old(heap).contents(self.entry_id(k)),
                (self.arr_id matches Some(a) ==> heap.live(a as int)),
                heap.block_count() == old(heap).block_count(),
                heap.live_blocks() == old(heap).live_blocks() - (i - self.at),
                forall|j: int|
                    !self.owns_block(j) ==> heap.live(j) == old(heap).live(j) && (old(
                        heap,
                    ).live(j) ==> heap.contents(j) == old(heap).contents(j)),
            decreases len - i,
        {
            let id = self.ids[i];
            proof {
                assert(self.entry_id(i as int) == id as int);
                assert(heap.live(id as int));
            }
            let text = {
                let block = heap.read(id);
                match codec::from_c_string(block.as_slice()) {
                    Ok(s) => s,
                    Err(_) => String::from_str("<invalid utf8>"),
                }
            };
            proof {
                assert(text@ == decoded_entry(*old(heap), id as int));
            }
            heap.free(id);
            out.push(text);
            proof {
                assert forall|k: int|
                    i as int + 1 <= k < len implies heap.live(self.entry_id(k)) && heap.contents(
                    self.entry_id(k),
                ) == old(heap).contents(self.entry_id(k)) by {
                    assert(self.entry_id(i as int) != self.entry_id(k));
                }
                assert forall|k: int| self.cursor() <= k < i as int + 1 implies !heap.live(
                    self.entry_id(k),
                ) by {
                    if k < i as int {
                        assert(self.entry_id(k) != self.entry_id(i as int));
                    }
                }
                match self.arr_id {
                    Some(a) => {
                        assert(self.entry_id(i as int) != a as int);
                    },
                    None => {},
                }
                assert forall|j: int| !self.owns_block(j) implies heap.live(j) == old(
                    heap,
                ).live(j) && (old(heap).live(j) ==> heap.contents(j) == old(heap).contents(j)) by {
                    if j == self.entry_id(i as int) {
                        assert(self.cursor() <= (i as int) && (i as int) < self.length());
                        assert(self.owns_block(j));
                    }
                }
            }
            i = i + 1;
        }
        match self.arr_id {
            Some(a) => {
                heap.free(a);
                proof {
                    assert forall|k: int|
                        self.cursor() <= k < self.length() implies !heap.live(self.entry_id(k)) by {
                        assert(self.entry_id(k) != a as int);
                    }
                    assert forall|j: int| !self.owns_block(j) implies heap.live(j) == old(
                        heap,
                    ).live(j) && (old(heap).live(j) ==> heap.contents(j) == old(
                        heap,
                    ).contents(j)) by {
                        if j == a as int {
                            assert(self.owns_block(j));
                        }
                    }
                }
            },
            None => {},
        }
        out
    }
}

} // verus!
