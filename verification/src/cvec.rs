use vstd::prelude::*;
use vstd::slice::slice_to_vec;
use vstd::string::StringSliceAdditionalSpecFns;

use crate::codec;
use crate::error::Error;

verus! {

/// The NULL-terminated pointer-array view over a sequence of buffers: one
/// position per buffer, in order, carrying by content the bytes its pointer
/// designates, followed by one NULL position.
pub open spec fn raw_view(bufs: Seq<Seq<u8>>) -> Seq<Option<Seq<u8>>> {
    Seq::new(
        bufs.len() + 1,
        |i: int|
            if i < bufs.len() {
                Some(bufs[i])
            } else {
                None
            },
    )
}

/// The by-content reading of one optional buffer.
pub open spec fn opt_buf_view(o: Option<Vec<u8>>) -> Option<Seq<u8>> {
    match o {
        Some(b) => Some(b@),
        None => None,
    }
}

/// The by-content reading of a vector of optional buffers.
pub open spec fn opt_bufs_view(v: Seq<Option<Vec<u8>>>) -> Seq<Option<Seq<u8>>> {
    v.map_values(
        |o: Option<Vec<u8>>|
            match o {
                Some(b) => Some(b@),
                None => None,
            },
    )
}

/// The owned pointer-array builder: an ordered collection of independently
/// owned NUL-terminated byte buffers, from which a NULL-terminated array of
/// pointers into the collection can be produced on demand.
///
/// The produced view is modeled by content: each non-NULL position carries
/// the bytes its pointer designates, so two views taken from equal
/// collections are equal even though the native addresses would differ.
pub struct CStringVec {
    bufs: Vec<Vec<u8>>,
}

impl View for CStringVec {
    type V = Seq<Seq<u8>>;

    /// The buffers, in insertion order.
    closed spec fn view(&self) -> Seq<Seq<u8>> {
        self.bufs@.map_values(|b: Vec<u8>| b@)
    }
}

impl CStringVec {
    /// Every buffer is a well-formed C string: NUL-terminated, with no NUL
    /// before the terminator.
    pub open spec fn wf(&self) -> bool {
        forall|i: int| 0 <= i < self@.len() ==> codec::is_c_buffer(self@[i])
    }

    /// Create a new empty collection.
    pub fn new() -> (r: CStringVec)
        ensures
            r@.len() == 0,
            r.wf(),
    {
        CStringVec { bufs: Vec::new() }
    }

    /// The number of buffers held.
    pub fn len(&self) -> (r: usize)
        ensures
            r as int == self@.len(),
    {
        self.bufs.len()
    }

    /// Borrow buffer `i`.
    pub fn get(&self, i: usize) -> (r: &Vec<u8>)
        requires
            i < self@.len(),
        ensures
            r@ == self@[i as int],
    {
        &self.bufs[i]
    }

    /// Append `text` as an owned NUL-terminated buffer, preserving order.
    ///
    /// Fails with `InvalidInput` exactly when the text's bytes contain an
    /// embedded NUL; the collection is unchanged in that case. Any
    /// previously produced view is stale after a successful push: request a
    /// fresh one.
    pub fn push(&mut self, text: &str) -> (r: Result<(), Error>)
        requires
            old(self).wf(),
        ensures
            final(self).wf(),
            !codec::has_nul(text.spec_bytes()) ==> r is Ok && final(self)@ == old(self)@.push(
                codec::c_encoding(text.spec_bytes()),
            ),
            codec::has_nul(text.spec_bytes()) ==> (r matches Err(e) && e == Error::InvalidInput
                && final(self)@ == old(self)@),
    {
        match codec::to_c_string(text) {
            Ok(buf) => {
                proof {
                    codec::lemma_c_encoding_buffer(text.spec_bytes());
                    assert(old(self)@.push(buf@).drop_last() =~= old(self)@);
                }
                self.bufs.push(buf);
                proof {
                    assert(self@ =~= old(self)@.push(codec::c_encoding(text.spec_bytes())));
                }
                Ok(())
            },
            Err(e) => Err(e),
        }
    }

    /// Produce the NULL-terminated pointer-array view of the current
    /// buffers: one position per buffer, in order, then one NULL.
    ///
    /// The view borrows the collection: it is valid only until the next
    /// `push` or the collection's end of life, so it must be requested
    /// immediately before the one native call that consumes it and not
    /// retained afterward.
    pub fn get_raw(&self) -> (r: Vec<Option<Vec<u8>>>)
        ensures
            opt_bufs_view(r@) == raw_view(self@),
            r@.len() == self@.len() + 1,
    {
        let n = self.bufs.len();
        let mut out: Vec<Option<Vec<u8>>> = Vec::new();
        let mut i: usize = 0;
        while i < n
            invariant
                0 <= i <= n,
                n == self.bufs@.len(),
                out@.len() == i as int,
                forall|j: int| 0 <= j < i ==> opt_bufs_view(out@)[j] == Some(self@[j]),
            decreases n - i,
        {
            proof {
                assert(self@[i as int] == self.bufs@[i as int]@);
            }
            let ghost prev = out@;
            let dup = slice_to_vec(self.bufs[i].as_slice());
            proof {
                assert(dup@ == self@[i as int]);
            }
            let ghost elem = Some(dup);
            out.push(Some(dup));
            proof {
                assert(out@ == prev.push(elem));
                assert forall|j: int|
                    0 <= j < i + 1 implies opt_bufs_view(out@)[j] == Some(self@[j]) by {
                    if j < i as int {
                        assert(out@[j] == prev[j]);
                        assert(opt_bufs_view(prev)[j] == Some(self@[j]));
                    } else {
                        assert(out@[j] == elem);
                    }
                }
            }
            i = i + 1;
        }
        let ghost full = out@;
        out.push(None);
        proof {
            assert forall|j: int| 0 <= j < n implies opt_bufs_view(out@)[j] == Some(self@[j]) by {
                assert(out@[j] == full[j]);
                assert(opt_bufs_view(full)[j] == Some(self@[j]));
            }
            assert(opt_bufs_view(out@)[n as int] == None::<Seq<u8>>);
            assert(opt_bufs_view(out@) =~= raw_view(self@));
        }
        out
    }
}

} // verus!
