//! Byte comparison of two files, fed in fixed chunks: sizes are compared
//! first, then the streams chunk by chunk, and the verdict is equality of
//! the sizes and of every byte seen.

use vstd::prelude::*;
use vstd::assert_by_contradiction;

verus! {

/// True when the two byte slices hold the same bytes.
pub fn bytes_equal(a: &[u8], b: &[u8]) -> (r: bool)
    ensures
        r == (a@ == b@),
{
    let na: usize = a.len();
    let nb: usize = b.len();
    if na != nb {
        return false;
    }
    let mut i: usize = 0;
    while i < na
        invariant
            na == a@.len(),
            nb == b@.len(),
            na == nb,
            i <= na,
            forall|j: int| 0 <= j < i ==> a@[j] == b@[j],
        decreases na - i,
    {
        if a[i] != b[i] {
            return false;
        }
        i += 1;
    }
    proof {
        assert(a@ =~= b@);
    }
    true
}

/// Compares two streams of bytes, chunk by chunk. The declared sizes are
/// checked first; the streams are then fed in pairs of chunks until a
/// mismatch or the end of both. The verdict is true exactly when the sizes
/// are equal and the bytes seen on both sides agree.
pub struct StreamComparer {
    /// The declared size of the first stream.
    pub size1: u64,
    /// The declared size of the second stream.
    pub size2: u64,
    /// No mismatch so far.
    pub equal_so_far: bool,
    /// A mismatch occurred or both streams ended.
    pub finished: bool,
    /// The bytes fed from the first stream.
    pub seen1: Ghost<Seq<u8>>,
    /// The bytes fed from the second stream.
    pub seen2: Ghost<Seq<u8>>,
}

impl StreamComparer {
    /// `equal_so_far` means exactly that the sizes match and every byte seen
    /// agrees; while unfinished, both sides have seen the same number of
    /// bytes.
    pub open spec fn wf(self) -> bool {
        &&& (self.equal_so_far <==> (self.size1 == self.size2 && self.seen1@ == self.seen2@))
        &&& (!self.finished ==> self.seen1@.len() == self.seen2@.len())
    }

    /// Starts a comparison of two streams of the declared sizes. Streams of
    /// different sizes are already decided, with no byte read.
    pub fn new(size1: u64, size2: u64) -> (c: StreamComparer)
        ensures
            c.wf(),
            c.size1 == size1,
            c.size2 == size2,
            c.finished == (size1 != size2),
            c.equal_so_far == (size1 == size2),
            c.seen1@ =~= Seq::<u8>::empty(),
            c.seen2@ =~= Seq::<u8>::empty(),
    {
        StreamComparer {
            size1,
            size2,
            equal_so_far: size1 == size2,
            finished: size1 != size2,
            seen1: Ghost(Seq::empty()),
            seen2: Ghost(Seq::empty()),
        }
    }

    pub fn is_finished(&self) -> (r: bool)
        ensures
            r == self.finished,
    {
        self.finished
    }

    /// Feeds the next chunk read from each stream. Chunks of different
    /// lengths, a pair of differing chunks, or a pair of empty chunks (the
    /// end of both streams) finish the comparison.
    pub fn feed(&mut self, c1: &[u8], c2: &[u8])
        requires
            old(self).wf(),
            !old(self).finished,
        ensures
            final(self).wf(),
            final(self).size1 == old(self).size1,
            final(self).size2 == old(self).size2,
            final(self).seen1@ == old(self).seen1@ + c1@,
            final(self).seen2@ == old(self).seen2@ + c2@,
            final(self).equal_so_far == (old(self).equal_so_far && c1@ == c2@),
            final(self).finished == (c1@.len() != c2@.len() || c1@.len() == 0 || c1@ != c2@),
    {
        let ghost s1 = self.seen1@;
        let ghost s2 = self.seen2@;
        proof {
            self.seen1@ = s1 + c1@;
            self.seen2@ = s2 + c2@;
        }
        let same = bytes_equal(c1, c2);
        if c1.len() != c2.len() || !same {
            self.equal_so_far = false;
            self.finished = true;
            proof {
                if s1 == s2 {
                    lemma_append_unequal(s1, s2, c1@, c2@);
                } else {
                    lemma_prefix_unequal(s1, s2, c1@, c2@);
                }
            }
        } else if c1.len() == 0 {
            self.finished = true;
        } else {
            proof {
                if !self.equal_so_far && self.size1 == self.size2 {
                    lemma_prefix_unequal(s1, s2, c1@, c2@);
                }
            }
        }
    }

    /// The verdict, once the comparison is finished: the streams are
    /// identical — equal sizes and all bytes equal.
    pub fn verdict(&self) -> (r: bool)
        requires
            self.wf(),
            self.finished,
        ensures
            r == (self.size1 == self.size2 && self.seen1@ == self.seen2@),
    {
        self.equal_so_far
    }
}

/// Appending differing chunks to one shared prefix tells the wholes apart.
proof fn lemma_append_unequal(s1: Seq<u8>, s2: Seq<u8>, c1: Seq<u8>, c2: Seq<u8>)
    requires
        s1 == s2,
        c1 != c2,
    ensures
        s1 + c1 != s2 + c2,
{
    if c1.len() == c2.len() {
        assert_by_contradiction!(exists|k: int| 0 <= k < c1.len() && c1[k] != c2[k], {
            assert(c1 =~= c2);
        });
        let k = choose|k: int| 0 <= k < c1.len() && c1[k] != c2[k];
        assert((s1 + c1)[s1.len() + k] != (s2 + c2)[s2.len() + k]);
    } else {
        assert((s1 + c1).len() != (s2 + c2).len());
    }
}

/// Appending to prefixes of one length that already differ keeps the wholes
/// apart.
proof fn lemma_prefix_unequal(s1: Seq<u8>, s2: Seq<u8>, c1: Seq<u8>, c2: Seq<u8>)
    requires
        s1 != s2,
        s1.len() == s2.len(),
    ensures
        s1 + c1 != s2 + c2,
{
    assert_by_contradiction!(exists|k: int| 0 <= k < s1.len() && s1[k] != s2[k], {
        assert(s1 =~= s2);
    });
    let k = choose|k: int| 0 <= k < s1.len() && s1[k] != s2[k];
    assert((s1 + c1)[k] != (s2 + c2)[k]);
}

} // verus!
