//! Run statistics: monotonic counters, a set of distinct unsupported
//! extensions, and the recording of each file's terminal outcome in exactly
//! one bucket.

use vstd::prelude::*;
use vstd::string::*;
use crate::text::str_eq;

verus! {

/// The terminal state of one processed file. Every file ends in exactly one
/// of these, and each is counted in exactly one bucket.
#[derive(Clone, Copy, Debug, PartialEq, Eq, Structural)]
pub enum TransferOutcome {
    /// Placed at the destination under its own name.
    Saved,
    /// A byte-identical file already sat at the destination; nothing was done.
    SkippedIdentical,
    /// A different file of the same name sat there; placed under a `dup.` name.
    SavedAsDuplicate,
    /// The file could not be placed (or compared) and was left alone.
    Failed,
}

/// Whether some string in `l` holds the characters `x`.
pub open spec fn contains_str(l: Seq<String>, x: Seq<char>) -> bool {
    exists|i: int| 0 <= i < l.len() && l[i]@ == x
}

/// The unsupported extensions joined with `", "`, in insertion order.
pub open spec fn join_types(l: Seq<String>) -> Seq<char>
    decreases l.len(),
{
    if l.len() == 0 {
        Seq::empty()
    } else if l.len() == 1 {
        l[0]@
    } else {
        join_types(l.drop_last()) + ", "@ + l.last()@
    }
}

/// How the counters change when a file's terminal outcome is recorded.
pub open spec fn spec_record_outcome(s: Statistics, outcome: TransferOutcome) -> Statistics {
    match outcome {
        TransferOutcome::Saved => Statistics { saved: (s.saved + 1) as usize, ..s },
        TransferOutcome::SkippedIdentical => Statistics {
            identical: (s.identical + 1) as usize,
            ..s
        },
        TransferOutcome::SavedAsDuplicate => Statistics {
            same_name_diff_content: (s.same_name_diff_content + 1) as usize,
            ..s
        },
        TransferOutcome::Failed => Statistics { ignored: (s.ignored + 1) as usize, ..s },
    }
}

/// Counters for one organizing run. Zeroed at the start, written by every
/// pipeline stage, read once at the end for the summary; never reset.
pub struct Statistics {
    pub saved: usize,
    pub ignored: usize,
    pub successfully_compared: usize,
    pub identical: usize,
    pub same_name_diff_content: usize,
    pub fallback: usize,
    pub unsupported_types: Vec<String>,
}

impl Statistics {
    /// The unsupported extensions are pairwise distinct, as in a set.
    pub open spec fn distinct_types(self) -> bool {
        forall|i: int, j: int|
            0 <= i < j < self.unsupported_types@.len() ==> self.unsupported_types@[i]@
                != self.unsupported_types@[j]@
    }

    /// The sum of the terminal buckets: every processed file lands in
    /// exactly one of them.
    pub open spec fn bucket_total(self) -> int {
        self.saved + self.ignored + self.identical + self.same_name_diff_content
    }

    pub fn new() -> (s: Statistics)
        ensures
            s.saved == 0,
            s.ignored == 0,
            s.successfully_compared == 0,
            s.identical == 0,
            s.same_name_diff_content == 0,
            s.fallback == 0,
            s.unsupported_types@ =~= Seq::<String>::empty(),
            s.distinct_types(),
    {
        Statistics {
            saved: 0,
            ignored: 0,
            successfully_compared: 0,
            identical: 0,
            same_name_diff_content: 0,
            fallback: 0,
            unsupported_types: Vec::new(),
        }
    }

    pub fn increment_saved_file_counter(&mut self)
        requires
            old(self).saved < usize::MAX,
        ensures
            *final(self) == (Statistics { saved: (old(self).saved + 1) as usize, ..*old(self) }),
    {
        self.saved += 1;
    }

    pub fn get_saved_file_counter(&self) -> (r: usize)
        ensures
            r == self.saved,
    {
        self.saved
    }

    pub fn increment_ignored_file_counter(&mut self)
        requires
            old(self).ignored < usize::MAX,
        ensures
            *final(self) == (Statistics { ignored: (old(self).ignored + 1) as usize, ..*old(self) }),
    {
        self.ignored += 1;
    }

    pub fn get_ignored_file_counter(&self) -> (r: usize)
        ensures
            r == self.ignored,
    {
        self.ignored
    }

    pub fn increment_successfully_compared_file_counter(&mut self)
        requires
            old(self).successfully_compared < usize::MAX,
        ensures
            *final(self) == (Statistics {
                successfully_compared: (old(self).successfully_compared + 1) as usize,
                ..*old(self)
            }),
    {
        self.successfully_compared += 1;
    }

    pub fn get_successfully_compared_file_counter(&self) -> (r: usize)
        ensures
            r == self.successfully_compared,
    {
        self.successfully_compared
    }

    pub fn increment_identical_file_counter(&mut self)
        requires
            old(self).identical < usize::MAX,
        ensures
            *final(self) == (Statistics {
                identical: (old(self).identical + 1) as usize,
                ..*old(self)
            }),
    {
        self.identical += 1;
    }

    pub fn get_identical_file_counter(&self) -> (r: usize)
        ensures
            r == self.identical,
    {
        self.identical
    }

    pub fn increment_same_name_diff_content_counter(&mut self)
        requires
            old(self).same_name_diff_content < usize::MAX,
        ensures
            *final(self) == (Statistics {
                same_name_diff_content: (old(self).same_name_diff_content + 1) as usize,
                ..*old(self)
            }),
    {
        self.same_name_diff_content += 1;
    }

    pub fn get_same_name_diff_content_counter(&self) -> (r: usize)
        ensures
            r == self.same_name_diff_content,
    {
        self.same_name_diff_content
    }

    pub fn increment_fallback_counter(&mut self)
        requires
            old(self).fallback < usize::MAX,
        ensures
            *final(self) == (Statistics {
                fallback: (old(self).fallback + 1) as usize,
                ..*old(self)
            }),
    {
        self.fallback += 1;
    }

    pub fn get_fallback_counter(&self) -> (r: usize)
        ensures
            r == self.fallback,
    {
        self.fallback
    }

    /// Records one more distinct unsupported extension; an extension already
    /// recorded leaves the set unchanged.
    pub fn add_unsupported_type(&mut self, unsupported_type: String)
        ensures
            final(self).saved == old(self).saved,
            final(self).ignored == old(self).ignored,
            final(self).identical == old(self).identical,
            final(self).same_name_diff_content == old(self).same_name_diff_content,
            final(self).successfully_compared == old(self).successfully_compared,
            final(self).fallback == old(self).fallback,
            contains_str(old(self).unsupported_types@, unsupported_type@) ==> final(self).unsupported_types@ == old(self).unsupported_types@,
            !contains_str(old(self).unsupported_types@, unsupported_type@) ==> final(self).unsupported_types@ == old(self).unsupported_types@.push(unsupported_type),
            old(self).distinct_types() ==> final(self).distinct_types(),
            contains_str(final(self).unsupported_types@, unsupported_type@),
    {
        let n: usize = self.unsupported_types.len();
        let mut i: usize = 0;
        while i < n
            invariant
                n == self.unsupported_types@.len(),
                i <= n,
                forall|j: int| 0 <= j < i ==> self.unsupported_types@[j]@ != unsupported_type@,
            decreases n - i,
        {
            if str_eq(self.unsupported_types[i].as_str(), unsupported_type.as_str()) {
                proof {
                    let l = self.unsupported_types@;
                    assert(0 <= i < l.len() && l[i as int]@ == unsupported_type@);
                }
                return ;
            }
            i += 1;
        }
        self.unsupported_types.push(unsupported_type);
        proof {
            let l = self.unsupported_types@;
            assert(0 <= l.len() - 1 < l.len() && l[l.len() - 1]@ == unsupported_type@);
        }
    }

    /// The unsupported extensions encountered, joined with `", "`.
    pub fn get_unsupported_types(&self) -> (r: String)
        ensures
            r@ == join_types(self.unsupported_types@),
    {
        let n: usize = self.unsupported_types.len();
        let mut out = String::new();
        let mut i: usize = 0;
        while i < n
            invariant
                n == self.unsupported_types@.len(),
                i <= n,
                out@ == join_types(self.unsupported_types@.take(i as int)),
            decreases n - i,
        {
            if i > 0 {
                out.append(", ");
            }
            out.append(self.unsupported_types[i].as_str());
            proof {
                let l = self.unsupported_types@;
                assert(l.take(i + 1).drop_last() =~= l.take(i as int));
                assert(l.take(i + 1).last() == l[i as int]);
            }
            i += 1;
        }
        proof {
            assert(self.unsupported_types@.take(n as int) =~= self.unsupported_types@);
        }
        out
    }

    /// Counts a file's terminal outcome in its bucket: `Saved` in `saved`,
    /// `SkippedIdentical` in `identical`, `SavedAsDuplicate` in
    /// `same_name_diff_content`, `Failed` in `ignored`. Exactly one bucket
    /// grows, by exactly one.
    pub fn record_outcome(&mut self, outcome: TransferOutcome)
        requires
            old(self).bucket_total() < usize::MAX,
        ensures
            *final(self) == spec_record_outcome(*old(self), outcome),
            final(self).bucket_total() == old(self).bucket_total() + 1,
    {
        match outcome {
            TransferOutcome::Saved => self.saved += 1,
            TransferOutcome::SkippedIdentical => self.identical += 1,
            TransferOutcome::SavedAsDuplicate => self.same_name_diff_content += 1,
            TransferOutcome::Failed => self.ignored += 1,
        }
    }

    /// Counts a successful post-copy verification.
    pub fn record_verification(&mut self, matched: bool)
        requires
            old(self).successfully_compared < usize::MAX,
        ensures
            matched ==> *final(self) == (Statistics {
                successfully_compared: (old(self).successfully_compared + 1) as usize,
                ..*old(self)
            }),
            !matched ==> *final(self) == *old(self),
    {
        if matched {
            self.successfully_compared += 1;
        }
    }

    /// Routes a file of an unsupported type: its extension joins the set and
    /// the file is counted as ignored.
    pub fn record_unsupported(&mut self, extension: String)
        requires
            old(self).ignored < usize::MAX,
        ensures
            final(self).ignored == old(self).ignored + 1,
            final(self).saved == old(self).saved,
            final(self).identical == old(self).identical,
            final(self).same_name_diff_content == old(self).same_name_diff_content,
            final(self).successfully_compared == old(self).successfully_compared,
            final(self).fallback == old(self).fallback,
            contains_str(final(self).unsupported_types@, extension@),
            contains_str(old(self).unsupported_types@, extension@) ==> final(self).unsupported_types@ == old(self).unsupported_types@,
            !contains_str(old(self).unsupported_types@, extension@) ==> final(self).unsupported_types@ == old(self).unsupported_types@.push(extension),
            old(self).distinct_types() ==> final(self).distinct_types(),
    {
        self.add_unsupported_type(extension);
        self.increment_ignored_file_counter();
    }
}

/// Every terminal outcome lands in exactly one bucket: recording an outcome
/// grows the bucket sum by one, grows its own bucket by one, and leaves every
/// other counter as it was.
pub proof fn lemma_outcome_exactly_one_bucket(s: Statistics, outcome: TransferOutcome)
    requires
        s.bucket_total() < usize::MAX,
    ensures
        spec_record_outcome(s, outcome).bucket_total() == s.bucket_total() + 1,
        spec_record_outcome(s, outcome).saved == s.saved + (if outcome == TransferOutcome::Saved {
            1int
        } else {
            0int
        }),
        spec_record_outcome(s, outcome).identical == s.identical + (if outcome
            == TransferOutcome::SkippedIdentical {
            1int
        } else {
            0int
        }),
        spec_record_outcome(s, outcome).same_name_diff_content == s.same_name_diff_content + (
        if outcome == TransferOutcome::SavedAsDuplicate {
            1int
        } else {
            0int
        }),
        spec_record_outcome(s, outcome).ignored == s.ignored + (if outcome
            == TransferOutcome::Failed {
            1int
        } else {
            0int
        }),
        spec_record_outcome(s, outcome).fallback == s.fallback,
        spec_record_outcome(s, outcome).successfully_compared == s.successfully_compared,
        spec_record_outcome(s, outcome).unsupported_types == s.unsupported_types,
{
}

/// Organizing the same file into the same destination a second time: the
/// probe then finds a byte-identical file, the file is skipped, and the skip
/// grows the identical bucket alone — the saved count never grows on a
/// re-run.
pub proof fn lemma_rerun_identical(s: Statistics)
    requires
        s.bucket_total() < usize::MAX,
    ensures
        spec_record_outcome(s, TransferOutcome::SkippedIdentical).saved == s.saved,
        spec_record_outcome(s, TransferOutcome::SkippedIdentical).identical == s.identical + 1,
        spec_record_outcome(s, TransferOutcome::SkippedIdentical).same_name_diff_content
            == s.same_name_diff_content,
        spec_record_outcome(s, TransferOutcome::SkippedIdentical).ignored == s.ignored,
{
}

} // verus!
