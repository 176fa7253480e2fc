//! Selection of smudge buckets and the record of which buckets a stroke has
//! used.
use vstd::prelude::*;

verus! {

/// The lowest and highest smudge bucket used so far; `None` until a bucket
/// is used.
#[derive(Debug, Clone, Copy, PartialEq, Eq)]
pub struct BucketsUsed {
    pub min: Option<usize>,
    pub max: Option<usize>,
}

impl BucketsUsed {
    /// No bucket has been used, or some have and the lowest is at most the
    /// highest.
    pub open spec fn consistent(self) -> bool {
        match (self.min, self.max) {
            (None, None) => true,
            (Some(lo), Some(hi)) => lo <= hi,
            _ => false,
        }
    }

    /// The record after bucket `idx` is used: the first use sets both ends,
    /// later uses widen the range to include `idx`.
    pub open spec fn noted(self, idx: usize) -> BucketsUsed {
        match self.min {
            None => BucketsUsed { min: Some(idx), max: Some(idx) },
            Some(lo) => {
                let hi = match self.max {
                    Some(h) => h,
                    None => 0,
                };
                BucketsUsed {
                    min: Some(if idx < lo {
                        idx
                    } else {
                        lo
                    }),
                    max: if idx > hi {
                        Some(idx)
                    } else {
                        self.max
                    },
                }
            },
        }
    }

    /// Creates the record of a stroke that has used no bucket.
    pub fn new() -> (u: BucketsUsed)
        ensures
            u.min is None,
            u.max is None,
    {
        BucketsUsed { min: None, max: None }
    }

    /// Records that bucket `idx` is used.
    pub fn note(&mut self, idx: usize)
        ensures
            *final(self) == old(self).noted(idx),
    {
        match self.min {
            None => {
                self.min = Some(idx);
                self.max = Some(idx);
            },
            Some(lo) => {
                if idx < lo {
                    self.min = Some(idx);
                }
                let hi = match self.max {
                    Some(h) => h,
                    None => 0,
                };
                if idx > hi {
                    self.max = Some(idx);
                }
            },
        }
    }

    /// A consistent record stays consistent, and afterwards covers the noted
    /// bucket and every bucket it covered before.
    pub proof fn lemma_noted_covers(self, idx: usize)
        requires
            self.consistent(),
        ensures
            self.noted(idx).consistent(),
            self.noted(idx).min.unwrap() <= idx <= self.noted(idx).max.unwrap(),
            self.min matches Some(lo) ==> self.noted(idx).min.unwrap() <= lo,
            self.max matches Some(hi) ==> hi <= self.noted(idx).max.unwrap(),
    {
    }
}

/// The bucket that `index` names among `n_buckets`, if there is one; reading
/// or writing a bucket past the end does nothing.
pub fn smudge_bucket_slot(index: usize, n_buckets: usize) -> (slot: Option<usize>)
    ensures
        slot == (if index < n_buckets {
            Some(index)
        } else {
            None::<usize>
        }),
{
    if index < n_buckets {
        Some(index)
    } else {
        None
    }
}

/// The bucket that a requested index selects among `n_buckets`: the index
/// itself, or the last bucket when the index is past the end.
pub open spec fn selected_bucket(requested: usize, n_buckets: usize) -> usize {
    if requested < n_buckets {
        requested
    } else {
        (n_buckets - 1) as usize
    }
}

/// Selects the smudge bucket for a requested index and records its use. With
/// no buckets there is nothing to select (the brush then uses its single
/// built-in bucket) and nothing is recorded.
pub fn select_smudge_bucket(requested: usize, n_buckets: usize, used: &mut BucketsUsed) -> (idx:
    Option<usize>)
    ensures
        n_buckets == 0 ==> idx is None && *final(used) == *old(used),
        n_buckets > 0 ==> idx == Some(selected_bucket(requested, n_buckets)) && *final(used)
            == old(used).noted(selected_bucket(requested, n_buckets)),
{
    if n_buckets == 0 {
        return None;
    }
    let idx = if requested < n_buckets {
        requested
    } else {
        n_buckets - 1
    };
    used.note(idx);
    Some(idx)
}

} // verus!
