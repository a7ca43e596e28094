//! Progress of a job: how much of the source has been consumed.

use vstd::prelude::*;

verus! {

/// A count of the bytes consumed from the source, beside the size of the
/// source. The count only grows, and never passes the size.
#[derive(Clone, Copy, Debug)]
pub struct ProgressState {
    consumed: u64,
    total: u64,
}

/// The count after `amount` more bytes were consumed: the sum, held back at
/// the size of the source.
pub open spec fn advanced(consumed: nat, amount: nat, total: nat) -> nat {
    if consumed + amount <= total {
        consumed + amount
    } else {
        total
    }
}

impl ProgressState {
    #[verifier::type_invariant]
    spec fn bounded(self) -> bool {
        self.consumed <= self.total
    }

    /// The bytes consumed so far.
    pub closed spec fn spec_consumed(&self) -> u64 {
        self.consumed
    }

    /// The size of the source.
    pub closed spec fn spec_total(&self) -> u64 {
        self.total
    }

    /// Progress of a job on a source of `total` bytes of which nothing has
    /// been consumed yet.
    pub fn new(total: u64) -> (state: ProgressState)
        ensures
            state.spec_consumed() == 0,
            state.spec_total() == total,
    {
        ProgressState { consumed: 0, total }
    }

    /// Records that `amount` more bytes were consumed.
    pub fn advance(self, amount: usize) -> (next: ProgressState)
        ensures
            next.spec_total() == self.spec_total(),
            next.spec_consumed() == advanced(
                self.spec_consumed() as nat,
                amount as nat,
                self.spec_total() as nat,
            ),
            self.spec_consumed() <= next.spec_consumed() <= next.spec_total(),
    {
        proof {
            use_type_invariant(&self);
        }
        let room = self.total - self.consumed;
        if amount as u64 <= room {
            ProgressState { consumed: self.consumed + amount as u64, total: self.total }
        } else {
            ProgressState { consumed: self.total, total: self.total }
        }
    }

    /// The bytes consumed so far.
    #[verifier::when_used_as_spec(spec_consumed)]
    pub fn consumed(&self) -> (consumed: u64)
        ensures
            consumed == self.spec_consumed(),
            consumed <= self.spec_total(),
    {
        proof {
            use_type_invariant(self);
        }
        self.consumed
    }

    /// The size of the source.
    #[verifier::when_used_as_spec(spec_total)]
    pub fn total(&self) -> (total: u64)
        ensures
            total == self.spec_total(),
    {
        self.total
    }
}

} // verus!
