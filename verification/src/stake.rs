//! The stake ledger's records and the configuration they are validated
//! against.

use vstd::prelude::*;

verus! {

/// One entry of the stake ledger. A record is addressed by its owner together
/// with the sequence number the engine minted when the stake opened; the
/// ledger is append-only, so closing a stake flips `is_active` instead of
/// removing the record.
#[derive(Clone, Copy, Debug, PartialEq, Eq, Structural)]
pub struct Stake {
    /// Identity of the depositor.
    pub owner: u64,
    /// Principal currently escrowed, always positive.
    pub amount: u64,
    /// Timestamp at creation.
    pub start_time: i64,
    /// Lock period in seconds, one of the permitted options, fixed at
    /// creation.
    pub lock_period: u64,
    /// Identity of the associated external profile record; informational
    /// only, never mutated by the engine.
    pub fpl_user: u64,
    /// True from creation until the stake is closed; never set back.
    pub is_active: bool,
    /// Set at creation and again at closure.
    pub last_claim_time: i64,
}

/// Admin-set validation rules, read by every open-stake request.
#[derive(Clone, Debug)]
pub struct StakeConfig {
    /// Identity of the administrator who may replace this record.
    pub admin: u64,
    /// Smallest stake the engine accepts.
    pub min_stake_amount: u64,
    /// Largest stake the engine accepts.
    pub max_stake_amount: u64,
    /// Percentage of principal retained on early withdrawal, in [0, 100].
    pub early_withdrawal_fee: u8,
    /// The permitted lock periods in seconds; non-empty, every entry
    /// positive.
    pub lock_options: Vec<u64>,
}

/// The monotonic sequence counter: each successful open transition mints the
/// current count as the new record's sequence number and then advances it by
/// one. It never decreases.
#[derive(Clone, Copy, Debug, PartialEq, Eq, Structural)]
pub struct StakeCount {
    pub count: u64,
}

impl StakeConfig {
    /// The bounds are positive and ordered (a positive minimum keeps every
    /// accepted principal positive, as the ledger invariant demands), the fee
    /// is a percentage, and at least one positive lock period is on offer,
    /// each small enough that a timestamp plus a lock period stays within the
    /// timestamp domain.
    pub open spec fn well_formed(self) -> bool {
        &&& 0 < self.min_stake_amount <= self.max_stake_amount
        &&& self.early_withdrawal_fee <= 100
        &&& self.lock_options@.len() > 0
        &&& forall|i: int|
            0 <= i < self.lock_options@.len() ==> 0 < #[trigger] self.lock_options@[i]
                <= i64::MAX as u64
    }

    /// Whether `amount` lies within the configured stake-size bounds.
    pub open spec fn amount_in_bounds(self, amount: u64) -> bool {
        self.min_stake_amount <= amount <= self.max_stake_amount
    }

    /// Whether `lock_period` is one of the enumerated permitted durations.
    pub open spec fn lock_is_permitted(self, lock_period: u64) -> bool {
        self.lock_options@.contains(lock_period)
    }

    /// Checks the configuration invariant at run time, for callers that
    /// receive a configuration from outside the engine.
    pub fn check_well_formed(&self) -> (r: bool)
        ensures
            r == self.well_formed(),
    {
        if self.min_stake_amount == 0 || self.min_stake_amount > self.max_stake_amount {
            return false;
        }
        if self.early_withdrawal_fee > 100 {
            return false;
        }
        let n: usize = self.lock_options.len();
        if n == 0 {
            return false;
        }
        for i in 0..n
            invariant
                n == self.lock_options@.len(),
                forall|j: int|
                    0 <= j < i ==> 0 < #[trigger] self.lock_options@[j] <= i64::MAX as u64,
        {
            let v: u64 = self.lock_options[i];
            if v == 0 || v > i64::MAX as u64 {
                return false;
            }
        }
        true
    }

    /// Scans the permitted lock periods for `lock_period`.
    pub fn permits_lock(&self, lock_period: u64) -> (r: bool)
        ensures
            r == self.lock_is_permitted(lock_period),
    {
        let n: usize = self.lock_options.len();
        for i in 0..n
            invariant
                n == self.lock_options@.len(),
                forall|j: int| 0 <= j < i ==> #[trigger] self.lock_options@[j] != lock_period,
        {
            if self.lock_options[i] == lock_period {
                return true;
            }
        }
        false
    }
}

impl Stake {
    /// Every ledger entry escrows a positive principal, and its end time
    /// (start plus lock period) stays within the timestamp domain.
    pub open spec fn well_formed(self) -> bool {
        &&& self.amount > 0
        &&& self.lock_period <= i64::MAX as u64
        &&& self.start_time + self.lock_period <= i64::MAX
    }

    /// The first moment at which this stake can be closed without penalty.
    pub open spec fn end_time(self) -> int {
        self.start_time + self.lock_period
    }

    /// The record as the open transition writes it.
    pub open spec fn opened(owner: u64, amount: u64, now: i64, lock_period: u64, fpl_user: u64) -> Stake {
        Stake {
            owner,
            amount,
            start_time: now,
            lock_period,
            fpl_user,
            is_active: true,
            last_claim_time: now,
        }
    }

    /// The record after the close transition: identical except that it is no
    /// longer active and its claim time is the closing time.
    pub open spec fn closed(self, now: i64) -> Stake {
        Stake { is_active: false, last_claim_time: now, ..self }
    }
}

} // verus!
