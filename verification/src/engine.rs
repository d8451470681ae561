//! The staking engine: the two validated state transitions — open a stake,
//! close a stake — together with the custody invariant they preserve.
//!
//! The engine owns the stake ledger, the sequence counter, the escrow and
//! treasury vaults and the treasury record. Funds can only move through the
//! two transitions: opening a stake debits the caller's wallet and credits
//! escrow; closing one debits escrow, returns the principal minus any
//! early-withdrawal fee to the owner, and forwards the fee to the treasury.
//! Every transition either applies all of its effects or fails with an error
//! code and no effect at all.

use vstd::prelude::*;
use crate::errors::ErrorCode;
use crate::fees::{early_fee, fee_at, compute_early_fee};
use crate::stake::{Stake, StakeConfig, StakeCount};
use crate::treasury::Treasury;
use crate::vault::{Vault, Wallet, ESCROW_VAULT_ADDRESS, TREASURY_VAULT_ADDRESS};

verus! {

/// The sum of the principals of all still-active records: what the escrow
/// vault must hold.
pub open spec fn active_total(s: Seq<Stake>) -> int
    decreases s.len(),
{
    if s.len() == 0 {
        0
    } else {
        active_total(s.drop_last()) + if s.last().is_active {
            s.last().amount as int
        } else {
            0
        }
    }
}

pub proof fn lemma_active_total_nonneg(s: Seq<Stake>)
    ensures
        active_total(s) >= 0,
    decreases s.len(),
{
    if s.len() > 0 {
        lemma_active_total_nonneg(s.drop_last());
    }
}

/// Appending a record adds its principal to the active total if and only if
/// the record is active.
pub proof fn lemma_active_total_push(s: Seq<Stake>, st: Stake)
    ensures
        active_total(s.push(st)) == active_total(s) + if st.is_active {
            st.amount as int
        } else {
            0
        },
{
    assert(s.push(st).drop_last() =~= s);
}

/// Replacing one record changes the active total by exactly the difference
/// of the two records' active principals.
pub proof fn lemma_active_total_update(s: Seq<Stake>, i: int, st: Stake)
    requires
        0 <= i < s.len(),
    ensures
        active_total(s.update(i, st)) == active_total(s) - (if s[i].is_active {
            s[i].amount as int
        } else {
            0
        }) + (if st.is_active {
            st.amount as int
        } else {
            0
        }),
    decreases s.len(),
{
    let t = s.update(i, st);
    if i == s.len() - 1 {
        assert(t.drop_last() =~= s.drop_last());
    } else {
        assert(t.drop_last() =~= s.drop_last().update(i, st));
        lemma_active_total_update(s.drop_last(), i, st);
    }
}

/// The escrow vault always covers each single active principal.
pub proof fn lemma_active_total_lower_bound(s: Seq<Stake>, i: int)
    requires
        0 <= i < s.len(),
        s[i].is_active,
    ensures
        active_total(s) >= s[i].amount,
    decreases s.len(),
{
    if i == s.len() - 1 {
        lemma_active_total_nonneg(s.drop_last());
    } else {
        lemma_active_total_lower_bound(s.drop_last(), i);
    }
}

/// The orchestrating component: validation rules, the append-only stake
/// ledger (the record minted by the n-th successful open sits at index n,
/// its sequence number), the sequence counter, the two vaults, and the
/// treasury.
#[derive(Clone, Debug)]
pub struct StakeEngine {
    pub config: StakeConfig,
    pub stakes: Vec<Stake>,
    pub stake_count: StakeCount,
    pub escrow_vault: Vault,
    pub treasury_vault: Vault,
    pub treasury: Treasury,
}

impl StakeEngine {
    /// The engine's invariant, established at construction and preserved by
    /// both transitions: the rules are well formed, the counter equals the
    /// ledger length (so the counter's value is always the next fresh
    /// sequence number), every record is well formed, both vaults sit at
    /// their label-derived addresses, the escrow vault holds exactly the
    /// total of the active principals, and the treasury vault's balance
    /// mirrors the running fee total.
    pub open spec fn well_formed(self) -> bool {
        &&& self.config.well_formed()
        &&& self.stake_count.count == self.stakes@.len()
        &&& forall|i: int|
            0 <= i < self.stakes@.len() ==> (#[trigger] self.stakes@[i]).well_formed()
        &&& self.escrow_vault.address == ESCROW_VAULT_ADDRESS
        &&& self.treasury_vault.address == TREASURY_VAULT_ADDRESS
        &&& self.escrow_vault.balance == active_total(self.stakes@)
        &&& self.treasury_vault.balance == self.treasury.total_fees
    }

    /// A fresh engine under the given rules: empty ledger, counter at zero,
    /// empty vaults at their derived addresses, no fees collected yet.
    pub fn new(config: StakeConfig, treasury_admin: u64, protocol_fee: u8, reserve_percentage: u8) -> (e: StakeEngine)
        requires
            config.well_formed(),
        ensures
            e.well_formed(),
            e.config == config,
            e.stakes@.len() == 0,
            e.stake_count.count == 0,
            e.escrow_vault.balance == 0,
            e.treasury_vault.balance == 0,
            e.treasury.total_fees == 0,
    {
        StakeEngine {
            config,
            stakes: Vec::new(),
            stake_count: StakeCount { count: 0 },
            escrow_vault: Vault { address: ESCROW_VAULT_ADDRESS, balance: 0 },
            treasury_vault: Vault { address: TREASURY_VAULT_ADDRESS, balance: 0 },
            treasury: Treasury {
                admin: treasury_admin,
                total_fees: 0,
                protocol_fee,
                reserve_percentage,
            },
        }
    }

    /// Resolves the record addressed by (owner, sequence number): the ledger
    /// entry at index `stake_id`, provided it belongs to `owner`. Every
    /// record a successful open writes stays addressable this way forever.
    pub fn get_stake(&self, owner: u64, stake_id: u64) -> (r: Option<Stake>)
        ensures
            match r {
                Some(st) => {
                    &&& stake_id < self.stakes@.len()
                    &&& st == self.stakes@[stake_id as int]
                    &&& st.owner == owner
                },
                None => stake_id >= self.stakes@.len() || self.stakes@[stake_id as int].owner
                    != owner,
            },
    {
        let n: usize = self.stakes.len();
        if stake_id >= n as u64 {
            return None;
        }
        let st: Stake = self.stakes[stake_id as usize];
        if st.owner == owner {
            Some(st)
        } else {
            None
        }
    }

    /// Whether an open request passes validation and can be funded: the
    /// amount lies within bounds, the lock period is permitted, and the
    /// caller's wallet covers the principal.
    pub open spec fn can_open(self, wallet: Wallet, amount: u64, lock_period: u64) -> bool {
        &&& self.config.amount_in_bounds(amount)
        &&& self.config.lock_is_permitted(lock_period)
        &&& wallet.balance >= amount
    }

    /// The error an open request fails with, checked in order: amount bounds
    /// first, then the lock-period set, then funding.
    pub open spec fn open_error(self, wallet: Wallet, amount: u64, lock_period: u64) -> ErrorCode {
        if !self.config.amount_in_bounds(amount) {
            ErrorCode::InvalidStakeAmount
        } else if !self.config.lock_is_permitted(lock_period) {
            ErrorCode::InvalidLockPeriod
        } else {
            ErrorCode::InsufficientFunds
        }
    }

    /// Whether a close request is authorized: the sequence number resolves to
    /// a record, the record belongs to the requester, it is still active, and
    /// the presented fund source derives to the escrow vault's address.
    pub open spec fn can_close(self, requester: u64, stake_id: u64, stake_vault: u64) -> bool {
        &&& stake_id < self.stakes@.len()
        &&& self.stakes@[stake_id as int].owner == requester
        &&& self.stakes@[stake_id as int].is_active
        &&& stake_vault == ESCROW_VAULT_ADDRESS
    }

    /// The error a close request fails with, checked in order: resolution and
    /// ownership first, then the active flag, then the presented vault
    /// address.
    pub open spec fn close_error(self, requester: u64, stake_id: u64, stake_vault: u64) -> ErrorCode {
        if stake_id >= self.stakes@.len() || self.stakes@[stake_id as int].owner != requester {
            ErrorCode::UnauthorizedAccess
        } else if !self.stakes@[stake_id as int].is_active {
            ErrorCode::StakeNotActive
        } else {
            ErrorCode::UnauthorizedAccess
        }
    }

    /// The open transition. Validates the request against the rules (amount
    /// bounds, then the lock-period set, first failure wins), moves the
    /// principal from the caller's wallet into escrow, appends the new record
    /// under the counter's current value as its sequence number, and
    /// advances the counter by one — atomically: on any error nothing
    /// changes.
    pub fn create_stake(
        &mut self,
        wallet: &mut Wallet,
        amount: u64,
        lock_period: u64,
        fpl_user: u64,
        now: i64,
    ) -> (r: Result<(), ErrorCode>)
        requires
            old(self).well_formed(),
            old(self).escrow_vault.balance + amount <= u64::MAX,
            old(self).config.lock_is_permitted(lock_period) ==> now + lock_period <= i64::MAX,
        ensures
            final(self).well_formed(),
            r is Ok <==> old(self).can_open(*old(wallet), amount, lock_period),
            r matches Err(e) ==> {
                &&& e == old(self).open_error(*old(wallet), amount, lock_period)
                &&& *final(self) == *old(self)
                &&& *final(wallet) == *old(wallet)
            },
            r is Ok ==> {
                &&& final(self).stakes@ == old(self).stakes@.push(
                    Stake::opened(old(wallet).owner, amount, now, lock_period, fpl_user),
                )
                &&& final(self).stake_count.count == old(self).stake_count.count + 1
                &&& final(self).escrow_vault.balance == old(self).escrow_vault.balance + amount
                &&& final(wallet).owner == old(wallet).owner
                &&& final(wallet).balance == old(wallet).balance - amount
                &&& final(self).config == old(self).config
                &&& final(self).treasury == old(self).treasury
                &&& final(self).treasury_vault == old(self).treasury_vault
            },
            final(wallet).balance + final(self).escrow_vault.balance
                + final(self).treasury_vault.balance == old(wallet).balance
                + old(self).escrow_vault.balance + old(self).treasury_vault.balance,
    {
        if amount < self.config.min_stake_amount || amount > self.config.max_stake_amount {
            return Err(ErrorCode::InvalidStakeAmount);
        }
        if !self.config.permits_lock(lock_period) {
            return Err(ErrorCode::InvalidLockPeriod);
        }
        if wallet.balance < amount {
            return Err(ErrorCode::InsufficientFunds);
        }
        let st = Stake {
            owner: wallet.owner,
            amount,
            start_time: now,
            lock_period,
            fpl_user,
            is_active: true,
            last_claim_time: now,
        };
        proof {
            lemma_active_total_push(self.stakes@, st);
        }
        wallet.balance = wallet.balance - amount;
        self.escrow_vault.balance = self.escrow_vault.balance + amount;
        self.stakes.push(st);
        let n: usize = self.stakes.len();
        self.stake_count.count = n as u64;
        Ok(())
    }

    /// The close transition. Resolves the record by (requester, sequence
    /// number) and checks ownership, the active flag and the presented vault
    /// address, first failure wins. On success it charges the
    /// early-withdrawal fee if the lock period has not yet elapsed (floor of
    /// amount times the fee percentage over one hundred, never more than the
    /// principal), returns the remainder to the owner's wallet, forwards the
    /// fee to the treasury, and marks the record closed — atomically: on any
    /// error nothing changes, and a closed record can never be closed again.
    pub fn unstake(
        &mut self,
        wallet: &mut Wallet,
        stake_id: u64,
        stake_vault: u64,
        now: i64,
    ) -> (r: Result<(), ErrorCode>)
        requires
            old(self).well_formed(),
            old(self).can_close(old(wallet).owner, stake_id, stake_vault) ==> {
                &&& old(wallet).balance + old(self).stakes@[stake_id as int].amount <= u64::MAX
                &&& old(self).treasury.total_fees + old(self).stakes@[stake_id as int].amount
                    <= u64::MAX
            },
        ensures
            final(self).well_formed(),
            r is Ok <==> old(self).can_close(old(wallet).owner, stake_id, stake_vault),
            r matches Err(e) ==> {
                &&& e == old(self).close_error(old(wallet).owner, stake_id, stake_vault)
                &&& *final(self) == *old(self)
                &&& *final(wallet) == *old(wallet)
            },
            r is Ok ==> ({
                let st = old(self).stakes@[stake_id as int];
                let fee = fee_at(st, old(self).config.early_withdrawal_fee, now);
                let return_amount = st.amount - fee;
                &&& 0 <= fee <= st.amount
                &&& return_amount + fee == st.amount
                &&& (now < st.end_time() ==> fee == early_fee(
                    st.amount,
                    old(self).config.early_withdrawal_fee,
                ))
                &&& (now >= st.end_time() ==> fee == 0)
                &&& final(wallet).owner == old(wallet).owner
                &&& final(wallet).balance == old(wallet).balance + return_amount
                &&& final(self).stakes@ == old(self).stakes@.update(
                    stake_id as int,
                    st.closed(now),
                )
                &&& final(self).escrow_vault.balance == old(self).escrow_vault.balance
                    - st.amount
                &&& final(self).treasury.total_fees == old(self).treasury.total_fees + fee
                &&& final(self).treasury_vault.balance == old(self).treasury_vault.balance + fee
                &&& final(self).treasury.admin == old(self).treasury.admin
                &&& final(self).treasury.protocol_fee == old(self).treasury.protocol_fee
                &&& final(self).treasury.reserve_percentage == old(
                    self,
                ).treasury.reserve_percentage
                &&& final(self).config == old(self).config
                &&& final(self).stake_count == old(self).stake_count
            }),
            final(wallet).balance + final(self).escrow_vault.balance
                + final(self).treasury_vault.balance == old(wallet).balance
                + old(self).escrow_vault.balance + old(self).treasury_vault.balance,
    {
        let n: usize = self.stakes.len();
        if stake_id >= n as u64 {
            return Err(ErrorCode::UnauthorizedAccess);
        }
        let i: usize = stake_id as usize;
        let st: Stake = self.stakes[i];
        if st.owner != wallet.owner {
            return Err(ErrorCode::UnauthorizedAccess);
        }
        if !st.is_active {
            return Err(ErrorCode::StakeNotActive);
        }
        if stake_vault != ESCROW_VAULT_ADDRESS {
            return Err(ErrorCode::UnauthorizedAccess);
        }
        let end_time: i64 = st.start_time + (st.lock_period as i64);
        let fee: u64 = if now < end_time {
            compute_early_fee(st.amount, self.config.early_withdrawal_fee)
        } else {
            0
        };
        let return_amount: u64 = st.amount - fee;
        proof {
            lemma_active_total_lower_bound(self.stakes@, i as int);
            lemma_active_total_update(self.stakes@, i as int, st.closed(now));
        }
        if return_amount > 0 {
            wallet.balance = wallet.balance + return_amount;
        }
        self.escrow_vault.balance = self.escrow_vault.balance - st.amount;
        if fee > 0 {
            self.treasury.total_fees = self.treasury.total_fees + fee;
            self.treasury_vault.balance = self.treasury_vault.balance + fee;
        }
        self.stakes[i] = Stake { is_active: false, last_claim_time: now, ..st };
        Ok(())
    }
}

/// Closure is single-use. Once a close of `stake_id` has been applied — the
/// ledger now holds the closed record in its place — the same record can
/// never satisfy the close transition's preconditions again, and a repeat
/// request by the rightful owner against the right vault fails with
/// `StakeNotActive`.
pub proof fn lemma_close_single_use(
    pre: StakeEngine,
    post: StakeEngine,
    requester: u64,
    stake_id: u64,
    stake_vault: u64,
    now: i64,
)
    requires
        pre.can_close(requester, stake_id, stake_vault),
        post.stakes@ == pre.stakes@.update(stake_id as int, pre.stakes@[stake_id as int].closed(now)),
    ensures
        !post.can_close(requester, stake_id, stake_vault),
        post.close_error(requester, stake_id, stake_vault) == ErrorCode::StakeNotActive,
{
}

/// Sequence numbers are unique. A successful open appends the new record at
/// the index the counter names, and for a well-formed engine that number is
/// the ledger's length: it addresses the new record, collides with no
/// earlier record's sequence number, and leaves every earlier record
/// addressable unchanged. N successive successful opens therefore mint the N
/// distinct sequence numbers len, len + 1, ..., len + N - 1.
pub proof fn lemma_open_mints_fresh_sequence(pre: StakeEngine, st: Stake)
    requires
        pre.well_formed(),
    ensures
        pre.stakes@.push(st)[pre.stake_count.count as int] == st,
        forall|j: int|
            0 <= j < pre.stakes@.len() ==> j != pre.stake_count.count as int
                && pre.stakes@.push(st)[j] == pre.stakes@[j],
{
}

} // verus!
