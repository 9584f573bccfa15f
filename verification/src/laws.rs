//! The faucet's cross-call guarantees, proved over the transition model.
//!
//! The entry points in `crate::faucet` each carry their own contract; the
//! proof functions here state what holds across several calls: the cooldown
//! gap between two successful withdrawals, exactly-once initialization, and
//! the constancy of the admin identity under every interleaving of
//! operations.

use vstd::prelude::*;
use crate::identity::Identity;
use crate::faucet::{
    Faucet, FaucetAccount, FaucetError, spec_initialize_faucet, spec_request_funds,
    spec_set_interval_period,
};

verus! {

/// One invocation of an entry point, with the values the host would hand it:
/// the clock reading and the two balances for a withdrawal, the
/// signature-verified caller and the new interval for a reconfiguration, the
/// payer identity and derivation byte for an initialization attempt.
#[derive(Clone, Copy, Debug)]
pub enum FaucetOp {
    InitializeFaucet { admin: Identity, bump: u8 },
    RequestFunds { now: i64, faucet_lamports: u64, user_lamports: u64 },
    SetIntervalPeriod { caller: Identity, interval: i64 },
}

/// The account slot after one operation has run against it.
pub open spec fn account_after(account: FaucetAccount, op: FaucetOp) -> FaucetAccount {
    match op {
        FaucetOp::InitializeFaucet { admin, bump } => spec_initialize_faucet(
            account,
            admin,
            bump,
        ).0,
        FaucetOp::RequestFunds { now, faucet_lamports, user_lamports } => spec_request_funds(
            account,
            now,
            faucet_lamports,
            user_lamports,
        ).0,
        FaucetOp::SetIntervalPeriod { caller, interval } => spec_set_interval_period(
            account,
            caller,
            interval,
        ).0,
    }
}

/// The account slot after a whole sequence of operations, first to last.
pub open spec fn account_after_all(account: FaucetAccount, ops: Seq<FaucetOp>) -> FaucetAccount
    decreases ops.len(),
{
    if ops.len() == 0 {
        account
    } else {
        account_after_all(account_after(account, ops[0]), ops.drop_first())
    }
}

/// Cooldown enforcement: for any two successful `request_funds` calls on the
/// same faucet, the second call's timestamp is at least the interval in force
/// away from the withdrawal time the first call recorded.
pub proof fn lemma_cooldown_enforcement(
    account: FaucetAccount,
    t1: i64,
    faucet_lamports1: u64,
    user_lamports1: u64,
    t2: i64,
    faucet_lamports2: u64,
    user_lamports2: u64,
)
    requires
        spec_request_funds(account, t1, faucet_lamports1, user_lamports1).3 is Ok,
        spec_request_funds(
            spec_request_funds(account, t1, faucet_lamports1, user_lamports1).0,
            t2,
            faucet_lamports2,
            user_lamports2,
        ).3 is Ok,
    ensures
        spec_request_funds(account, t1, faucet_lamports1, user_lamports1).0 matches
            FaucetAccount::Ready(faucet1) && faucet1.last_request_time == t1 && t2 - t1
            >= faucet1.interval_period,
{
}

/// Exactly-once initialization: the first `initialize_faucet` against the
/// empty slot succeeds; the second fails with `AccountAlreadyExists` —
/// whoever retries, with whatever arguments — and leaves the state the first
/// call created untouched.
pub proof fn lemma_exactly_once_initialization(
    admin1: Identity,
    bump1: u8,
    admin2: Identity,
    bump2: u8,
)
    ensures
        ({
            let (account1, r1) = spec_initialize_faucet(
                FaucetAccount::Uninitialized,
                admin1,
                bump1,
            );
            let (account2, r2) = spec_initialize_faucet(account1, admin2, bump2);
            r1 is Ok && r2 == Err::<(), FaucetError>(FaucetError::AccountAlreadyExists)
                && account2 == account1
        }),
{
}

/// Constancy of the admin: however many operations of whatever kind run
/// against an initialized faucet, the account stays initialized and the
/// recorded admin identity and derivation byte never change.
pub proof fn lemma_admin_constant(faucet: Faucet, ops: Seq<FaucetOp>)
    ensures
        account_after_all(FaucetAccount::Ready(faucet), ops) matches FaucetAccount::Ready(faucet2)
            && faucet2.admin == faucet.admin && faucet2.bump == faucet.bump,
    decreases ops.len(),
{
    if ops.len() > 0 {
        let step = account_after(FaucetAccount::Ready(faucet), ops[0]);
        match step {
            FaucetAccount::Ready(faucet1) => {
                lemma_admin_constant(faucet1, ops.drop_first());
            },
            FaucetAccount::Uninitialized => {
                assert(false);
            },
        }
    }
}

} // verus!
