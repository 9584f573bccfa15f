//! The faucet account and its three state transitions.
//!
//! The faucet is a single on-chain account holding cooldown state, the
//! configured interval, the admin identity, and the address-derivation bump.
//! The host ledger loads the account and the balances, authenticates the
//! caller, and hands everything to one of the three entry points below as
//! plain values; each entry point is a single atomic state transition that
//! either succeeds or leaves every value exactly as it was.

use vstd::prelude::*;
use crate::identity::Identity;

verus! {

/// Cooldown a freshly initialized faucet starts with, in seconds.
pub const DEFAULT_INTERVAL_PERIOD: i64 = 30;

/// Fixed amount released by each successful request: 10 whole native-token
/// units, expressed in the smallest unit (lamports).
pub const WITHDRAWAL_LAMPORTS: u64 = 10_000_000_000;

/// The failures the faucet's own logic reports.
#[derive(Clone, Copy, Debug, PartialEq, Eq, Structural)]
pub enum ErrorCode {
    /// The cooldown interval has not elapsed since the last withdrawal.
    RequestTooSoon,
    /// The caller of an admin-gated operation is not the recorded admin.
    Unauthorized,
}

/// Everything a transition can fail with: the program's own errors plus the
/// host-level failures (account lifecycle, balance) that abort an operation
/// before or instead of the program logic. A failed call never changes state.
#[derive(Clone, Copy, Debug, PartialEq, Eq, Structural)]
pub enum FaucetError {
    /// A failure decided by the faucet's own rules.
    Program(ErrorCode),
    /// The derived account address is already occupied: initialization is
    /// exactly-once.
    AccountAlreadyExists,
    /// The faucet account has not been created yet.
    AccountNotFound,
    /// The faucet's balance cannot cover the fixed withdrawal amount.
    InsufficientBalance,
}

/// The persisted faucet state.
#[derive(Clone, Copy, Debug)]
pub struct Faucet {
    /// Timestamp (seconds) of the most recent successful withdrawal; 0 before
    /// the first one.
    pub last_request_time: i64,
    /// Minimum gap in seconds required between two successful withdrawals.
    pub interval_period: i64,
    /// The identity allowed to change `interval_period`; fixed at creation.
    pub admin: Identity,
    /// Disambiguation byte recorded at creation, used by the host to
    /// re-derive and authenticate the account's address.
    pub bump: u8,
}

impl PartialEq for Faucet {
    fn eq(&self, other: &Faucet) -> (r: bool) {
        self.last_request_time == other.last_request_time
            && self.interval_period == other.interval_period
            && self.admin == other.admin
            && self.bump == other.bump
    }
}

impl vstd::std_specs::cmp::PartialEqSpecImpl for Faucet {
    open spec fn obeys_eq_spec() -> bool {
        true
    }

    open spec fn eq_spec(&self, other: &Faucet) -> bool {
        *self == *other
    }
}

/// The account slot at the faucet's derived address: empty until
/// `initialize_faucet` succeeds, occupied forever after.
#[derive(Clone, Copy, Debug)]
pub enum FaucetAccount {
    Uninitialized,
    Ready(Faucet),
}

impl PartialEq for FaucetAccount {
    fn eq(&self, other: &FaucetAccount) -> (r: bool) {
        match (self, other) {
            (FaucetAccount::Uninitialized, FaucetAccount::Uninitialized) => true,
            (FaucetAccount::Ready(a), FaucetAccount::Ready(b)) => *a == *b,
            _ => false,
        }
    }
}

impl vstd::std_specs::cmp::PartialEqSpecImpl for FaucetAccount {
    open spec fn obeys_eq_spec() -> bool {
        true
    }

    open spec fn eq_spec(&self, other: &FaucetAccount) -> bool {
        *self == *other
    }
}

impl FaucetAccount {
    /// Reads the admin identity recorded in the account, if it exists. After
    /// initialization this value never changes again.
    pub fn admin(&self) -> (r: Option<Identity>)
        ensures
            r == (match *self {
                FaucetAccount::Uninitialized => None::<Identity>,
                FaucetAccount::Ready(faucet) => Some(faucet.admin),
            }),
    {
        match self {
            FaucetAccount::Uninitialized => None,
            FaucetAccount::Ready(faucet) => Some(faucet.admin),
        }
    }
}

/// The state a faucet created by `admin` with derivation byte `bump` starts
/// in: no withdrawal recorded yet and the default cooldown.
pub open spec fn initial_faucet(admin: Identity, bump: u8) -> Faucet {
    Faucet { last_request_time: 0, interval_period: DEFAULT_INTERVAL_PERIOD, admin, bump }
}

/// Whether a withdrawal at time `now` respects the cooldown: at least
/// `interval_period` seconds have passed since the last successful one.
pub open spec fn cooldown_elapsed(faucet: Faucet, now: i64) -> bool {
    now - faucet.last_request_time >= faucet.interval_period
}

/// What `initialize_faucet` does: the new account slot and the result.
pub open spec fn spec_initialize_faucet(account: FaucetAccount, admin: Identity, bump: u8) -> (
    FaucetAccount,
    Result<(), FaucetError>,
) {
    match account {
        FaucetAccount::Uninitialized => (
            FaucetAccount::Ready(initial_faucet(admin, bump)),
            Ok(()),
        ),
        FaucetAccount::Ready(_) => (account, Err(FaucetError::AccountAlreadyExists)),
    }
}

/// What `request_funds` does: the new account slot, the new faucet and
/// recipient balances, and the result.
pub open spec fn spec_request_funds(
    account: FaucetAccount,
    now: i64,
    faucet_lamports: u64,
    user_lamports: u64,
) -> (FaucetAccount, u64, u64, Result<(), FaucetError>) {
    match account {
        FaucetAccount::Uninitialized => (
            account,
            faucet_lamports,
            user_lamports,
            Err(FaucetError::AccountNotFound),
        ),
        FaucetAccount::Ready(faucet) => if !cooldown_elapsed(faucet, now) {
            (
                account,
                faucet_lamports,
                user_lamports,
                Err(FaucetError::Program(ErrorCode::RequestTooSoon)),
            )
        } else if faucet_lamports < WITHDRAWAL_LAMPORTS {
            (account, faucet_lamports, user_lamports, Err(FaucetError::InsufficientBalance))
        } else {
            (
                FaucetAccount::Ready(Faucet { last_request_time: now, ..faucet }),
                (faucet_lamports - WITHDRAWAL_LAMPORTS) as u64,
                (user_lamports + WITHDRAWAL_LAMPORTS) as u64,
                Ok(()),
            )
        },
    }
}

/// What `set_interval_period` does: the new account slot and the result.
pub open spec fn spec_set_interval_period(
    account: FaucetAccount,
    caller: Identity,
    interval: i64,
) -> (FaucetAccount, Result<(), FaucetError>) {
    match account {
        FaucetAccount::Uninitialized => (account, Err(FaucetError::AccountNotFound)),
        FaucetAccount::Ready(faucet) => if caller == faucet.admin {
            (FaucetAccount::Ready(Faucet { interval_period: interval, ..faucet }), Ok(()))
        } else {
            (account, Err(FaucetError::Program(ErrorCode::Unauthorized)))
        },
    }
}

/// Creates the faucet account: exactly once per derived address.
///
/// On an empty slot it records `admin` and `bump`, sets the cooldown to its
/// default and the last withdrawal time to 0, and succeeds. On an occupied
/// slot it fails and changes nothing, whoever calls it and with whatever
/// arguments: initialization is exactly-once.
pub fn initialize_faucet(account: &mut FaucetAccount, admin: Identity, bump: u8) -> (r: Result<
    (),
    FaucetError,
>)
    ensures
        (*final(account), r) == spec_initialize_faucet(*old(account), admin, bump),
        r is Ok <==> *old(account) is Uninitialized,
        r is Ok ==> *final(account) == FaucetAccount::Ready(initial_faucet(admin, bump)),
        r is Err ==> *final(account) == *old(account) && r == Err::<(), FaucetError>(
            FaucetError::AccountAlreadyExists,
        ),
{
    match *account {
        FaucetAccount::Uninitialized => {
            *account = FaucetAccount::Ready(
                Faucet {
                    last_request_time: 0,
                    interval_period: DEFAULT_INTERVAL_PERIOD,
                    admin,
                    bump,
                },
            );
            Ok(())
        },
        FaucetAccount::Ready(_) => Err(FaucetError::AccountAlreadyExists),
    }
}

/// Releases the fixed amount to the recipient, if the cooldown has elapsed.
///
/// `now` is the host clock's current timestamp; `faucet_lamports` and
/// `user_lamports` are the balances of the faucet account and of the
/// recipient named by the caller. On success the last-withdrawal time becomes
/// `now` and exactly `WITHDRAWAL_LAMPORTS` moves from the faucet's balance to
/// the recipient's, as one atomic debit-and-credit. On any failure — account
/// missing, cooldown not elapsed, or a balance too small to cover the amount
/// — nothing changes: no partial transfer, no timestamp update.
pub fn request_funds(
    account: &mut FaucetAccount,
    now: i64,
    faucet_lamports: &mut u64,
    user_lamports: &mut u64,
) -> (r: Result<(), FaucetError>)
    requires
        *old(user_lamports) + WITHDRAWAL_LAMPORTS <= u64::MAX,
    ensures
        (*final(account), *final(faucet_lamports), *final(user_lamports), r)
            == spec_request_funds(*old(account), now, *old(faucet_lamports), *old(user_lamports)),
        r is Ok <==> (*old(account) matches FaucetAccount::Ready(faucet) && cooldown_elapsed(
            faucet,
            now,
        ) && *old(faucet_lamports) >= WITHDRAWAL_LAMPORTS),
        r is Err ==> *final(account) == *old(account) && *final(faucet_lamports) == *old(
            faucet_lamports,
        ) && *final(user_lamports) == *old(user_lamports),
{
    match *account {
        FaucetAccount::Uninitialized => Err(FaucetError::AccountNotFound),
        FaucetAccount::Ready(faucet) => {
            if (now as i128) - (faucet.last_request_time as i128) < (
            faucet.interval_period as i128) {
                Err(FaucetError::Program(ErrorCode::RequestTooSoon))
            } else if *faucet_lamports < WITHDRAWAL_LAMPORTS {
                Err(FaucetError::InsufficientBalance)
            } else {
                *account = FaucetAccount::Ready(Faucet { last_request_time: now, ..faucet });
                *faucet_lamports = *faucet_lamports - WITHDRAWAL_LAMPORTS;
                *user_lamports = *user_lamports + WITHDRAWAL_LAMPORTS;
                Ok(())
            }
        },
    }
}

/// Changes the cooldown interval: admin only.
///
/// `caller` is the identity the host has already signature-verified. If it
/// equals the recorded admin, the interval becomes `interval` — any value,
/// including zero or a negative one, is accepted, exactly as stored. Any
/// other caller fails with `Unauthorized` and changes nothing.
pub fn set_interval_period(account: &mut FaucetAccount, caller: Identity, interval: i64) -> (r:
    Result<(), FaucetError>)
    ensures
        (*final(account), r) == spec_set_interval_period(*old(account), caller, interval),
        r is Ok <==> (*old(account) matches FaucetAccount::Ready(faucet) && caller
            == faucet.admin),
        r is Err ==> *final(account) == *old(account),
{
    match *account {
        FaucetAccount::Uninitialized => Err(FaucetError::AccountNotFound),
        FaucetAccount::Ready(faucet) => {
            if caller == faucet.admin {
                *account = FaucetAccount::Ready(Faucet { interval_period: interval, ..faucet });
                Ok(())
            } else {
                Err(FaucetError::Program(ErrorCode::Unauthorized))
            }
        },
    }
}

} // verus!
