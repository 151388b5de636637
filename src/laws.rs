use vstd::prelude::*;

use crate::error::{LedgerError, WoofiError};
use crate::identity::Identity;
use crate::ledger::{donate_error, initialize_error, withdraw_error};
use crate::state::{initial_platform, Dog, Donation, Platform, Wallet};

verus! {

/// Initialising the platform is create-once: a call on a free slot that
/// succeeds leaves a record whose admin and treasury are the ones given and
/// whose counters are all zero, and every later call on that slot fails with
/// `AccountInUse`, whatever its arguments.
pub proof fn lemma_initialize_once(
    admin: Identity,
    treasury: Identity,
    program_id: Identity,
    later_treasury: Identity,
    later_program_id: Identity,
)
    requires
        initialize_error(None, treasury@, program_id@) is None,
    ensures
        initial_platform(admin, treasury).admin == admin,
        initial_platform(admin, treasury).treasury == treasury,
        initial_platform(admin, treasury).total_donations == 0,
        initial_platform(admin, treasury).dog_count == 0,
        initial_platform(admin, treasury).donation_count == 0,
        initialize_error(
            Some(initial_platform(admin, treasury)),
            later_treasury@,
            later_program_id@,
        ) == Some(LedgerError::AccountInUse),
{
}

/// A donation succeeds whenever the amount is positive, the treasury is the
/// platform's, the receipt's address is free, the donor covers the amount,
/// and no balance, sum or counter reaches past its integer range.
pub proof fn lemma_donate_succeeds(
    platform: Platform,
    dog: Dog,
    donor: Wallet,
    treasury: Wallet,
    amount: u64,
)
    requires
        amount > 0,
        treasury.key@ == platform.treasury@,
        donor.lamports >= amount,
        treasury.lamports + amount <= u64::MAX,
        dog.total_donations + amount <= u64::MAX,
        platform.total_donations + amount <= u64::MAX,
        platform.donation_count < u32::MAX,
    ensures
        donate_error(platform, dog, None::<Donation>, donor, treasury, amount) is None,
{
}

/// A withdrawal by the admin from the platform's treasury succeeds whenever
/// the amount is positive and covered by the treasury, and a recipient other
/// than the treasury has room for it; an amount above the treasury's balance
/// always fails with `InsufficientFunds`.
pub proof fn lemma_withdraw_outcome(
    platform: Platform,
    treasury: Wallet,
    recipient: Wallet,
    amount: u64,
)
    requires
        treasury.key@ == platform.treasury@,
    ensures
        0 < amount <= treasury.lamports && (recipient.key@ == treasury.key@
            || recipient.lamports + amount <= u64::MAX) ==> withdraw_error(
            platform,
            platform.admin@,
            treasury,
            recipient,
            amount,
        ) is None,
        amount > treasury.lamports ==> withdraw_error(
            platform,
            platform.admin@,
            treasury,
            recipient,
            amount,
        ) == Some(LedgerError::Program(WoofiError::InsufficientFunds)),
{
}

} // verus!
