use vstd::prelude::*;

use crate::identity::Identity;

verus! {

/// The singleton configuration and statistics record.
#[derive(Clone, Copy, Debug)]
pub struct Platform {
    pub admin: Identity,
    pub treasury: Identity,
    pub total_donations: u64,
    pub dog_count: u32,
    pub donation_count: u32,
}

/// A rescue dog, stored at an address derived from its name.
#[derive(Debug)]
pub struct Dog {
    pub name: String,
    pub age: u8,
    pub image_url: String,
    pub story: String,
    pub needs_food: bool,
    pub needs_toys: bool,
    pub needs_medical: bool,
    pub needs_shelter: bool,
    pub needs_other: String,
    pub total_donations: u64,
    pub admin: Identity,
    pub active: bool,
}

/// The receipt of one donation, stored at an address derived from the donor
/// and the timestamp. It is never changed once written.
#[derive(Debug)]
pub struct Donation {
    pub donor: Identity,
    pub dog_id: Identity,
    pub amount: u64,
    pub timestamp: i64,
    pub message: String,
}

/// An account's identity together with its native balance.
#[derive(Clone, Copy, Debug)]
pub struct Wallet {
    pub key: Identity,
    pub lamports: u64,
}

/// The record a successful platform initialisation writes: the given admin
/// and treasury, and every counter at zero.
pub open spec fn initial_platform(admin: Identity, treasury: Identity) -> Platform {
    Platform { admin, treasury, total_donations: 0, dog_count: 0, donation_count: 0 }
}

} // verus!
