use vstd::prelude::*;

use crate::error::{LedgerError, WoofiError};
use crate::identity::{system_program_address, system_program_id, zero_identity, Identity};
use crate::state::{initial_platform, Dog, Donation, Platform, Wallet};
use crate::text::{
    dog_text_error, is_blank, new_dog_text_error, trim_of, validate_dog_text, validate_new_dog_text,
};

verus! {

/// The result an operation returns when its first problem is `e`.
pub open spec fn outcome(e: Option<LedgerError>) -> Result<(), LedgerError> {
    match e {
        Some(err) => Err(err),
        None => Ok(()),
    }
}

/// An identity that cannot serve as the treasury: the system program, the
/// ledger's own program, or the all-zero identity.
pub open spec fn is_reserved_treasury(treasury: Seq<u8>, program_id: Seq<u8>) -> bool {
    treasury == system_program_address() || treasury == program_id || treasury == zero_identity()
}

/// The first problem with initialising the platform: the slot must be free
/// and the treasury must not be reserved.
pub open spec fn initialize_error(
    slot: Option<Platform>,
    treasury: Seq<u8>,
    program_id: Seq<u8>,
) -> Option<LedgerError> {
    if slot is Some {
        Some(LedgerError::AccountInUse)
    } else if is_reserved_treasury(treasury, program_id) {
        Some(LedgerError::Program(WoofiError::Unauthorized))
    } else {
        None
    }
}

/// Creates the platform record in `slot`, with `admin` as its operator and
/// `treasury` as the account that receives donations. `program_id` is the
/// identity of the program the ledger runs as.
pub fn initialize_platform(
    slot: &mut Option<Platform>,
    admin: Identity,
    treasury: Identity,
    program_id: Identity,
) -> (r: Result<(), LedgerError>)
    ensures
        r == outcome(initialize_error(*old(slot), treasury@, program_id@)),
        r is Ok ==> *final(slot) == Some(initial_platform(admin, treasury)),
        r is Err ==> *final(slot) == *old(slot),
{
    if slot.is_some() {
        return Err(LedgerError::AccountInUse);
    }
    let system = system_program_id();
    if treasury.same_as(&system) || treasury.same_as(&program_id) || treasury.same_as(
        &Identity::zero(),
    ) {
        return Err(LedgerError::Program(WoofiError::Unauthorized));
    }
    *slot = Some(
        Platform { admin, treasury, total_donations: 0, dog_count: 0, donation_count: 0 },
    );
    Ok(())
}

/// The first problem with adding a dog: the signer must be the platform's
/// admin, the dog's slot must be free, its texts must be non-empty once
/// trimmed, and the dog count must have room for one more.
pub open spec fn add_dog_error(
    platform: Platform,
    slot: Option<Dog>,
    signer: Seq<u8>,
    name: Seq<char>,
    story: Seq<char>,
    image_url: Seq<char>,
) -> Option<LedgerError> {
    if signer != platform.admin@ {
        Some(LedgerError::Program(WoofiError::Unauthorized))
    } else if slot is Some {
        Some(LedgerError::AccountInUse)
    } else if new_dog_text_error(trim_of(name), trim_of(story), trim_of(image_url)) is Some {
        Some(
            LedgerError::Program(
                new_dog_text_error(trim_of(name), trim_of(story), trim_of(image_url))->0,
            ),
        )
    } else if platform.dog_count == u32::MAX {
        Some(LedgerError::Overflow)
    } else {
        None
    }
}

/// The dog record that a successful `add_dog` writes: the given fields, no
/// donations yet, `admin` as its keeper, and active.
pub open spec fn new_dog(
    name: String,
    age: u8,
    image_url: String,
    story: String,
    needs_food: bool,
    needs_toys: bool,
    needs_medical: bool,
    needs_shelter: bool,
    needs_other: String,
    admin: Identity,
) -> Dog {
    Dog {
        name,
        age,
        image_url,
        story,
        needs_food,
        needs_toys,
        needs_medical,
        needs_shelter,
        needs_other,
        total_donations: 0,
        admin,
        active: true,
    }
}

/// Adds a dog in `slot`, the address derived from its name, on behalf of
/// `signer`, and counts it on the platform.
pub fn add_dog(
    platform: &mut Platform,
    slot: &mut Option<Dog>,
    signer: Identity,
    name: String,
    age: u8,
    image_url: String,
    story: String,
    needs_food: bool,
    needs_toys: bool,
    needs_medical: bool,
    needs_shelter: bool,
    needs_other: String,
) -> (r: Result<(), LedgerError>)
    ensures
        r == outcome(add_dog_error(*old(platform), *old(slot), signer@, name@, story@, image_url@)),
        r is Ok ==> *final(slot) == Some(
            new_dog(
                name,
                age,
                image_url,
                story,
                needs_food,
                needs_toys,
                needs_medical,
                needs_shelter,
                needs_other,
                signer,
            ),
        ),
        r is Ok ==> final(platform).dog_count == old(platform).dog_count + 1,
        r is Ok ==> final(platform).admin == old(platform).admin,
        r is Ok ==> final(platform).treasury == old(platform).treasury,
        r is Ok ==> final(platform).total_donations == old(platform).total_donations,
        r is Ok ==> final(platform).donation_count == old(platform).donation_count,
        r is Err ==> *final(platform) == *old(platform) && *final(slot) == *old(slot),
        name@.len() == 0 ==> trim_of(name@).len() == 0,
        story@.len() == 0 ==> trim_of(story@).len() == 0,
        image_url@.len() == 0 ==> trim_of(image_url@).len() == 0,
        signer@ == old(platform).admin@ && *old(slot) is None && (is_blank(name@) || is_blank(
            story@,
        ) || is_blank(image_url@)) ==> r == Err::<(), LedgerError>(
            LedgerError::Program(
                if is_blank(name@) {
                    WoofiError::InvalidDogName
                } else if is_blank(story@) {
                    WoofiError::InvalidDogStory
                } else {
                    WoofiError::InvalidImageUrl
                },
            ),
        ),
{
    let text_check = validate_new_dog_text(name.as_str(), story.as_str(), image_url.as_str());
    if !signer.same_as(&platform.admin) {
        return Err(LedgerError::Program(WoofiError::Unauthorized));
    }
    if slot.is_some() {
        return Err(LedgerError::AccountInUse);
    }
    match text_check {
        Err(e) => {
            return Err(LedgerError::Program(e));
        },
        Ok(()) => {},
    }
    let dog_count = match platform.dog_count.checked_add(1) {
        Some(n) => n,
        None => {
            return Err(LedgerError::Overflow);
        },
    };
    *slot = Some(
        Dog {
            name,
            age,
            image_url,
            story,
            needs_food,
            needs_toys,
            needs_medical,
            needs_shelter,
            needs_other,
            total_donations: 0,
            admin: signer,
            active: true,
        },
    );
    platform.dog_count = dog_count;
    Ok(())
}

/// The first problem with updating a dog: the signer must be the dog's own
/// admin, and its story and image URL must be non-empty once trimmed.
pub open spec fn update_dog_error(
    dog: Dog,
    signer: Seq<u8>,
    story: Seq<char>,
    image_url: Seq<char>,
) -> Option<LedgerError> {
    if signer != dog.admin@ {
        Some(LedgerError::Program(WoofiError::Unauthorized))
    } else if dog_text_error(trim_of(story), trim_of(image_url)) is Some {
        Some(LedgerError::Program(dog_text_error(trim_of(story), trim_of(image_url))->0))
    } else {
        None
    }
}

/// Overwrites the mutable fields of `dog` on behalf of `signer`; its name,
/// age, donation total and admin stay as they are.
pub fn update_dog(
    dog: &mut Dog,
    signer: Identity,
    image_url: String,
    story: String,
    needs_food: bool,
    needs_toys: bool,
    needs_medical: bool,
    needs_shelter: bool,
    needs_other: String,
    active: bool,
) -> (r: Result<(), LedgerError>)
    ensures
        r == outcome(update_dog_error(*old(dog), signer@, story@, image_url@)),
        r is Ok ==> *final(dog) == (Dog {
            name: old(dog).name,
            age: old(dog).age,
            image_url,
            story,
            needs_food,
            needs_toys,
            needs_medical,
            needs_shelter,
            needs_other,
            total_donations: old(dog).total_donations,
            admin: old(dog).admin,
            active,
        }),
        r is Err ==> *final(dog) == *old(dog),
        story@.len() == 0 ==> trim_of(story@).len() == 0,
        image_url@.len() == 0 ==> trim_of(image_url@).len() == 0,
        signer@ != old(dog).admin@ ==> r == Err::<(), LedgerError>(
            LedgerError::Program(WoofiError::Unauthorized),
        ) && *final(dog) == *old(dog),
{
    let text_check = validate_dog_text(story.as_str(), image_url.as_str());
    if !signer.same_as(&dog.admin) {
        return Err(LedgerError::Program(WoofiError::Unauthorized));
    }
    match text_check {
        Err(e) => {
            return Err(LedgerError::Program(e));
        },
        Ok(()) => {},
    }
    dog.image_url = image_url;
    dog.story = story;
    dog.needs_food = needs_food;
    dog.needs_toys = needs_toys;
    dog.needs_medical = needs_medical;
    dog.needs_shelter = needs_shelter;
    dog.needs_other = needs_other;
    dog.active = active;
    Ok(())
}

/// The first problem with a donation of `amount`: it must be positive, the
/// treasury must be the platform's, the receipt's slot must be free, the
/// donor must cover the amount, and no balance, sum or counter may overflow.
pub open spec fn donate_error(
    platform: Platform,
    dog: Dog,
    slot: Option<Donation>,
    donor: Wallet,
    treasury: Wallet,
    amount: u64,
) -> Option<LedgerError> {
    if amount == 0 {
        Some(LedgerError::Program(WoofiError::InvalidAmount))
    } else if treasury.key@ != platform.treasury@ {
        Some(LedgerError::ConstraintAddress)
    } else if slot is Some {
        Some(LedgerError::AccountInUse)
    } else if donor.lamports < amount {
        Some(LedgerError::InsufficientLamports)
    } else if treasury.lamports + amount > u64::MAX || dog.total_donations + amount > u64::MAX
        || platform.total_donations + amount > u64::MAX || platform.donation_count == u32::MAX {
        Some(LedgerError::Overflow)
    } else {
        None
    }
}

/// Donates `amount` from `donor` to the platform's `treasury` for `dog`,
/// whose address is `dog_id`, and records a receipt in `slot`, the address
/// derived from the donor and `timestamp`.
pub fn donate(
    platform: &mut Platform,
    dog: &mut Dog,
    dog_id: Identity,
    slot: &mut Option<Donation>,
    donor: &mut Wallet,
    treasury: &mut Wallet,
    amount: u64,
    message: String,
    timestamp: i64,
) -> (r: Result<(), LedgerError>)
    ensures
        r == outcome(
            donate_error(*old(platform), *old(dog), *old(slot), *old(donor), *old(treasury), amount),
        ),
        r is Ok ==> *final(slot) == Some(
            Donation { donor: old(donor).key, dog_id, amount, timestamp, message },
        ),
        r is Ok ==> final(dog).total_donations == old(dog).total_donations + amount,
        r is Ok ==> *final(dog) == (Dog {
            total_donations: final(dog).total_donations,
            ..*old(dog)
        }),
        r is Ok ==> final(platform).total_donations == old(platform).total_donations + amount,
        r is Ok ==> final(platform).donation_count == old(platform).donation_count + 1,
        r is Ok ==> final(platform).admin == old(platform).admin,
        r is Ok ==> final(platform).treasury == old(platform).treasury,
        r is Ok ==> final(platform).dog_count == old(platform).dog_count,
        r is Ok ==> final(donor).key == old(donor).key,
        r is Ok ==> final(donor).lamports == old(donor).lamports - amount,
        r is Ok ==> final(treasury).key == old(treasury).key,
        r is Ok ==> final(treasury).lamports == old(treasury).lamports + amount,
        r is Err ==> *final(platform) == *old(platform) && *final(dog) == *old(dog) && *final(slot)
            == *old(slot) && *final(donor) == *old(donor) && *final(treasury) == *old(treasury),
        amount == 0 ==> r == Err::<(), LedgerError>(
            LedgerError::Program(WoofiError::InvalidAmount),
        ),
{
    if amount == 0 {
        return Err(LedgerError::Program(WoofiError::InvalidAmount));
    }
    if !treasury.key.same_as(&platform.treasury) {
        return Err(LedgerError::ConstraintAddress);
    }
    if slot.is_some() {
        return Err(LedgerError::AccountInUse);
    }
    if donor.lamports < amount {
        return Err(LedgerError::InsufficientLamports);
    }
    let treasury_lamports = match treasury.lamports.checked_add(amount) {
        Some(n) => n,
        None => {
            return Err(LedgerError::Overflow);
        },
    };
    let dog_total = match dog.total_donations.checked_add(amount) {
        Some(n) => n,
        None => {
            return Err(LedgerError::Overflow);
        },
    };
    let platform_total = match platform.total_donations.checked_add(amount) {
        Some(n) => n,
        None => {
            return Err(LedgerError::Overflow);
        },
    };
    let donation_count = match platform.donation_count.checked_add(1) {
        Some(n) => n,
        None => {
            return Err(LedgerError::Overflow);
        },
    };
    donor.lamports = donor.lamports - amount;
    treasury.lamports = treasury_lamports;
    *slot = Some(Donation { donor: donor.key, dog_id, amount, timestamp, message });
    dog.total_donations = dog_total;
    platform.total_donations = platform_total;
    platform.donation_count = donation_count;
    Ok(())
}

/// The first problem with withdrawing `amount`: the signer must be the
/// platform's admin, the treasury must be the platform's, the amount must be
/// positive and covered by the treasury, and the balance of a recipient other
/// than the treasury must not overflow.
pub open spec fn withdraw_error(
    platform: Platform,
    signer: Seq<u8>,
    treasury: Wallet,
    recipient: Wallet,
    amount: u64,
) -> Option<LedgerError> {
    if signer != platform.admin@ {
        Some(LedgerError::Program(WoofiError::Unauthorized))
    } else if treasury.key@ != platform.treasury@ {
        Some(LedgerError::Program(WoofiError::Unauthorized))
    } else if amount == 0 {
        Some(LedgerError::Program(WoofiError::InvalidAmount))
    } else if treasury.lamports < amount {
        Some(LedgerError::Program(WoofiError::InsufficientFunds))
    } else if recipient.key@ != treasury.key@ && recipient.lamports + amount > u64::MAX {
        Some(LedgerError::Overflow)
    } else {
        None
    }
}

/// Moves `amount` from the platform's `treasury` to `recipient` on behalf of
/// `signer`, as one step: both balances change or neither does. When the
/// recipient is the treasury itself, its balance stays as it is.
pub fn withdraw_funds(
    platform: &Platform,
    signer: Identity,
    treasury: &mut Wallet,
    recipient: &mut Wallet,
    amount: u64,
) -> (r: Result<(), LedgerError>)
    ensures
        r == outcome(withdraw_error(*platform, signer@, *old(treasury), *old(recipient), amount)),
        r is Ok && old(recipient).key@ != old(treasury).key@ ==> final(treasury).lamports == old(
            treasury,
        ).lamports - amount,
        r is Ok && old(recipient).key@ != old(treasury).key@ ==> final(recipient).lamports == old(
            recipient,
        ).lamports + amount,
        r is Ok && old(recipient).key@ == old(treasury).key@ ==> *final(treasury) == *old(treasury)
            && *final(recipient) == *old(recipient),
        final(treasury).key == old(treasury).key,
        final(recipient).key == old(recipient).key,
        r is Err ==> *final(treasury) == *old(treasury) && *final(recipient) == *old(recipient),
        signer@ == platform.admin@ && old(treasury).key@ == platform.treasury@ && amount
            > old(treasury).lamports ==> r == Err::<(), LedgerError>(
            LedgerError::Program(WoofiError::InsufficientFunds),
        ),
{
    if !signer.same_as(&platform.admin) {
        return Err(LedgerError::Program(WoofiError::Unauthorized));
    }
    if !treasury.key.same_as(&platform.treasury) {
        return Err(LedgerError::Program(WoofiError::Unauthorized));
    }
    if amount == 0 {
        return Err(LedgerError::Program(WoofiError::InvalidAmount));
    }
    if treasury.lamports < amount {
        return Err(LedgerError::Program(WoofiError::InsufficientFunds));
    }
    if recipient.key.same_as(&treasury.key) {
        return Ok(());
    }
    let recipient_lamports = match recipient.lamports.checked_add(amount) {
        Some(n) => n,
        None => {
            return Err(LedgerError::Overflow);
        },
    };
    treasury.lamports = treasury.lamports - amount;
    recipient.lamports = recipient_lamports;
    Ok(())
}

} // verus!
