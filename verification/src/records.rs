//! The record types of the provisioning core.
//!
//! `User` is the principal: the root entity, created on account
//! provisioning, read on login and on every authenticated request.  Vehicle
//! and bank-detail records are owned by exactly one principal and are
//! created only as part of provisioning.  `AccountDetails` is the read-only
//! aggregate joining the three; it is assembled on demand, never stored.

use vstd::prelude::*;

verus! {

/// A new identity to provision: display name, unique email, and the raw
/// credential (protected before it ever reaches a store).
#[derive(Debug)]
pub struct NewUser {
    pub user_name: String,
    pub email: String,
    pub password: String,
}

/// A new vehicle record.
#[derive(Debug)]
pub struct NewCar {
    pub car_model: String,
    pub car_plate: String,
}

/// New bank details.
#[derive(Debug)]
pub struct NewBankDetails {
    pub account_holder: String,
    pub bank_country: String,
    pub iban: String,
}

/// The composite account-creation request: identity, vehicle and bank
/// details, provisioned as one logical unit.
#[derive(Debug)]
pub struct CreateAccount {
    pub user: NewUser,
    pub car_info: NewCar,
    pub bank_details: NewBankDetails,
}

/// A submitted credential pair.
#[derive(Debug)]
pub struct LoginUser {
    pub email: String,
    pub password_hash: String,
}

/// A stored principal.  `password_hash` holds the protected credential,
/// never the raw one; it is compared on login and never echoed in
/// responses.
#[derive(Debug)]
pub struct User {
    pub id: u64,
    pub user_name: String,
    pub email: String,
    pub password_hash: String,
}

impl User {
    /// An exact copy.
    pub fn duplicate(&self) -> (r: User)
        ensures
            r == *self,
    {
        User {
            id: self.id,
            user_name: self.user_name.clone(),
            email: self.email.clone(),
            password_hash: self.password_hash.clone(),
        }
    }
}

/// A vehicle record as rendered in the account aggregate.  Timestamps are
/// seconds since the epoch.
#[derive(Debug)]
pub struct CarInfo {
    pub id: u64,
    pub model: String,
    pub plate: String,
    pub created_at: i64,
    pub updated_at: i64,
}

/// Bank details as rendered in the account aggregate.  Timestamps are
/// seconds since the epoch.
#[derive(Debug)]
pub struct BankDetailsInfo {
    pub id: u64,
    pub country: String,
    pub iban: String,
    pub account_holder: String,
    pub created_at: i64,
    pub updated_at: i64,
}

/// The read-only composite view of a principal with its vehicle and
/// bank-detail records.
#[derive(Debug)]
pub struct AccountDetails {
    pub user: User,
    pub cars_info: Vec<CarInfo>,
    pub bank_details: BankDetailsInfo,
}

} // verus!
