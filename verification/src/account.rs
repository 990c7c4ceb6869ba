//! The account provisioner.
//!
//! `create_account` creates a composite account — principal, vehicle
//! record, bank details — as one logical unit built from independent
//! writes.  The principal insert comes first and aborts the whole
//! operation on a duplicate identity; only once its identifier exists are
//! the two dependent records written, and both writes run to completion
//! even if the other has already failed.  When either dependent write
//! fails the call reports `PartialProvisioning`, naming the failed record;
//! the principal row already committed is *not* rolled back — a documented
//! consistency gap of this design, stated explicitly in the contract.
//!
//! `get_account_details` is the read side: the joined aggregate of the
//! principal, its vehicles and its bank details.

use vstd::prelude::*;

use crate::encrypt::protect_field;
use crate::encrypt::protects;
use crate::errors::Error;
use crate::errors::WhichRecord;
use crate::records::AccountDetails;
use crate::records::CreateAccount;
use crate::records::NewUser;
use crate::records::User;
use crate::server::AppState;
use crate::store::cars_for;
use crate::store::bank_info_of;
use crate::store::contains_email;
use crate::store::contains_user_id;
use crate::store::find_by_id;
use crate::store::get_account_bank_details;
use crate::store::get_account_cars_info;
use crate::store::has_bank_details;
use crate::store::insert_bank_details_in_table;
use crate::store::insert_car_in_table;
use crate::store::insert_user_in_table;

verus! {

/// The write outcomes that the two peer record stores report for the
/// dependent inserts of one provisioning call.  The in-memory tables
/// themselves do not fail; a flag set here stands for the collaborator
/// refusing the corresponding write.
#[derive(Clone, Copy, Debug, PartialEq, Eq, Structural)]
pub struct StoreFaults {
    pub car_fails: bool,
    pub bank_fails: bool,
}

impl StoreFaults {
    /// Both collaborators accept their writes.
    pub fn none() -> (r: StoreFaults)
        ensures
            !r.car_fails,
            !r.bank_fails,
    {
        StoreFaults { car_fails: false, bank_fails: false }
    }
}

/// Creates a composite account.  The credential is protected by the field
/// cipher before it reaches the identity store.  Fails with
/// `DuplicateIdentity` — and then changes nothing at all — when the email
/// is taken.  After the principal is committed, the vehicle and
/// bank-detail writes both run to completion; if either is refused the
/// call fails with `PartialProvisioning` naming the first failed record
/// (bank details are reported first), while the principal row remains:
/// the documented atomicity gap.  On full success the new principal
/// identifier is returned.
pub fn create_account(
    state: &mut AppState,
    new_account: &CreateAccount,
    now: i64,
    faults: StoreFaults,
) -> (r: Result<u64, Error>)
    requires
        old(state).wf(),
    ensures
        final(state).wf(),
        final(state).sessions == old(state).sessions,
        final(state).mode == old(state).mode,
        // a duplicate identity aborts the whole operation before any write
        // (the field cipher runs first, so only its refusals may precede it)
        contains_email(old(state).users.users@, new_account.user.email@) ==> r == Err::<u64, Error>(
            Error::DuplicateIdentity,
        ) || r == Err::<u64, Error>(Error::ValidationFailure) || r == Err::<u64, Error>(
            Error::CryptoFault,
        ),
        r == Err::<u64, Error>(Error::DuplicateIdentity) ==> *final(state) == *old(state)
            && contains_email(old(state).users.users@, new_account.user.email@),
        // refusals of the cipher leave every store untouched
        r == Err::<u64, Error>(Error::ValidationFailure) || r == Err::<u64, Error>(
            Error::CryptoFault,
        ) ==> *final(state) == *old(state),
        // the possible outcomes
        r is Err ==> r == Err::<u64, Error>(Error::DuplicateIdentity) || r == Err::<u64, Error>(
            Error::ValidationFailure,
        ) || r == Err::<u64, Error>(Error::CryptoFault) || r == Err::<u64, Error>(
            Error::StorageFailure,
        ) || r == Err::<u64, Error>(Error::PartialProvisioning(WhichRecord::BankDetailRecord))
            || r == Err::<u64, Error>(Error::PartialProvisioning(WhichRecord::VehicleRecord)),
        // an injected fault never lets the call succeed
        faults.bank_fails || faults.car_fails ==> r is Err,
        // a principal-insert storage failure (exhausted identifiers)
        // changes nothing at all
        r == Err::<u64, Error>(Error::StorageFailure) ==> *final(state) == *old(state),
        // an injected bank-collaborator fault pins the reported outcome —
        // exactly, once the cipher cannot refuse
        !contains_email(old(state).users.users@, new_account.user.email@) && faults.bank_fails
            && old(state).users.next_id < u64::MAX ==> {
            &&& r == Err::<u64, Error>(Error::PartialProvisioning(WhichRecord::BankDetailRecord))
                || r == Err::<u64, Error>(Error::ValidationFailure) || r == Err::<u64, Error>(
                Error::CryptoFault,
            )
            &&& old(state).mode is Disabled ==> r == Err::<u64, Error>(
                Error::PartialProvisioning(WhichRecord::BankDetailRecord),
            )
        },
        // likewise an injected vehicle fault while the bank write is accepted
        !contains_email(old(state).users.users@, new_account.user.email@) && faults.car_fails
            && !faults.bank_fails && old(state).users.next_id < u64::MAX && old(
            state,
        ).banks.next_id < u64::MAX ==> {
            &&& r == Err::<u64, Error>(Error::PartialProvisioning(WhichRecord::VehicleRecord))
                || r == Err::<u64, Error>(Error::ValidationFailure) || r == Err::<u64, Error>(
                Error::CryptoFault,
            )
            &&& old(state).mode is Disabled ==> r == Err::<u64, Error>(
                Error::PartialProvisioning(WhichRecord::VehicleRecord),
            )
        },
        // the atomicity gap: after a partial failure the principal stays
        // committed and findable by email, while the failed record is absent
        r == Err::<u64, Error>(Error::PartialProvisioning(WhichRecord::BankDetailRecord)) ==> {
            &&& contains_email(final(state).users.users@, new_account.user.email@)
            &&& final(state).banks == old(state).banks
            // no early abort: the vehicle write still ran to completion
            &&& !faults.car_fails && old(state).cars.next_id < u64::MAX
                ==> final(state).cars.rows@.len() == old(state).cars.rows@.len() + 1
        },
        r == Err::<u64, Error>(Error::PartialProvisioning(WhichRecord::VehicleRecord)) ==> {
            &&& contains_email(final(state).users.users@, new_account.user.email@)
            &&& final(state).cars == old(state).cars
            &&& final(state).banks.rows@.len() == old(state).banks.rows@.len() + 1
        },
        // when nothing stands in the way, the call is owed success (with
        // encryption enabled, only a cipher refusal may still intervene)
        !contains_email(old(state).users.users@, new_account.user.email@) && !faults.car_fails
            && !faults.bank_fails && old(state).users.next_id < u64::MAX && old(
            state,
        ).cars.next_id < u64::MAX && old(state).banks.next_id < u64::MAX ==> {
            &&& r is Ok || r == Err::<u64, Error>(Error::ValidationFailure) || r == Err::<
                u64,
                Error,
            >(Error::CryptoFault)
            &&& old(state).mode is Disabled ==> r is Ok
        },
        // full success pins every record down
        r matches Ok(id) ==> {
            &&& !faults.car_fails && !faults.bank_fails
            &&& !contains_email(old(state).users.users@, new_account.user.email@)
            &&& id == old(state).users.next_id
            &&& final(state).users.users@ == old(state).users.users@.push(
                final(state).users.users@.last(),
            )
            &&& final(state).users.users@.last().id == id
            &&& final(state).users.users@.last().user_name@ == new_account.user.user_name@
            &&& final(state).users.users@.last().email@ == new_account.user.email@
            &&& protects(
                old(state).mode,
                final(state).users.users@.last().password_hash@,
                new_account.user.password@,
            )
            &&& final(state).cars.rows@ == old(state).cars.rows@.push(
                final(state).cars.rows@.last(),
            )
            &&& final(state).cars.rows@.last().user_id == id
            &&& final(state).cars.rows@.last().model@ == new_account.car_info.car_model@
            &&& final(state).cars.rows@.last().plate@ == new_account.car_info.car_plate@
            &&& final(state).banks.rows@ == old(state).banks.rows@.push(
                final(state).banks.rows@.last(),
            )
            &&& final(state).banks.rows@.last().user_id == id
            &&& final(state).banks.rows@.last().iban@ == new_account.bank_details.iban@
            &&& final(state).banks.rows@.last().country@ == new_account.bank_details.bank_country@
            &&& final(state).banks.rows@.last().account_holder@
                == new_account.bank_details.account_holder@
        },
{
    let protected = match protect_field(&state.mode, new_account.user.password.as_str()) {
        Ok(protected) => protected,
        Err(e) => {
            return Err(e);
        },
    };
    let protected_user = NewUser {
        user_name: new_account.user.user_name.clone(),
        email: new_account.user.email.clone(),
        password: protected,
    };
    let user_id = match insert_user_in_table(&mut state.users, &protected_user) {
        Ok(user_id) => user_id,
        Err(e) => {
            return Err(e);
        },
    };
    let car_written = insert_car_in_table(
        &mut state.cars,
        user_id,
        &new_account.car_info,
        now,
        faults.car_fails,
    );
    let bank_written = insert_bank_details_in_table(
        &mut state.banks,
        user_id,
        &new_account.bank_details,
        now,
        faults.bank_fails,
    );
    if bank_written.is_err() {
        return Err(Error::PartialProvisioning(WhichRecord::BankDetailRecord));
    }
    if car_written.is_err() {
        return Err(Error::PartialProvisioning(WhichRecord::VehicleRecord));
    }
    Ok(user_id)
}

/// Assembles the read-only account aggregate for a principal: the
/// principal itself (with the stored credential scrubbed — it is never
/// echoed in a response), every vehicle it owns in insertion order, and
/// its bank details.  Fails with `NotFound` when the principal does not
/// exist or owns no bank details; an empty vehicle list is not an error.
pub fn get_account_details(state: &AppState, user_id: u64) -> (r: Result<AccountDetails, Error>)
    requires
        state.wf(),
    ensures
        r is Err <==> !contains_user_id(state.users.users@, user_id) || !has_bank_details(
            state.banks.rows@,
            user_id,
        ),
        r is Err ==> r == Err::<AccountDetails, Error>(Error::NotFound),
        r matches Ok(details) ==> {
            &&& details.user.id == user_id
            &&& exists|i: int|
                #![trigger state.users.users@[i]]
                {
                    &&& 0 <= i < state.users.users@.len()
                    &&& state.users.users@[i].id == user_id
                    &&& details.user.user_name@ == state.users.users@[i].user_name@
                    &&& details.user.email@ == state.users.users@[i].email@
                }
            &&& details.user.password_hash@ == Seq::<char>::empty()
            &&& details.cars_info@ == cars_for(state.cars.rows@, user_id)
            &&& exists|i: int|
                #![trigger state.banks.rows@[i]]
                {
                    &&& 0 <= i < state.banks.rows@.len()
                    &&& state.banks.rows@[i].user_id == user_id
                    &&& details.bank_details == bank_info_of(state.banks.rows@[i])
                }
        },
{
    let user = match find_by_id(&state.users, user_id) {
        Some(user) => user,
        None => {
            return Err(Error::NotFound);
        },
    };
    let cars_info = match get_account_cars_info(&state.cars, user_id) {
        Ok(cars_info) => cars_info,
        Err(e) => {
            return Err(e);
        },
    };
    let bank_details = match get_account_bank_details(&state.banks, user_id) {
        Ok(bank_details) => bank_details,
        Err(e) => {
            return Err(e);
        },
    };
    let shown = User {
        id: user.id,
        user_name: user.user_name,
        email: user.email,
        password_hash: String::new(),
    };
    Ok(AccountDetails { user: shown, cars_info, bank_details })
}

} // verus!
