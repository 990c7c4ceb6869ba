//! The record stores.
//!
//! The credential store persists principals and looks them up by email or
//! identifier; the vehicle and bank-detail stores hold the records owned by
//! a principal.  Each store is an in-memory table with an explicit
//! well-formedness invariant (unique emails, unique identifiers, at most
//! one bank-detail row per principal).  The stores themselves never fail;
//! where the provisioning workflow must react to a peer store reporting a
//! failure, the insert functions take the reported outcome as an argument
//! and leave the table untouched when it says the write was refused.

use vstd::prelude::*;

use crate::errors::Error;
use crate::records::BankDetailsInfo;
use crate::records::CarInfo;
use crate::records::NewBankDetails;
use crate::records::NewCar;
use crate::records::NewUser;
use crate::records::User;

verus! {

/// Whether some stored principal carries this email.
pub open spec fn contains_email(users: Seq<User>, email: Seq<char>) -> bool {
    exists|i: int| 0 <= i < users.len() && users[i].email@ == email
}

/// Whether some stored principal carries this identifier.
pub open spec fn contains_user_id(users: Seq<User>, id: u64) -> bool {
    exists|i: int| 0 <= i < users.len() && users[i].id == id
}

/// The credential store: principals keyed by a stable numeric identifier,
/// with emails unique across the table.
pub struct UserStore {
    pub users: Vec<User>,
    pub next_id: u64,
}

impl UserStore {
    /// Well-formed: identifiers are unique and below the allocation
    /// counter, and emails are unique.
    pub open spec fn wf(&self) -> bool {
        &&& forall|i: int| 0 <= i < self.users@.len() ==> #[trigger] self.users@[i].id < self.next_id
        &&& forall|i: int, j: int|
            0 <= i < j < self.users@.len() ==> #[trigger] self.users@[i].id != #[trigger] self.users@[j].id
        &&& forall|i: int, j: int|
            0 <= i < j < self.users@.len() ==> self.users@[i].email@ != self.users@[j].email@
    }

    /// An empty store.
    pub fn new() -> (r: UserStore)
        ensures
            r.wf(),
            r.users@.len() == 0,
    {
        UserStore { users: Vec::new(), next_id: 0 }
    }
}

/// Inserts a new principal, storing the given (already protected)
/// credential under `password_hash`.  Fails with `DuplicateIdentity` when
/// the email is already taken — distinguished from every other storage
/// failure — and with `StorageFailure` when the identifier space is
/// exhausted.  On failure the table is untouched.
pub fn insert_user_in_table(store: &mut UserStore, user: &NewUser) -> (r: Result<u64, Error>)
    requires
        old(store).wf(),
    ensures
        final(store).wf(),
        contains_email(old(store).users@, user.email@) ==> r == Err::<u64, Error>(
            Error::DuplicateIdentity,
        ) && *final(store) == *old(store),
        r is Err ==> *final(store) == *old(store) && (r == Err::<u64, Error>(
            Error::DuplicateIdentity,
        ) || r == Err::<u64, Error>(Error::StorageFailure)),
        r == Err::<u64, Error>(Error::DuplicateIdentity) ==> contains_email(
            old(store).users@,
            user.email@,
        ),
        !contains_email(old(store).users@, user.email@) && old(store).next_id < u64::MAX ==> (r
            matches Ok(id) && id == old(store).next_id),
        r matches Ok(id) ==> {
            &&& !contains_email(old(store).users@, user.email@)
            &&& id == old(store).next_id
            &&& final(store).next_id == old(store).next_id + 1
            &&& final(store).users@.len() == old(store).users@.len() + 1
            &&& final(store).users@ == old(store).users@.push(
                final(store).users@.last(),
            )
            &&& final(store).users@.last().id == id
            &&& final(store).users@.last().user_name@ == user.user_name@
            &&& final(store).users@.last().email@ == user.email@
            &&& final(store).users@.last().password_hash@ == user.password@
        },
{
    let n = store.users.len();
    let mut i: usize = 0;
    while i < n
        invariant
            *store == *old(store),
            old(store).wf(),
            n == store.users@.len(),
            i <= n,
            forall|j: int| 0 <= j < i ==> store.users@[j].email@ != user.email@,
        decreases n - i,
    {
        if store.users[i].email == user.email {
            return Err(Error::DuplicateIdentity);
        }
        i = i + 1;
    }
    if store.next_id == u64::MAX {
        return Err(Error::StorageFailure);
    }
    let id = store.next_id;
    let row = User {
        id,
        user_name: user.user_name.clone(),
        email: user.email.clone(),
        password_hash: user.password.clone(),
    };
    store.users.push(row);
    store.next_id = id + 1;
    Ok(id)
}

/// Looks a principal up by email.  Absence is not an error: the result is
/// `None` exactly when no stored principal carries the email.
pub fn find_by_email(store: &UserStore, email: &String) -> (r: Option<User>)
    ensures
        r is Some <==> contains_email(store.users@, email@),
        r matches Some(u) ==> u.email@ == email@ && exists|i: int|
            0 <= i < store.users@.len() && store.users@[i] == u,
{
    let n = store.users.len();
    let mut i: usize = 0;
    while i < n
        invariant
            n == store.users@.len(),
            i <= n,
            forall|j: int| 0 <= j < i ==> store.users@[j].email@ != email@,
        decreases n - i,
    {
        if store.users[i].email == *email {
            let u = store.users[i].duplicate();
            proof {
                assert(store.users@[i as int] == u);
            }
            return Some(u);
        }
        i = i + 1;
    }
    None
}

/// Looks a principal up by identifier.
pub fn find_by_id(store: &UserStore, id: u64) -> (r: Option<User>)
    ensures
        r is Some <==> contains_user_id(store.users@, id),
        r matches Some(u) ==> u.id == id && exists|i: int|
            0 <= i < store.users@.len() && store.users@[i] == u,
{
    let n = store.users.len();
    let mut i: usize = 0;
    while i < n
        invariant
            n == store.users@.len(),
            i <= n,
            forall|j: int| 0 <= j < i ==> store.users@[j].id != id,
        decreases n - i,
    {
        if store.users[i].id == id {
            let u = store.users[i].duplicate();
            proof {
                assert(store.users@[i as int] == u);
            }
            return Some(u);
        }
        i = i + 1;
    }
    None
}

/// A stored vehicle record.
#[derive(Debug)]
pub struct CarRow {
    pub id: u64,
    pub user_id: u64,
    pub model: String,
    pub plate: String,
    pub created_at: i64,
    pub updated_at: i64,
}

/// The vehicle store.
pub struct CarStore {
    pub rows: Vec<CarRow>,
    pub next_id: u64,
}

/// The rendering of one stored vehicle row in the account aggregate.
pub open spec fn car_info_of(row: CarRow) -> CarInfo {
    CarInfo {
        id: row.id,
        model: row.model,
        plate: row.plate,
        created_at: row.created_at,
        updated_at: row.updated_at,
    }
}

/// The vehicle records owned by a principal, in insertion order, rendered
/// for the account aggregate.
pub open spec fn cars_for(rows: Seq<CarRow>, user_id: u64) -> Seq<CarInfo>
    decreases rows.len(),
{
    if rows.len() == 0 {
        Seq::empty()
    } else if rows.last().user_id == user_id {
        cars_for(rows.drop_last(), user_id).push(car_info_of(rows.last()))
    } else {
        cars_for(rows.drop_last(), user_id)
    }
}

impl CarStore {
    /// Well-formed: identifiers are unique and below the allocation counter.
    pub open spec fn wf(&self) -> bool {
        &&& forall|i: int| 0 <= i < self.rows@.len() ==> #[trigger] self.rows@[i].id < self.next_id
        &&& forall|i: int, j: int|
            0 <= i < j < self.rows@.len() ==> #[trigger] self.rows@[i].id != #[trigger] self.rows@[j].id
    }

    /// An empty store.
    pub fn new() -> (r: CarStore)
        ensures
            r.wf(),
            r.rows@.len() == 0,
    {
        CarStore { rows: Vec::new(), next_id: 0 }
    }
}

/// Inserts a vehicle record owned by the given principal, timestamped with
/// the caller's clock.  `report_failure` is the write outcome reported by
/// the store collaborator: when it says the write was refused, the call
/// fails with `StorageFailure` and the table is untouched.
pub fn insert_car_in_table(
    store: &mut CarStore,
    user_id: u64,
    account: &NewCar,
    now: i64,
    report_failure: bool,
) -> (r: Result<(), Error>)
    requires
        old(store).wf(),
    ensures
        final(store).wf(),
        r is Err ==> *final(store) == *old(store) && r == Err::<(), Error>(Error::StorageFailure),
        report_failure ==> r is Err,
        !report_failure && old(store).next_id < u64::MAX ==> r is Ok,
        r is Ok ==> {
            &&& final(store).next_id == old(store).next_id + 1
            &&& final(store).rows@ == old(store).rows@.push(final(store).rows@.last())
            &&& final(store).rows@.last().id == old(store).next_id
            &&& final(store).rows@.last().user_id == user_id
            &&& final(store).rows@.last().model@ == account.car_model@
            &&& final(store).rows@.last().plate@ == account.car_plate@
            &&& final(store).rows@.last().created_at == now
            &&& final(store).rows@.last().updated_at == now
        },
{
    if report_failure {
        return Err(Error::StorageFailure);
    }
    if store.next_id == u64::MAX {
        return Err(Error::StorageFailure);
    }
    let id = store.next_id;
    let row = CarRow {
        id,
        user_id,
        model: account.car_model.clone(),
        plate: account.car_plate.clone(),
        created_at: now,
        updated_at: now,
    };
    store.rows.push(row);
    store.next_id = id + 1;
    Ok(())
}

/// All vehicle records owned by a principal, in insertion order.  Absence
/// of vehicles is not an error: the list is simply empty.
pub fn get_account_cars_info(store: &CarStore, user_id: u64) -> (r: Result<Vec<CarInfo>, Error>)
    ensures
        r matches Ok(v) && v@ == cars_for(store.rows@, user_id),
{
    let n = store.rows.len();
    let mut out: Vec<CarInfo> = Vec::new();
    let mut i: usize = 0;
    while i < n
        invariant
            n == store.rows@.len(),
            i <= n,
            out@ == cars_for(store.rows@.take(i as int), user_id),
        decreases n - i,
    {
        let row = &store.rows[i];
        if row.user_id == user_id {
            let info = CarInfo {
                id: row.id,
                model: row.model.clone(),
                plate: row.plate.clone(),
                created_at: row.created_at,
                updated_at: row.updated_at,
            };
            proof {
                assert(info == car_info_of(store.rows@[i as int]));
            }
            out.push(info);
        }
        proof {
            let taken = store.rows@.take(i + 1int);
            assert(taken.drop_last() =~= store.rows@.take(i as int));
            assert(taken.last() == store.rows@[i as int]);
        }
        i = i + 1;
    }
    proof {
        assert(store.rows@.take(n as int) =~= store.rows@);
    }
    Ok(out)
}

/// A stored bank-detail record.
#[derive(Debug)]
pub struct BankRow {
    pub id: u64,
    pub user_id: u64,
    pub country: String,
    pub iban: String,
    pub account_holder: String,
    pub created_at: i64,
    pub updated_at: i64,
}

/// The bank-detail store.
pub struct BankStore {
    pub rows: Vec<BankRow>,
    pub next_id: u64,
}

/// Whether a principal owns a bank-detail row.
pub open spec fn has_bank_details(rows: Seq<BankRow>, user_id: u64) -> bool {
    exists|i: int| 0 <= i < rows.len() && rows[i].user_id == user_id
}

/// The rendering of one stored bank-detail row in the account aggregate.
pub open spec fn bank_info_of(row: BankRow) -> BankDetailsInfo {
    BankDetailsInfo {
        id: row.id,
        country: row.country,
        iban: row.iban,
        account_holder: row.account_holder,
        created_at: row.created_at,
        updated_at: row.updated_at,
    }
}

impl BankStore {
    /// Well-formed: identifiers are unique and below the allocation
    /// counter, and each principal owns at most one row.
    pub open spec fn wf(&self) -> bool {
        &&& forall|i: int| 0 <= i < self.rows@.len() ==> #[trigger] self.rows@[i].id < self.next_id
        &&& forall|i: int, j: int|
            0 <= i < j < self.rows@.len() ==> #[trigger] self.rows@[i].id != #[trigger] self.rows@[j].id
        &&& forall|i: int, j: int|
            0 <= i < j < self.rows@.len() ==> self.rows@[i].user_id != self.rows@[j].user_id
    }

    /// An empty store.
    pub fn new() -> (r: BankStore)
        ensures
            r.wf(),
            r.rows@.len() == 0,
    {
        BankStore { rows: Vec::new(), next_id: 0 }
    }
}

/// Inserts the bank-detail record owned by the given principal.
/// `report_failure` is the write outcome reported by the store
/// collaborator; a refused write, an exhausted identifier space, or a
/// principal that already owns bank details all fail with
/// `StorageFailure` and leave the table untouched.
pub fn insert_bank_details_in_table(
    store: &mut BankStore,
    user_id: u64,
    account: &NewBankDetails,
    now: i64,
    report_failure: bool,
) -> (r: Result<(), Error>)
    requires
        old(store).wf(),
    ensures
        final(store).wf(),
        r is Err ==> *final(store) == *old(store) && r == Err::<(), Error>(Error::StorageFailure),
        report_failure ==> r is Err,
        !report_failure && old(store).next_id < u64::MAX && !has_bank_details(
            old(store).rows@,
            user_id,
        ) ==> r is Ok,
        r is Ok ==> {
            &&& !has_bank_details(old(store).rows@, user_id)
            &&& final(store).next_id == old(store).next_id + 1
            &&& final(store).rows@ == old(store).rows@.push(final(store).rows@.last())
            &&& final(store).rows@.last().id == old(store).next_id
            &&& final(store).rows@.last().user_id == user_id
            &&& final(store).rows@.last().country@ == account.bank_country@
            &&& final(store).rows@.last().iban@ == account.iban@
            &&& final(store).rows@.last().account_holder@ == account.account_holder@
            &&& final(store).rows@.last().created_at == now
            &&& final(store).rows@.last().updated_at == now
        },
{
    if report_failure {
        return Err(Error::StorageFailure);
    }
    if store.next_id == u64::MAX {
        return Err(Error::StorageFailure);
    }
    let n = store.rows.len();
    let mut i: usize = 0;
    while i < n
        invariant
            *store == *old(store),
            old(store).wf(),
            n == store.rows@.len(),
            i <= n,
            forall|j: int| 0 <= j < i ==> store.rows@[j].user_id != user_id,
        decreases n - i,
    {
        if store.rows[i].user_id == user_id {
            return Err(Error::StorageFailure);
        }
        i = i + 1;
    }
    let id = store.next_id;
    let row = BankRow {
        id,
        user_id,
        country: account.bank_country.clone(),
        iban: account.iban.clone(),
        account_holder: account.account_holder.clone(),
        created_at: now,
        updated_at: now,
    };
    store.rows.push(row);
    store.next_id = id + 1;
    Ok(())
}

/// The bank-detail record owned by a principal.  Fails with `NotFound`
/// when the principal owns none: the relation is modeled as exactly one
/// row per provisioned principal.
pub fn get_account_bank_details(store: &BankStore, user_id: u64) -> (r: Result<
    BankDetailsInfo,
    Error,
>)
    requires
        store.wf(),
    ensures
        r is Err <==> !has_bank_details(store.rows@, user_id),
        r is Err ==> r == Err::<BankDetailsInfo, Error>(Error::NotFound),
        r matches Ok(info) ==> exists|i: int|
            0 <= i < store.rows@.len() && store.rows@[i].user_id == user_id && info
                == #[trigger] bank_info_of(store.rows@[i]),
{
    let n = store.rows.len();
    let mut i: usize = 0;
    while i < n
        invariant
            n == store.rows@.len(),
            i <= n,
            forall|j: int| 0 <= j < i ==> store.rows@[j].user_id != user_id,
        decreases n - i,
    {
        let row = &store.rows[i];
        if row.user_id == user_id {
            let info = BankDetailsInfo {
                id: row.id,
                country: row.country.clone(),
                iban: row.iban.clone(),
                account_holder: row.account_holder.clone(),
                created_at: row.created_at,
                updated_at: row.updated_at,
            };
            proof {
                assert(info == bank_info_of(store.rows@[i as int]));
            }
            return Ok(info);
        }
        i = i + 1;
    }
    Err(Error::NotFound)
}

} // verus!
