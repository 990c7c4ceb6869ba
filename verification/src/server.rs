//! The request dispatcher.
//!
//! `AppState` is the data shared across requests: the three record stores,
//! the session table, and the encryption configuration fixed at startup.
//! `handle_request` drives one inbound request through the access guard
//! and into the matching handler.  Authentication resolution always
//! happens before any business-logic side effect: a rejected request
//! leaves every store exactly as it was.

use vstd::prelude::*;

use crate::account::create_account;
use crate::account::get_account_details;
use crate::account::StoreFaults;
use crate::encrypt::plain_of;
use crate::encrypt::protects;
use crate::encrypt::EncryptionMode;
use crate::encrypt::MAX_BLOB_LEN;
use crate::errors::Error;
use crate::guard::classify_spec;
use crate::guard::guard_check;
use crate::guard::guard_spec;
use crate::guard::stored_token_view;
use crate::guard::GuardDecision;
use crate::guard::Method;
use crate::records::AccountDetails;
use crate::records::CreateAccount;
use crate::records::LoginUser;
use crate::session::login_handler;
use crate::session::login_refused_plain;
use crate::session::logout_handler;
use crate::session::SessionStore;
use crate::store::bank_info_of;
use crate::store::cars_for;
use crate::store::contains_email;
use crate::store::contains_user_id;
use crate::store::has_bank_details;
use crate::store::BankStore;
use crate::store::CarStore;
use crate::store::UserStore;
use vstd::string::StringExecFns;
use vstd::utf8::encode_utf8;

verus! {

/// The data shared across requests.
pub struct AppState {
    pub users: UserStore,
    pub cars: CarStore,
    pub banks: BankStore,
    pub sessions: SessionStore,
    pub mode: EncryptionMode,
}

impl AppState {
    /// Well-formed: every store keeps its own invariant, and every vehicle
    /// or bank-detail row references a principal identifier the identity
    /// store has already allocated.
    pub open spec fn wf(&self) -> bool {
        &&& self.users.wf()
        &&& self.cars.wf()
        &&& self.banks.wf()
        &&& self.sessions.wf()
        &&& self.mode.wf()
        &&& forall|i: int|
            0 <= i < self.cars.rows@.len() ==> #[trigger] self.cars.rows@[i].user_id
                < self.users.next_id
        &&& forall|i: int|
            0 <= i < self.banks.rows@.len() ==> #[trigger] self.banks.rows@[i].user_id
                < self.users.next_id
    }

    /// A fresh state with empty stores under the given encryption
    /// configuration.
    pub fn new(mode: EncryptionMode) -> (r: AppState)
        requires
            mode.wf(),
        ensures
            r.wf(),
            r.users.users@.len() == 0,
            r.cars.rows@.len() == 0,
            r.banks.rows@.len() == 0,
            r.sessions.entries@.len() == 0,
            r.mode == mode,
    {
        AppState {
            users: UserStore::new(),
            cars: CarStore::new(),
            banks: BankStore::new(),
            sessions: SessionStore::new(),
            mode,
        }
    }
}

/// The body an inbound request carried, as the (external) request
/// validator handed it over: a parsed payload, an empty body, or
/// something malformed.
#[derive(Debug)]
pub enum RequestBody {
    CreateAccountBody(CreateAccount),
    LoginBody(LoginUser),
    EmptyBody,
    MalformedBody,
}

/// One inbound request, reduced to what the core decides on.
#[derive(Debug)]
pub struct ApiRequest {
    pub method: Method,
    pub path: String,
    pub token: Option<String>,
    pub body: RequestBody,
}

/// What the core answers: a status, a session token to set (on login), a
/// flag to clear the client's session (on logout), and the account
/// aggregate (on an authorized read).
#[derive(Debug)]
pub struct ApiResponse {
    pub status: u16,
    pub session_token: Option<String>,
    pub session_cleared: bool,
    pub account: Option<AccountDetails>,
}

/// A response carrying nothing but a status.
fn plain_response(status: u16) -> (r: ApiResponse)
    ensures
        r.status == status,
        r.session_token is None,
        !r.session_cleared,
        r.account is None,
{
    ApiResponse { status, session_token: None, session_cleared: false, account: None }
}

/// Drives one request through the guard and into its handler.  The guard
/// runs first: an unregistered route answers 404 and a rejected request
/// answers 401, in both cases before any handler and with every store
/// left exactly as it was.  Requests to a known route with an unusable
/// body answer 422, again changing nothing.
pub fn handle_request(state: &mut AppState, req: &ApiRequest, now: i64) -> (resp: ApiResponse)
    requires
        old(state).wf(),
    ensures
        final(state).wf(),
        final(state).mode == old(state).mode,
        // unregistered route: 404, nothing ran
        guard_spec(
            old(state).sessions.bindings(),
            req.method,
            req.path@,
            stored_token_view(req.token),
        ) == GuardDecision::MissingRoute ==> resp.status == 404 && *final(state) == *old(state),
        // the access guard: an unauthenticated request to a protected
        // route answers 401 and never reaches a handler
        guard_spec(
            old(state).sessions.bindings(),
            req.method,
            req.path@,
            stored_token_view(req.token),
        ) == GuardDecision::Reject ==> resp.status == 401 && *final(state) == *old(state),
        // a known route with an unusable body answers 422 and changes nothing
        req.method is Post && req.path@ == "/login"@ && !(req.body matches RequestBody::LoginBody(
            _,
        )) ==> resp.status == 422 && *final(state) == *old(state),
        req.method is Post && req.path@ == "/api/account"@ && !(req.body matches
            RequestBody::CreateAccountBody(_)) ==> resp.status == 422 && *final(state) == *old(
            state,
        ),
        // reads never write
        req.method is Get && req.path@ == "/api/account"@ ==> *final(state) == *old(state),
        req.method is Get && req.path@ == "/health_check"@ ==> resp.status == 200 && *final(state)
            == *old(state),
        // a served logout removes exactly the submitted token's binding
        req.method is Get && req.path@ == "/logout"@ && resp.status == 200 ==> {
            &&& req.token matches Some(t) && final(state).sessions.bindings() == old(
                state,
            ).sessions.bindings().remove(t@)
            &&& final(state).users == old(state).users
            &&& final(state).cars == old(state).cars
            &&& final(state).banks == old(state).banks
        },
        // a served login binds the returned token; nothing else moves
        req.method is Post && req.path@ == "/login"@ ==> {
            &&& final(state).users == old(state).users
            &&& final(state).cars == old(state).cars
            &&& final(state).banks == old(state).banks
            &&& resp.status == 200 ==> resp.session_token is Some
            &&& resp.status != 200 ==> final(state).sessions == old(state).sessions
        },
        // refused logins surface as the one uninformative 401, whether the
        // email is unknown or the credential mismatches
        req.method is Post && req.path@ == "/login"@ && (req.body matches RequestBody::LoginBody(
            creds,
        ) && !crate::store::contains_email(old(state).users.users@, creds.email@))
            ==> resp.status == 401,
        req.method is Post && req.path@ == "/login"@ && old(state).mode is Disabled && (req.body
            matches RequestBody::LoginBody(creds) && crate::session::login_refused_plain(
            old(state).users.users@,
            creds.email@,
            creds.password_hash@,
        )) ==> resp.status == 401,
        // provisioning: 201 means the account exists now; 409 means the
        // identity was taken and nothing changed
        req.method is Post && req.path@ == "/api/account"@ ==> {
            &&& final(state).sessions == old(state).sessions
            &&& (req.body matches RequestBody::CreateAccountBody(acc) ==> {
                &&& resp.status == 409 ==> *final(state) == *old(state) && contains_email(
                    old(state).users.users@,
                    acc.user.email@,
                )
                // with a fresh identity and identifier space, a 201 is
                // owed, short of a cipher refusal (422/500); in plain-text
                // mode outright
                &&& !contains_email(old(state).users.users@, acc.user.email@) && old(
                    state,
                ).users.next_id < u64::MAX && old(state).cars.next_id < u64::MAX && old(
                    state,
                ).banks.next_id < u64::MAX ==> {
                    &&& resp.status == 201 || resp.status == 422 || resp.status == 500
                    &&& old(state).mode is Disabled ==> resp.status == 201
                }
                // a 201 pins all three created records down
                &&& resp.status == 201 ==> {
                    &&& contains_email(final(state).users.users@, acc.user.email@)
                    &&& final(state).users.users@ == old(state).users.users@.push(
                        final(state).users.users@.last(),
                    )
                    &&& final(state).users.users@.last().id == old(state).users.next_id
                    &&& final(state).users.users@.last().user_name@ == acc.user.user_name@
                    &&& final(state).users.users@.last().email@ == acc.user.email@
                    &&& protects(
                        old(state).mode,
                        final(state).users.users@.last().password_hash@,
                        acc.user.password@,
                    )
                    &&& final(state).cars.rows@ == old(state).cars.rows@.push(
                        final(state).cars.rows@.last(),
                    )
                    &&& final(state).cars.rows@.last().user_id == old(state).users.next_id
                    &&& final(state).cars.rows@.last().model@ == acc.car_info.car_model@
                    &&& final(state).cars.rows@.last().plate@ == acc.car_info.car_plate@
                    &&& final(state).banks.rows@ == old(state).banks.rows@.push(
                        final(state).banks.rows@.last(),
                    )
                    &&& final(state).banks.rows@.last().user_id == old(state).users.next_id
                    &&& final(state).banks.rows@.last().iban@ == acc.bank_details.iban@
                    &&& final(state).banks.rows@.last().country@ == acc.bank_details.bank_country@
                    &&& final(state).banks.rows@.last().account_holder@
                        == acc.bank_details.account_holder@
                }
            })
        },
        // an authorized account read answers the pinned aggregate, or 404
        // exactly when the principal or its bank details are missing
        req.method is Get && req.path@ == "/api/account"@ ==> (guard_spec(
            old(state).sessions.bindings(),
            req.method,
            req.path@,
            stored_token_view(req.token),
        ) matches GuardDecision::Proceed(Some(uid)) ==> {
            &&& resp.status == 200 || resp.status == 404
            &&& resp.status == 200 <==> contains_user_id(old(state).users.users@, uid)
                && has_bank_details(old(state).banks.rows@, uid)
            &&& resp.status == 200 ==> (resp.account matches Some(details) && {
                &&& details.user.id == uid
                &&& details.user.password_hash@ == Seq::<char>::empty()
                &&& details.cars_info@ == cars_for(old(state).cars.rows@, uid)
                &&& exists|i: int|
                    #![trigger old(state).users.users@[i]]
                    {
                        &&& 0 <= i < old(state).users.users@.len()
                        &&& old(state).users.users@[i].id == uid
                        &&& details.user.user_name@ == old(state).users.users@[i].user_name@
                        &&& details.user.email@ == old(state).users.users@[i].email@
                    }
                &&& exists|i: int|
                    #![trigger old(state).banks.rows@[i]]
                    {
                        &&& 0 <= i < old(state).banks.rows@.len()
                        &&& old(state).banks.rows@[i].user_id == uid
                        &&& details.bank_details == bank_info_of(old(state).banks.rows@[i])
                    }
            })
        }),
        // a matching credential is owed a served login, short of a
        // provider fault
        req.method is Post && req.path@ == "/login"@ && old(state).mode is Disabled && (req.body
            matches RequestBody::LoginBody(creds) && !login_refused_plain(
            old(state).users.users@,
            creds.email@,
            creds.password_hash@,
        )) ==> resp.status == 200 || resp.status == 500,
        req.method is Post && req.path@ == "/login"@ ==> (old(state).mode matches
            EncryptionMode::Enabled(secret) ==> (req.body matches RequestBody::LoginBody(creds)
            ==> forall|i: int|
            #![trigger old(state).users.users@[i]]
            0 <= i < old(state).users.users@.len() && old(state).users.users@[i].email@
                == creds.email@ && encode_utf8(old(state).users.users@[i].password_hash@).len()
                <= MAX_BLOB_LEN && plain_of(secret@, old(state).users.users@[i].password_hash@)
                == Some(encode_utf8(creds.password_hash@)) ==> resp.status == 200 || resp.status
                == 500)),
        // a served login answers with the fresh binding
        req.method is Post && req.path@ == "/login"@ && resp.status == 200 ==> (req.body matches
            RequestBody::LoginBody(creds) ==> (resp.session_token matches Some(token) && exists|i: int|
            #![trigger old(state).users.users@[i]]
            {
                &&& 0 <= i < old(state).users.users@.len()
                &&& old(state).users.users@[i].email@ == creds.email@
                &&& final(state).sessions.bindings() == old(state).sessions.bindings().insert(
                    token@,
                    old(state).users.users@[i].id,
                )
            })),
        // an authenticated logout is always served
        req.method is Get && req.path@ == "/logout"@ ==> (guard_spec(
            old(state).sessions.bindings(),
            req.method,
            req.path@,
            stored_token_view(req.token),
        ) matches GuardDecision::Proceed(Some(_)) ==> resp.status == 200),
{
    proof {
        crate::guard::lemma_route_paths_distinct();
    }
    let login = String::from_str("/login");
    let logout = String::from_str("/logout");
    let api_account = String::from_str("/api/account");
    let health_check = String::from_str("/health_check");
    let token_ref: Option<&String> = match &req.token {
        Some(t) => Some(t),
        None => None,
    };
    let decision = guard_check(&state.sessions, req.method, &req.path, token_ref);
    let principal: Option<u64> = match decision {
        GuardDecision::MissingRoute => {
            return plain_response(404);
        },
        GuardDecision::Reject => {
            return plain_response(401);
        },
        GuardDecision::Proceed(principal) => principal,
    };
    match req.method {
        Method::Post => {
            if req.path == login {
                match &req.body {
                    RequestBody::LoginBody(creds) => {
                        match login_handler(&mut state.sessions, &state.users, &state.mode, creds) {
                            Ok(session) => ApiResponse {
                                status: 200,
                                session_token: Some(session.token),
                                session_cleared: false,
                                account: None,
                            },
                            Err(e) => plain_response(e.status_code()),
                        }
                    },
                    _ => plain_response(422),
                }
            } else if req.path == api_account {
                match &req.body {
                    RequestBody::CreateAccountBody(acc) => {
                        match create_account(state, acc, now, StoreFaults::none()) {
                            Ok(_) => plain_response(201),
                            Err(e) => plain_response(e.status_code()),
                        }
                    },
                    _ => plain_response(422),
                }
            } else {
                plain_response(404)
            }
        },
        Method::Get => {
            if req.path == logout {
                match &req.token {
                    Some(token) => {
                        logout_handler(&mut state.sessions, token);
                        ApiResponse {
                            status: 200,
                            session_token: None,
                            session_cleared: true,
                            account: None,
                        }
                    },
                    None => plain_response(401),
                }
            } else if req.path == api_account {
                match principal {
                    Some(user_id) => {
                        match get_account_details(state, user_id) {
                            Ok(details) => ApiResponse {
                                status: 200,
                                session_token: None,
                                session_cleared: false,
                                account: Some(details),
                            },
                            Err(e) => plain_response(e.status_code()),
                        }
                    },
                    None => plain_response(401),
                }
            } else if req.path == health_check {
                plain_response(200)
            } else {
                plain_response(404)
            }
        },
    }
}

} // verus!
