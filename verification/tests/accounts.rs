use car_api::account::{create_account, get_account_details, StoreFaults};
use car_api::encrypt::EncryptionMode;
use car_api::errors::{Error, WhichRecord};
use car_api::guard::Method;
use car_api::records::{CreateAccount, LoginUser, NewBankDetails, NewCar, NewUser};
use car_api::server::{handle_request, ApiRequest, ApiResponse, AppState, RequestBody};
use car_api::session::{login_handler, logout_handler, resolve};
use car_api::store::{find_by_email, insert_bank_details_in_table, insert_user_in_table};

fn enabled() -> EncryptionMode {
    EncryptionMode::Enabled(b"a test secret for the stores".to_vec())
}

fn toto_account() -> CreateAccount {
    CreateAccount {
        user: NewUser {
            user_name: "toto".to_string(),
            email: "toto@email.com".to_string(),
            password: "my super password".to_string(),
        },
        car_info: NewCar {
            car_model: "tesla".to_string(),
            car_plate: "42".to_string(),
        },
        bank_details: NewBankDetails {
            account_holder: "toto".to_string(),
            bank_country: "france".to_string(),
            iban: "12345".to_string(),
        },
    }
}

fn post(path: &str, body: RequestBody) -> ApiRequest {
    ApiRequest {
        method: Method::Post,
        path: path.to_string(),
        token: None,
        body,
    }
}

fn get(path: &str, token: Option<String>) -> ApiRequest {
    ApiRequest {
        method: Method::Get,
        path: path.to_string(),
        token,
        body: RequestBody::EmptyBody,
    }
}

fn login_request(email: &str, password: &str) -> ApiRequest {
    post(
        "/login",
        RequestBody::LoginBody(LoginUser {
            email: email.to_string(),
            password_hash: password.to_string(),
        }),
    )
}

#[test]
fn create_returns_201_for_valid_form_data() {
    let mut state = AppState::new(enabled());
    let resp = handle_request(
        &mut state,
        &post("/api/account", RequestBody::CreateAccountBody(toto_account())),
        7,
    );
    assert!(resp.status == 201);
    assert!(resp.account.is_none());
}

#[test]
fn create_returns_422_for_missing_data() {
    let mut state = AppState::new(enabled());
    let resp = handle_request(&mut state, &post("/api/account", RequestBody::MalformedBody), 7);
    assert_eq!(422, resp.status);
}

#[test]
fn login_get_details_logout() {
    let mut state = AppState::new(enabled());
    let now = 7;

    // login before any account exists
    let resp = handle_request(&mut state, &login_request("toto@email.com", "my super password"), now);
    assert_eq!(401, resp.status);

    // create the account
    let resp = handle_request(
        &mut state,
        &post("/api/account", RequestBody::CreateAccountBody(toto_account())),
        now,
    );
    assert!(resp.status == 201);

    // login
    let resp = handle_request(&mut state, &login_request("toto@email.com", "my super password"), now);
    assert_eq!(200, resp.status);
    let token = resp.session_token.expect("login should set a session token");
    // 32 random bytes rendered in base64
    assert_eq!(token.len(), 44);

    // fetch the aggregate with the session
    let resp: ApiResponse = handle_request(&mut state, &get("/api/account", Some(token.clone())), now);
    assert_eq!(200, resp.status);
    let details = resp.account.expect("an authorized read returns the aggregate");
    assert_eq!(details.user.email, "toto@email.com");
    assert_eq!(details.user.user_name, "toto");
    assert_eq!(details.user.password_hash, "", "the credential is never echoed");
    assert_eq!(details.cars_info.len(), 1);
    assert_eq!(details.cars_info[0].model, "tesla");
    assert_eq!(details.cars_info[0].plate, "42");
    assert_eq!(details.bank_details.iban, "12345");
    assert_eq!(details.bank_details.country, "france");
    assert_eq!(details.bank_details.account_holder, "toto");
    assert_eq!(details.bank_details.created_at, now);

    // logout
    let resp = handle_request(&mut state, &get("/logout", Some(token.clone())), now);
    assert_eq!(200, resp.status);
    assert!(resp.session_cleared);

    // the session is gone
    let resp = handle_request(&mut state, &get("/api/account", Some(token)), now);
    assert_eq!(401, resp.status);
}

#[test]
fn scenario_provision_login_fetch_logout() {
    let mut state = AppState::new(enabled());
    let now = 1;
    let account = CreateAccount {
        user: NewUser {
            user_name: "A".to_string(),
            email: "a@b.com".to_string(),
            password: "pw".to_string(),
        },
        car_info: NewCar {
            car_model: "tesla".to_string(),
            car_plate: "42".to_string(),
        },
        bank_details: NewBankDetails {
            account_holder: "A".to_string(),
            bank_country: "FR".to_string(),
            iban: "FR123".to_string(),
        },
    };
    let resp = handle_request(
        &mut state,
        &post("/api/account", RequestBody::CreateAccountBody(account)),
        now,
    );
    assert_eq!(201, resp.status);

    let resp = handle_request(&mut state, &login_request("a@b.com", "pw"), now);
    assert_eq!(200, resp.status);
    let token = resp.session_token.expect("login should set a session token");

    let resp = handle_request(&mut state, &get("/api/account", Some(token.clone())), now);
    assert_eq!(200, resp.status);
    let details = resp.account.expect("an authorized read returns the aggregate");
    assert_eq!(details.cars_info.len(), 1);
    assert_eq!(details.cars_info[0].model, "tesla");
    assert_eq!(details.bank_details.iban, "FR123");

    let resp = handle_request(&mut state, &get("/logout", Some(token.clone())), now);
    assert_eq!(200, resp.status);
    let resp = handle_request(&mut state, &get("/api/account", Some(token)), now);
    assert_eq!(401, resp.status);
}

#[test]
fn duplicate_identity_conflict() {
    let mut state = AppState::new(enabled());
    let resp = handle_request(
        &mut state,
        &post("/api/account", RequestBody::CreateAccountBody(toto_account())),
        7,
    );
    assert_eq!(201, resp.status);
    let resp = handle_request(
        &mut state,
        &post("/api/account", RequestBody::CreateAccountBody(toto_account())),
        8,
    );
    assert_eq!(409, resp.status);
    assert_eq!(state.users.users.len(), 1);
}

#[test]
fn partial_provisioning_keeps_principal() {
    let mut state = AppState::new(enabled());
    let faults = StoreFaults { car_fails: false, bank_fails: true };
    let r = create_account(&mut state, &toto_account(), 7, faults);
    assert_eq!(
        r,
        Err(Error::PartialProvisioning(WhichRecord::BankDetailRecord))
    );
    // the documented atomicity gap: the principal row stays committed
    let found = find_by_email(&state.users, &"toto@email.com".to_string());
    let user = found.expect("the principal must still be findable by email");
    // the vehicle write also ran to completion
    assert_eq!(state.cars.rows.len(), 1);
    // ... but no bank details exist, so the read side reports NotFound
    assert_eq!(state.banks.rows.len(), 0);
    let read = get_account_details(&state, user.id);
    assert!(matches!(read, Err(Error::NotFound)));
}

#[test]
fn partial_provisioning_vehicle_failure() {
    let mut state = AppState::new(enabled());
    let faults = StoreFaults { car_fails: true, bank_fails: false };
    let r = create_account(&mut state, &toto_account(), 7, faults);
    assert_eq!(r, Err(Error::PartialProvisioning(WhichRecord::VehicleRecord)));
    assert!(find_by_email(&state.users, &"toto@email.com".to_string()).is_some());
    assert_eq!(state.cars.rows.len(), 0);
    assert_eq!(state.banks.rows.len(), 1);
}

#[test]
fn both_dependent_writes_failing_reports_bank_first() {
    let mut state = AppState::new(enabled());
    let faults = StoreFaults { car_fails: true, bank_fails: true };
    let r = create_account(&mut state, &toto_account(), 7, faults);
    assert_eq!(
        r,
        Err(Error::PartialProvisioning(WhichRecord::BankDetailRecord))
    );
    assert!(find_by_email(&state.users, &"toto@email.com".to_string()).is_some());
}

#[test]
fn login_refusals_are_indistinguishable() {
    let mut state = AppState::new(enabled());
    let r = create_account(&mut state, &toto_account(), 7, StoreFaults::none());
    assert!(r.is_ok());

    let unknown = LoginUser {
        email: "nobody@email.com".to_string(),
        password_hash: "my super password".to_string(),
    };
    let wrong = LoginUser {
        email: "toto@email.com".to_string(),
        password_hash: "not the password".to_string(),
    };
    let e1 = login_handler(&mut state.sessions, &state.users, &state.mode, &unknown)
        .expect_err("unknown email must be refused");
    let e2 = login_handler(&mut state.sessions, &state.users, &state.mode, &wrong)
        .expect_err("wrong credential must be refused");
    assert_eq!(e1, e2);
    assert_eq!(e1, Error::InvalidCredentials);
    assert_eq!(e1.status_code(), 401);
    assert_eq!(e2.status_code(), 401);
}

#[test]
fn unauthenticated_account_read_is_rejected_without_side_effect() {
    let mut state = AppState::new(enabled());
    let resp = handle_request(&mut state, &get("/api/account", None), 7);
    assert_eq!(401, resp.status);
    let resp = handle_request(&mut state, &get("/api/account", Some("bogus".to_string())), 7);
    assert_eq!(401, resp.status);
    // nothing downstream ever ran
    assert_eq!(state.users.users.len(), 0);
    assert_eq!(state.cars.rows.len(), 0);
    assert_eq!(state.banks.rows.len(), 0);
    assert_eq!(state.sessions.entries.len(), 0);
}

#[test]
fn logout_is_idempotent() {
    let mut state = AppState::new(enabled());
    let r = create_account(&mut state, &toto_account(), 7, StoreFaults::none());
    assert!(r.is_ok());
    let creds = LoginUser {
        email: "toto@email.com".to_string(),
        password_hash: "my super password".to_string(),
    };
    let session = login_handler(&mut state.sessions, &state.users, &state.mode, &creds)
        .expect("login should succeed");
    assert!(resolve(&state.sessions, &session.token).is_some());
    logout_handler(&mut state.sessions, &session.token);
    assert!(resolve(&state.sessions, &session.token).is_none());
    logout_handler(&mut state.sessions, &session.token);
    assert!(resolve(&state.sessions, &session.token).is_none());
}

#[test]
fn plain_mode_login_succeeds_on_matching_credential() {
    let mut state = AppState::new(EncryptionMode::Disabled);
    let r = create_account(&mut state, &toto_account(), 7, StoreFaults::none());
    assert!(r.is_ok());
    let creds = LoginUser {
        email: "toto@email.com".to_string(),
        password_hash: "my super password".to_string(),
    };
    let session = login_handler(&mut state.sessions, &state.users, &state.mode, &creds)
        .expect("a matching credential is owed a login in plain-text mode");
    assert!(resolve(&state.sessions, &session.token).is_some());
}

#[test]
fn health_check_is_public() {
    let mut state = AppState::new(enabled());
    let resp = handle_request(&mut state, &get("/health_check", None), 7);
    assert_eq!(200, resp.status);
}

#[test]
fn unknown_route_is_missing() {
    let mut state = AppState::new(enabled());
    let resp = handle_request(&mut state, &get("/api/notes", None), 7);
    assert_eq!(404, resp.status);
}

#[test]
fn login_with_malformed_body_is_unprocessable() {
    let mut state = AppState::new(enabled());
    let resp = handle_request(&mut state, &post("/login", RequestBody::MalformedBody), 7);
    assert_eq!(422, resp.status);
}

#[test]
fn account_read_with_no_vehicles_returns_empty_list() {
    let mut state = AppState::new(EncryptionMode::Disabled);
    let uid = insert_user_in_table(
        &mut state.users,
        &NewUser {
            user_name: "toto".to_string(),
            email: "toto@email.com".to_string(),
            password: "pw".to_string(),
        },
    )
    .expect("insert should succeed");
    insert_bank_details_in_table(
        &mut state.banks,
        uid,
        &NewBankDetails {
            account_holder: "toto".to_string(),
            bank_country: "france".to_string(),
            iban: "12345".to_string(),
        },
        7,
        false,
    )
    .expect("insert should succeed");
    let details = get_account_details(&state, uid).expect("aggregate should exist");
    assert_eq!(details.cars_info.len(), 0);
    assert_eq!(details.bank_details.iban, "12345");
}

#[test]
fn credential_is_stored_protected() {
    let mut state = AppState::new(enabled());
    let r = create_account(&mut state, &toto_account(), 7, StoreFaults::none());
    assert!(r.is_ok());
    let user = find_by_email(&state.users, &"toto@email.com".to_string()).unwrap();
    // the stored field is an encrypted blob, not the raw credential
    assert_ne!(user.password_hash, "my super password");
    assert!(user.password_hash.len() > 96);
}

#[test]
fn error_statuses_follow_the_table() {
    assert_eq!(Error::InvalidCredentials.status_code(), 401);
    assert_eq!(Error::Unauthorized.status_code(), 401);
    assert_eq!(Error::DuplicateIdentity.status_code(), 409);
    assert_eq!(Error::NotFound.status_code(), 404);
    assert_eq!(
        Error::PartialProvisioning(WhichRecord::VehicleRecord).status_code(),
        500
    );
    assert_eq!(
        Error::PartialProvisioning(WhichRecord::BankDetailRecord).status_code(),
        500
    );
    assert_eq!(Error::AuthenticationFailure.status_code(), 500);
    assert_eq!(Error::ConfigurationMissing.status_code(), 500);
    assert_eq!(Error::StorageFailure.status_code(), 500);
    assert_eq!(Error::CryptoFault.status_code(), 500);
    assert_eq!(Error::ValidationFailure.status_code(), 422);
}
