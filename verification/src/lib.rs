//! The account-provisioning and session-authentication core of a small
//! CRUD backend.
//!
//! The pieces, leaves first: a field-level envelope cipher that protects
//! sensitive stored values (`encrypt`), the record stores for principals,
//! vehicles and bank details (`store`), the session authenticator
//! (`session`), the access guard that classifies routes and rejects
//! unauthenticated requests to protected ones (`guard`), the account
//! provisioner that creates and reads composite accounts (`account`), and
//! the dispatcher tying them together, one call per inbound request
//! (`server`).  The only trusted code is the boundary to the cryptography
//! provider (`crypto`); everything else is verified against the contracts
//! stated on it.

pub mod account;
pub mod crypto;
pub mod encrypt;
pub mod errors;
pub mod guard;
pub mod records;
pub mod server;
pub mod session;
pub mod store;
