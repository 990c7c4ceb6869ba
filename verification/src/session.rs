//! Session authentication.
//!
//! The session store is an explicit table from opaque tokens to principal
//! identifiers — its mathematical view is the binding map — with `put`,
//! `get` and `delete` as the only operations.  A token with no binding is
//! anonymous.  `login_handler` turns a submitted credential pair into a
//! fresh binding; `resolve` validates a token on a later request;
//! `logout_handler` removes a binding and is idempotent.
//!
//! Login refusals are deliberately uninformative: an unknown email and a
//! mismatched credential surface as the very same `InvalidCredentials`
//! error, so callers cannot probe which emails are registered.

use vstd::prelude::*;

use crate::crypto::base64_encode;
use crate::crypto::random_bytes;
use crate::encrypt::plain_of;
use crate::encrypt::MAX_BLOB_LEN;
use crate::encrypt::recover_field;
use crate::encrypt::EncryptionMode;
use crate::errors::status_of;
use crate::errors::Error;
use crate::records::LoginUser;
use crate::records::User;
use crate::store::contains_email;
use crate::store::UserStore;
use vstd::map::*;
use vstd::utf8::encode_utf8;

verus! {

/// Bytes of entropy in a freshly drawn session token (256 bits).
pub const TOKEN_LEN: usize = 32;

/// One binding from an opaque session token to a principal identifier.
#[derive(Debug)]
pub struct SessionEntry {
    pub token: String,
    pub user_id: u64,
}

/// A server-side session: the token handed to the client and the principal
/// it is bound to.
#[derive(Debug)]
pub struct Session {
    pub token: String,
    pub user_id: u64,
}

/// The binding map that a session table denotes: later entries shadow
/// earlier ones, though a well-formed table never carries a token twice.
pub open spec fn map_of(entries: Seq<SessionEntry>) -> Map<Seq<char>, u64>
    decreases entries.len(),
{
    if entries.len() == 0 {
        Map::empty()
    } else {
        map_of(entries.drop_last()).insert(entries.last().token@, entries.last().user_id)
    }
}

/// The session store: at most one active principal binding per token.
pub struct SessionStore {
    pub entries: Vec<SessionEntry>,
}

impl SessionStore {
    /// Well-formed: tokens are unique.
    pub open spec fn wf(&self) -> bool {
        forall|i: int, j: int|
            0 <= i < j < self.entries@.len() ==> self.entries@[i].token@ != self.entries@[j].token@
    }

    /// The binding map this store denotes.
    pub open spec fn bindings(&self) -> Map<Seq<char>, u64> {
        map_of(self.entries@)
    }

    /// An empty store: every token is anonymous.
    pub fn new() -> (r: SessionStore)
        ensures
            r.wf(),
            r.entries@.len() == 0,
            r.bindings() == Map::<Seq<char>, u64>::empty(),
    {
        SessionStore { entries: Vec::new() }
    }
}

/// A token is bound in the denoted map exactly when some entry carries it.
pub proof fn lemma_map_of_contains(entries: Seq<SessionEntry>, t: Seq<char>)
    ensures
        map_of(entries).contains_key(t) <==> exists|i: int|
            0 <= i < entries.len() && entries[i].token@ == t,
    decreases entries.len(),
{
    if entries.len() > 0 {
        lemma_map_of_contains(entries.drop_last(), t);
        if entries.last().token@ != t {
            if map_of(entries).contains_key(t) {
                let i = choose|i: int|
                    0 <= i < entries.drop_last().len() && entries.drop_last()[i].token@ == t;
                assert(entries[i].token@ == t);
            }
            if exists|i: int| 0 <= i < entries.len() && entries[i].token@ == t {
                let i = choose|i: int| 0 <= i < entries.len() && entries[i].token@ == t;
                assert(entries.drop_last()[i].token@ == t);
            }
        }
    }
}

/// In a table without repeated tokens, each entry's token maps to exactly
/// that entry's principal.
pub proof fn lemma_map_of_value(entries: Seq<SessionEntry>, i: int)
    requires
        forall|a: int, b: int|
            0 <= a < b < entries.len() ==> entries[a].token@ != entries[b].token@,
        0 <= i < entries.len(),
    ensures
        map_of(entries).contains_key(entries[i].token@),
        map_of(entries)[entries[i].token@] == entries[i].user_id,
    decreases entries.len(),
{
    if i == entries.len() - 1 {
    } else {
        assert(entries.drop_last()[i] == entries[i]);
        lemma_map_of_value(entries.drop_last(), i);
        assert(entries.last().token@ != entries[i].token@);
    }
}

/// Removing one entry from a table without repeated tokens removes exactly
/// that entry's binding from the denoted map.
proof fn lemma_map_of_remove(entries: Seq<SessionEntry>, i: int)
    requires
        forall|a: int, b: int|
            0 <= a < b < entries.len() ==> entries[a].token@ != entries[b].token@,
        0 <= i < entries.len(),
    ensures
        map_of(entries.remove(i)) == map_of(entries).remove(entries[i].token@),
    decreases entries.len(),
{
    let t = entries[i].token@;
    if i == entries.len() - 1 {
        assert(entries.remove(i) =~= entries.drop_last());
        lemma_map_of_contains(entries.drop_last(), t);
        assert forall|a: int| 0 <= a < entries.drop_last().len() implies entries.drop_last()[a].token@
            != t by {
            assert(entries[a].token@ == entries.drop_last()[a].token@);
        }
        assert(!map_of(entries.drop_last()).contains_key(t));
        assert_maps_equal!(
            map_of(entries.drop_last()).insert(t, entries[i].user_id).remove(t),
            map_of(entries.drop_last()),
        );
    } else {
        let shorter = entries.drop_last();
        assert(entries.remove(i).last() == entries.last());
        assert(entries.remove(i).drop_last() =~= shorter.remove(i));
        assert(shorter[i] == entries[i]);
        lemma_map_of_remove(shorter, i);
        assert(entries.last().token@ != t);
        assert_maps_equal!(
            map_of(shorter).remove(t).insert(entries.last().token@, entries.last().user_id),
            map_of(shorter).insert(entries.last().token@, entries.last().user_id).remove(t),
        );
    }
}

/// Resolves a session token: the bound principal identifier, or `None`
/// when the token is anonymous.  Read-only, and never an error.
pub fn resolve(sessions: &SessionStore, token: &String) -> (r: Option<u64>)
    requires
        sessions.wf(),
    ensures
        r is Some <==> sessions.bindings().contains_key(token@),
        r matches Some(uid) ==> sessions.bindings()[token@] == uid,
{
    let n = sessions.entries.len();
    let mut i: usize = 0;
    while i < n
        invariant
            sessions.wf(),
            n == sessions.entries@.len(),
            i <= n,
            forall|j: int| 0 <= j < i ==> sessions.entries@[j].token@ != token@,
        decreases n - i,
    {
        if sessions.entries[i].token == *token {
            proof {
                lemma_map_of_value(sessions.entries@, i as int);
            }
            return Some(sessions.entries[i].user_id);
        }
        i = i + 1;
    }
    proof {
        lemma_map_of_contains(sessions.entries@, token@);
    }
    None
}

/// Deletes the binding for a token, if any.  Idempotent: removing an
/// absent binding changes nothing.
pub fn remove_binding(sessions: &mut SessionStore, token: &String)
    requires
        old(sessions).wf(),
    ensures
        final(sessions).wf(),
        final(sessions).bindings() == old(sessions).bindings().remove(token@),
        forall|j: int|
            0 <= j < final(sessions).entries@.len() ==> final(sessions).entries@[j].token@ != token@,
{
    let n = sessions.entries.len();
    let mut i: usize = 0;
    while i < n
        invariant
            *sessions == *old(sessions),
            old(sessions).wf(),
            n == sessions.entries@.len(),
            i <= n,
            forall|j: int| 0 <= j < i ==> sessions.entries@[j].token@ != token@,
        decreases n - i,
    {
        if sessions.entries[i].token == *token {
            proof {
                lemma_map_of_remove(sessions.entries@, i as int);
            }
            sessions.entries.remove(i);
            return ;
        }
        i = i + 1;
    }
    proof {
        lemma_map_of_contains(sessions.entries@, token@);
        assert(!old(sessions).bindings().contains_key(token@));
        assert_maps_equal!(old(sessions).bindings().remove(token@), old(sessions).bindings());
    }
}

/// Binds a token to a principal, replacing any previous binding of that
/// token: the denoted map gains exactly this one entry.
pub fn insert_binding(sessions: &mut SessionStore, token: String, user_id: u64)
    requires
        old(sessions).wf(),
    ensures
        final(sessions).wf(),
        final(sessions).bindings() == old(sessions).bindings().insert(token@, user_id),
{
    remove_binding(sessions, &token);
    let ghost cleared = sessions.entries@;
    sessions.entries.push(SessionEntry { token, user_id });
    proof {
        assert(sessions.entries@.drop_last() =~= cleared);
        assert_maps_equal!(
            map_of(cleared).insert(sessions.entries@.last().token@, user_id),
            old(sessions).bindings().insert(sessions.entries@.last().token@, user_id),
        );
    }
}

/// Draws a fresh, unguessable session token from the cryptographic random
/// source: 256 bits of entropy, rendered in base64.  Never derived from
/// principal data.
pub fn generate_token() -> (r: Result<String, Error>)
    ensures
        r is Err ==> r == Err::<String, Error>(Error::CryptoFault),
        r matches Ok(token) ==> token@.len() == 44,
{
    match random_bytes(TOKEN_LEN) {
        Ok(bytes) => Ok(base64_encode(bytes.as_slice())),
        Err(_) => Err(Error::CryptoFault),
    }
}

/// Whether a login with this email and submitted credential is refused
/// against a table of principals whose credentials are stored in plain
/// text (the explicit plain-text opt-in): the email is unknown, or the
/// stored credential differs.
pub open spec fn login_refused_plain(users: Seq<User>, email: Seq<char>, submitted: Seq<char>) -> bool {
    ||| !contains_email(users, email)
    ||| exists|i: int|
        0 <= i < users.len() && users[i].email@ == email && users[i].password_hash@ != submitted
}

/// Auth indistinguishability: a login refused because the email is unknown
/// and a login refused because the credential mismatches are both refused,
/// and `login_handler` surfaces both as the very same `InvalidCredentials`
/// error, carrying the very same status 401 — nothing leaks which emails
/// are registered.
pub proof fn lemma_auth_indistinguishable(
    users_a: Seq<User>,
    email_a: Seq<char>,
    submitted_a: Seq<char>,
    users_b: Seq<User>,
    email_b: Seq<char>,
    submitted_b: Seq<char>,
)
    requires
        !contains_email(users_a, email_a),
        contains_email(users_b, email_b),
        forall|i: int|
            0 <= i < users_b.len() && users_b[i].email@ == email_b
                ==> users_b[i].password_hash@ != submitted_b,
    ensures
        login_refused_plain(users_a, email_a, submitted_a),
        login_refused_plain(users_b, email_b, submitted_b),
        status_of(Error::InvalidCredentials) == 401,
{
    let i = choose|i: int| 0 <= i < users_b.len() && users_b[i].email@ == email_b;
    assert(users_b[i].password_hash@ != submitted_b);
}

/// Logging out twice is the same as logging out once: removing a binding
/// is idempotent.
pub proof fn lemma_logout_idempotent(bindings: Map<Seq<char>, u64>, token: Seq<char>)
    ensures
        bindings.remove(token).remove(token) == bindings.remove(token),
{
    assert_maps_equal!(bindings.remove(token).remove(token), bindings.remove(token));
}

/// Logs a submitted credential pair in: looks the principal up by email,
/// compares the submitted credential against the stored (protected) one,
/// and on match binds a freshly drawn token to the principal.  Any refusal
/// — unknown email, mismatched credential, or a stored blob that does not
/// open — is the same uninformative `InvalidCredentials`, and leaves the
/// session table untouched; only a fault of the cryptography provider
/// surfaces differently, as `CryptoFault`.
pub fn login_handler(
    sessions: &mut SessionStore,
    users: &UserStore,
    mode: &EncryptionMode,
    creds: &LoginUser,
) -> (r: Result<Session, Error>)
    requires
        old(sessions).wf(),
        users.wf(),
        mode.wf(),
    ensures
        final(sessions).wf(),
        r is Err ==> *final(sessions) == *old(sessions),
        r is Err ==> r == Err::<Session, Error>(Error::InvalidCredentials) || r == Err::<
            Session,
            Error,
        >(Error::CryptoFault),
        !contains_email(users.users@, creds.email@) ==> r == Err::<Session, Error>(
            Error::InvalidCredentials,
        ),
        mode is Disabled && login_refused_plain(users.users@, creds.email@, creds.password_hash@)
            ==> r == Err::<Session, Error>(Error::InvalidCredentials),
        forall|i: int|
            0 <= i < users.users@.len() && users.users@[i].email@ == creds.email@ && (match *mode {
                EncryptionMode::Enabled(secret) => plain_of(
                    secret@,
                    users.users@[i].password_hash@,
                ) is None,
                EncryptionMode::Disabled => false,
            }) ==> r == Err::<Session, Error>(Error::InvalidCredentials) || r == Err::<
                Session,
                Error,
            >(Error::CryptoFault),
        r matches Ok(sess) ==> {
            &&& exists|i: int|
                #![trigger users.users@[i]]
                {
                    &&& 0 <= i < users.users@.len()
                    &&& users.users@[i].email@ == creds.email@
                    &&& users.users@[i].id == sess.user_id
                    &&& (mode is Disabled ==> users.users@[i].password_hash@
                        == creds.password_hash@)
                    &&& (match *mode {
                        EncryptionMode::Enabled(secret) => plain_of(
                            secret@,
                            users.users@[i].password_hash@,
                        ) is Some && forall|value: Seq<char>|
                            plain_of(secret@, users.users@[i].password_hash@) == Some(
                                #[trigger] encode_utf8(value),
                            ) ==> value == creds.password_hash@,
                        EncryptionMode::Disabled => true,
                    })
                }
            &&& final(sessions).bindings() == old(sessions).bindings().insert(
                sess.token@,
                sess.user_id,
            )
        },
        // success is owed on a matching credential: in plain-text mode
        // outright ...
        mode is Disabled && !login_refused_plain(users.users@, creds.email@, creds.password_hash@)
            ==> r is Ok || r == Err::<Session, Error>(Error::CryptoFault),
        // ... and with encryption enabled whenever the stored blob opens to
        // exactly the submitted credential's encoding
        mode matches EncryptionMode::Enabled(secret) ==> forall|i: int|
            #![trigger users.users@[i]]
            0 <= i < users.users@.len() && users.users@[i].email@ == creds.email@ && encode_utf8(
                users.users@[i].password_hash@,
            ).len() <= MAX_BLOB_LEN && plain_of(secret@, users.users@[i].password_hash@) == Some(
                encode_utf8(creds.password_hash@),
            ) ==> r is Ok || r == Err::<Session, Error>(Error::CryptoFault),
        // a stored blob that opens to any other value is refused
        mode matches EncryptionMode::Enabled(secret) ==> forall|i: int, other: Seq<char>|
            #![trigger users.users@[i], encode_utf8(other)]
            0 <= i < users.users@.len() && users.users@[i].email@ == creds.email@ && plain_of(
                secret@,
                users.users@[i].password_hash@,
            ) == Some(encode_utf8(other)) && other != creds.password_hash@ ==> r == Err::<
                Session,
                Error,
            >(Error::InvalidCredentials) || r == Err::<Session, Error>(Error::CryptoFault),
{
    let user = match crate::store::find_by_email(users, &creds.email) {
        Some(user) => user,
        None => {
            return Err(Error::InvalidCredentials);
        },
    };
    let ghost idx = choose|i: int| 0 <= i < users.users@.len() && users.users@[i] == user;
    proof {
        assert(users.users@[idx] == user);
        assert forall|j: int|
            0 <= j < users.users@.len() && users.users@[j].email@ == creds.email@ implies j
            == idx by {
            if j < idx {
                assert(users.users@[j].email@ != users.users@[idx].email@);
            } else if idx < j {
                assert(users.users@[idx].email@ != users.users@[j].email@);
            }
        }
    }
    let recovered = match recover_field(mode, user.password_hash.as_str()) {
        Ok(recovered) => recovered,
        Err(e) => {
            if let Error::CryptoFault = e {
                return Err(Error::CryptoFault);
            }
            return Err(Error::InvalidCredentials);
        },
    };
    if !(recovered == creds.password_hash) {
        proof {
            if mode is Disabled {
                assert(recovered@ == user.password_hash@);
                assert(users.users@[idx].password_hash@ != creds.password_hash@);
                assert(login_refused_plain(users.users@, creds.email@, creds.password_hash@));
            }
        }
        return Err(Error::InvalidCredentials);
    }
    proof {
        if mode is Disabled {
            assert(recovered@ == user.password_hash@);
            assert(!login_refused_plain(users.users@, creds.email@, creds.password_hash@));
        }
    }
    let token = match generate_token() {
        Ok(token) => token,
        Err(_) => {
            return Err(Error::CryptoFault);
        },
    };
    let session = Session { token: token.clone(), user_id: user.id };
    insert_binding(sessions, token, user.id);
    proof {
        assert(users.users@[idx].email@ == creds.email@);
        assert(users.users@[idx].id == session.user_id);
    }
    Ok(session)
}

/// Removes the binding for the submitted token.  Idempotent: logging out
/// twice is not an error, and an anonymous token is left as it was.
pub fn logout_handler(sessions: &mut SessionStore, token: &String)
    requires
        old(sessions).wf(),
    ensures
        final(sessions).wf(),
        final(sessions).bindings() == old(sessions).bindings().remove(token@),
{
    remove_binding(sessions, token);
}

} // verus!
