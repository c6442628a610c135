//! Signing up and signing in.
//!
//! Each endpoint is given twice. The functions on a [`Collection`] of
//! accounts carry a request from beginning to end. The steps they are made
//! of stand on their own as well, for a server that keeps its accounts
//! elsewhere: it asks its store what a step tells it to ask, and hands the
//! answer to the next step.

use crate::errors::{AuthenticateError, Error};
use crate::models::user::{
    bcrypt_verdict, hash_password_with_cost, hash_shaped, is_email, is_valid_email, made_with_cost,
    password_check, verify_password, User, UserFilter,
};
use crate::utils::date::rfc3339_text;
use crate::utils::models::{
    clashes, consistent, first_selected, lemma_first_selected, Collection, ModelExt,
};
use crate::utils::oid::hex_lower;
use crate::utils::token::{create, issued_for};
use vstd::prelude::*;
use vstd::string::StrSliceExecFns;

verus! {

/// Fewest characters a password may have.
pub const MIN_PASSWORD_LENGTH: usize = 8;

/// What a new user submits.
#[derive(Debug, Clone, PartialEq, Eq)]
pub struct SignupRequest {
    pub email: String,
    pub password: String,
    pub first_name: String,
    pub last_name: String,
}

/// What a new user gets back.
#[derive(Debug, Clone, PartialEq, Eq)]
pub struct SignupResponseData {
    pub user_id: String,
    pub email: String,
    pub first_name: String,
    pub last_name: String,
    pub created_at: String,
    pub token: String,
}

#[derive(Debug, Clone, PartialEq, Eq)]
pub struct SignupResponse {
    pub success: bool,
    pub message: String,
    pub data: SignupResponseData,
}

/// The general form of a refusal.
#[derive(Debug, Clone, PartialEq, Eq)]
pub struct ErrorResponse {
    pub success: bool,
    pub message: String,
    pub error: Option<String>,
}

/// What a returning user submits.
#[derive(Debug, Clone, PartialEq, Eq)]
pub struct SigninRequest {
    pub email: String,
    pub password: String,
}

/// What a returning user gets back.
#[derive(Debug, Clone, PartialEq, Eq)]
pub struct SigninResponseData {
    pub user_id: String,
    pub email: String,
    pub first_name: String,
    pub last_name: String,
    pub token: String,
}

#[derive(Debug, Clone, PartialEq, Eq)]
pub struct SigninResponse {
    pub success: bool,
    pub message: String,
    pub data: SigninResponseData,
}

/// Whether an account with the address `email` is among `users`.
pub open spec fn has_email(users: Seq<User>, email: Seq<char>) -> bool {
    exists|i: int| 0 <= i < users.len() && (#[trigger] users[i]).email@ == email
}

/// What a sign-in with `email` and `password` comes to, as far as the
/// accounts decide it.
pub enum Credentials {
    /// No account has the address.
    Unknown,
    /// The account's stored hash cannot be read.
    Unreadable,
    /// The password is not the account's.
    Mismatch,
    /// The password is the account's.
    Granted(User),
}

/// Judges `password` against the account that a search found, if any.
pub open spec fn judge(found: Option<User>, password: Seq<char>) -> Credentials {
    match found {
        None => Credentials::Unknown,
        Some(user) => match bcrypt_verdict(password, user.password@) {
            None => Credentials::Unreadable,
            Some(false) => Credentials::Mismatch,
            Some(true) => Credentials::Granted(user),
        },
    }
}

impl SignupRequest {
    /// What is wrong with the request, if anything: the first of an
    /// unacceptable address, a password of fewer than eight characters, and
    /// an empty first or last name.
    pub open spec fn fault(self) -> Option<Seq<char>> {
        self.fault_with(is_email(self.email@))
    }

    /// What is wrong with the request, given whether its address is
    /// acceptable.
    pub open spec fn fault_with(self, email_ok: bool) -> Option<Seq<char>> {
        if !email_ok {
            Some("Invalid email address"@)
        } else if self.password@.len() < MIN_PASSWORD_LENGTH {
            Some("Password must be at least 8 characters long"@)
        } else if self.first_name@.len() < 1 {
            Some("First name must not be empty"@)
        } else if self.last_name@.len() < 1 {
            Some("Last name must not be empty"@)
        } else {
            None
        }
    }

    /// Refuses a request that has a fault, with the fault as the message.
    pub fn validate(&self) -> (r: Result<(), Error>)
        ensures
            match self.fault() {
                Some(fault) => r matches Err(Error::BadRequest(refusal)) && refusal.message@
                    == fault,
                None => r is Ok,
            },
    {
        self.validate_with(is_valid_email(self.email.as_str()))
    }

    /// Refuses a request that has a fault, given whether its address is
    /// acceptable.
    pub fn validate_with(&self, email_ok: bool) -> (r: Result<(), Error>)
        ensures
            match self.fault_with(email_ok) {
                Some(fault) => r matches Err(Error::BadRequest(refusal)) && refusal.message@
                    == fault,
                None => r is Ok,
            },
    {
        if !email_ok {
            Err(Error::bad_request_with_message("Invalid email address".to_owned()))
        } else if self.password.as_str().unicode_len() < MIN_PASSWORD_LENGTH {
            Err(
                Error::bad_request_with_message(
                    "Password must be at least 8 characters long".to_owned(),
                ),
            )
        } else if self.first_name.as_str().unicode_len() < 1 {
            Err(Error::bad_request_with_message("First name must not be empty".to_owned()))
        } else if self.last_name.as_str().unicode_len() < 1 {
            Err(Error::bad_request_with_message("Last name must not be empty".to_owned()))
        } else {
            Ok(())
        }
    }
}

impl SignupResponse {
    /// Whether this is the answer that presents the stored account `user`
    /// together with `token`, which is not empty.
    pub open spec fn presents(self, user: User, token: Seq<char>) -> bool {
        &&& self.success
        &&& self.message@ == "User registered successfully"@
        &&& token.len() > 0
        &&& self.data.user_id@ == hex_lower(user.id->0@)
        &&& self.data.email@ == user.email@
        &&& self.data.first_name@ == user.first_name@
        &&& self.data.last_name@ == user.last_name@
        &&& self.data.created_at@ == rfc3339_text(user.created_at.millis)
        &&& self.data.token@ == token
    }
}

impl SigninResponse {
    /// Whether this is the answer that presents the stored account `user`
    /// together with `token`, which is not empty.
    pub open spec fn presents(self, user: User, token: Seq<char>) -> bool {
        &&& self.success
        &&& self.message@ == "User signed in successfully"@
        &&& token.len() > 0
        &&& self.data.user_id@ == hex_lower(user.id->0@)
        &&& self.data.email@ == user.email@
        &&& self.data.first_name@ == user.first_name@
        &&& self.data.last_name@ == user.last_name@
        &&& self.data.token@ == token
    }
}

/// First step of a sign-up: says which account to look for, namely one
/// that already has the address. The request is not checked yet, so that a
/// taken address is found whatever else the request holds.
pub fn signup_lookup(payload: &SignupRequest) -> (filter: UserFilter)
    ensures
        filter.email@ == payload.email@,
{
    UserFilter { email: payload.email.clone() }
}

/// Whether `user` is the account that the request `payload` asks for, not
/// stored yet: the names and the address of the request, and in place of
/// the password a hash made with the work factor `cost` that the password
/// verifies against.
pub open spec fn enrolls(user: User, payload: SignupRequest, cost: u32) -> bool {
    &&& user.id is None
    &&& user.first_name@ == payload.first_name@
    &&& user.last_name@ == payload.last_name@
    &&& user.email@ == payload.email@
    &&& hash_shaped(user.password@)
    &&& made_with_cost(user.password@, cost)
    &&& bcrypt_verdict(payload.password@, user.password@) == Some(true)
    &&& user.updated_at == user.created_at
    &&& user.locked_at is None
}

/// Second step of a sign-up: given what the search for the address found,
/// makes the account to store. An address that is taken is refused first,
/// whatever else the request holds; then a request with a fault is refused.
/// The password is hashed with the work factor `cost`; the account never
/// holds the password itself.
pub fn signup_account(payload: SignupRequest, existing: Option<User>, cost: u32) -> (r: Result<
    User,
    Error,
>)
    ensures
        existing is Some ==> (r matches Err(Error::BadRequest(refusal)) && refusal.message@
            == "Email already registered"@),
        existing is None && payload.fault() is Some ==> (r matches Err(Error::BadRequest(refusal))
            && refusal.message@ == payload.fault()->0),
        existing is None && payload.fault() is None ==> (r matches Err(Error::HashPassword(_)) || (
        r matches Ok(user) && enrolls(user, payload, cost))),
{
    if existing.is_some() {
        return Err(Error::bad_request_with_message("Email already registered".to_owned()));
    }
    match payload.validate() {
        Err(error) => {
            return Err(error);
        },
        Ok(()) => {},
    }
    match hash_password_with_cost(payload.password.as_str(), cost) {
        Err(error) => Err(error),
        Ok(password_hash) => {
            let SignupRequest { email, password: _, first_name, last_name } = payload;
            Ok(User::new(first_name, last_name, email, password_hash))
        },
    }
}

/// What a store answered when it was asked to keep a new account.
#[derive(Debug, Clone, PartialEq, Eq)]
pub enum InsertOutcome {
    /// The account was stored, and this is it as stored.
    Stored(User),
    /// The store refused the account because its address is taken: another
    /// sign-up with the same address got there first.
    Duplicate,
    /// The store failed in some other way.
    Failed(Error),
}

/// Third step of a sign-up: reads the answer of the store. An address that
/// turned out to be taken at this point is refused exactly as one that was
/// found taken before; any other failure of the store is handed on.
pub fn signup_stored(outcome: InsertOutcome) -> (r: Result<User, Error>)
    ensures
        match outcome {
            InsertOutcome::Stored(user) => r == Ok::<User, Error>(user),
            InsertOutcome::Duplicate => r matches Err(Error::BadRequest(refusal))
                && refusal.message@ == "Email already registered"@,
            InsertOutcome::Failed(error) => r == Err::<User, Error>(error),
        },
{
    match outcome {
        InsertOutcome::Stored(user) => Ok(user),
        InsertOutcome::Duplicate => Err(
            Error::bad_request_with_message("Email already registered".to_owned()),
        ),
        InsertOutcome::Failed(error) => Err(error),
    }
}

/// Last step of a sign-up: issues the token for the account as it was
/// stored and puts the answer together. This always succeeds.
pub fn signup_response(created: User, secret: &str) -> (r: Result<SignupResponse, Error>)
    requires
        created.id is Some,
    ensures
        r matches Ok(response) && response.presents(created, response.data.token@) && issued_for(
            response.data.token@,
            secret@,
            created,
        ),
{
    let public = created.to_public();
    match create(created, secret) {
        Err(error) => Err(error),
        Ok(token) => Ok(
            SignupResponse {
                success: true,
                message: "User registered successfully".to_owned(),
                data: SignupResponseData {
                    user_id: public.id.to_hex(),
                    email: public.email,
                    first_name: public.first_name,
                    last_name: public.last_name,
                    created_at: public.created_at.to_rfc3339(),
                    token,
                },
            },
        ),
    }
}

/// Turns the outcome of a password check into the decision on a sign-in: a
/// match lets the sign-in go on, a mismatch is refused as wrong credentials,
/// and a failure of the check is handed on.
pub fn require_match(checked: Result<bool, Error>) -> (r: Result<(), Error>)
    ensures
        match checked {
            Ok(true) => r is Ok,
            Ok(false) => r == Err::<(), Error>(
                Error::Authenticate(AuthenticateError::WrongCredentials),
            ),
            Err(error) => r == Err::<(), Error>(error),
        },
{
    match checked {
        Ok(true) => Ok(()),
        Ok(false) => Err(Error::unauthorized_with_message("Invalid email or password".to_owned())),
        Err(error) => Err(error),
    }
}

/// First step of a sign-in: says which account to look for.
pub fn signin_lookup(payload: &SigninRequest) -> (filter: UserFilter)
    ensures
        filter.email@ == payload.email@,
{
    UserFilter { email: payload.email.clone() }
}

/// Last step of a sign-in: judges the password against the account that the
/// search found, and issues the token. An unknown address and a wrong
/// password are refused alike.
pub fn signin_response(payload: &SigninRequest, found: Option<User>, secret: &str) -> (r: Result<
    SigninResponse,
    Error,
>)
    requires
        found matches Some(user) ==> user.id is Some,
    ensures
        match judge(found, payload.password@) {
            Credentials::Unknown => r matches Err(
                Error::Authenticate(AuthenticateError::WrongCredentials),
            ),
            Credentials::Mismatch => r matches Err(
                Error::Authenticate(AuthenticateError::WrongCredentials),
            ),
            Credentials::Unreadable => r matches Err(Error::InvalidPassword(reason))
                && reason@ == "Invalid password"@,
            Credentials::Granted(user) => r matches Ok(response) && response.presents(
                user,
                response.data.token@,
            ) && issued_for(response.data.token@, secret@, user),
        },
{
    let user = match found {
        Some(user) => user,
        None => {
            return Err(Error::unauthorized_with_message("Invalid email or password".to_owned()));
        },
    };
    match require_match(verify_password(payload.password.as_str(), user.password.as_str())) {
        Err(error) => {
            return Err(error);
        },
        Ok(()) => {},
    }
    let public = user.to_public();
    match create(user, secret) {
        Err(error) => Err(error),
        Ok(token) => Ok(
            SigninResponse {
                success: true,
                message: "User signed in successfully".to_owned(),
                data: SigninResponseData {
                    user_id: public.id.to_hex(),
                    email: public.email,
                    first_name: public.first_name,
                    last_name: public.last_name,
                    token,
                },
            },
        ),
    }
}

/// Whether `after` is `before` with one more account, the one that
/// `payload` asks for, hashed with the work factor `cost` and stored under
/// a fresh identifier.
pub open spec fn enrolled(
    before: Seq<User>,
    after: Seq<User>,
    payload: SignupRequest,
    cost: u32,
) -> bool {
    &&& after.len() == before.len() + 1
    &&& after.drop_last() == before
    &&& after.last().id is Some
    &&& enrolls(User { id: None, ..after.last() }, payload, cost)
}

/// Signs a new user up: refuses an address that is taken, checks the
/// request, stores the account with the hash of the password, and issues
/// the first token.
///
/// A taken address is refused whatever else the request holds. Nothing is
/// stored unless the address is free and the request is in order; and then
/// the sign-up succeeds unless the hasher fails or the collection is full.
pub fn signup(users: &mut Collection<User>, payload: SignupRequest, secret: &str, cost: u32) -> (r:
    Result<SignupResponse, Error>)
    requires
        old(users).wf(),
    ensures
        final(users).wf(),
        final(users).declared() == old(users).declared(),
        has_email(old(users)@, payload.email@) ==> (r matches Err(Error::BadRequest(refusal))
            && refusal.message@ == "Email already registered"@),
        !has_email(old(users)@, payload.email@) && payload.fault() is Some ==> (r matches Err(
            Error::BadRequest(refusal),
        ) && refusal.message@ == payload.fault()->0),
        !has_email(old(users)@, payload.email@) && payload.fault() is None ==> (r is Ok
            || r matches Err(Error::HashPassword(_)) || (r matches Err(Error::Wither(_)) && old(
            users,
        )@.len() >= usize::MAX)),
        r matches Ok(response) ==> enrolled(old(users)@, final(users)@, payload, cost)
            && response.presents(final(users)@.last(), response.data.token@) && issued_for(
            response.data.token@,
            secret@,
            final(users)@.last(),
        ),
        r is Err ==> final(users)@ == old(users)@,
{
    let ghost before = users@;
    let filter = signup_lookup(&payload);
    let existing = users.find_one(&filter);
    proof {
        lemma_first_selected(before, &filter);
        if existing is None {
            assert forall|i: int| 0 <= i < before.len() implies (#[trigger] before[i]).email@
                != payload.email@ by {
                assert(!before[i].selected(&filter));
            }
        } else {
            let i = choose|i: int|
                0 <= i < before.len() && #[trigger] before[i] == existing->0 && existing->0.selected(
                    &filter,
                );
            assert(before[i].email@ == payload.email@);
        }
    }
    let user = match signup_account(payload, existing, cost) {
        Ok(user) => user,
        Err(error) => {
            return Err(error);
        },
    };
    assert(!clashes(before, user)) by {
        if clashes(before, user) {
            let i = choose|i: int|
                0 <= i < before.len() && (#[trigger] before[i]).unique_of() == user.unique_of();
            assert(before[i].email@ == payload.email@);
        }
    }
    let outcome = match users.create(user) {
        Ok(created) => InsertOutcome::Stored(created),
        Err(error) => InsertOutcome::Failed(error),
    };
    let created = match signup_stored(outcome) {
        Ok(created) => created,
        Err(error) => {
            return Err(error);
        },
    };
    proof {
        assert(users@.drop_last() =~= before);
        assert(users@.last() == created);
        assert(created == user.identified(created.id->0));
        assert((User { id: None, ..created }) == user);
    }
    signup_response(created, secret)
}

/// Signs a returning user in: finds the account by its address, judges the
/// password, and issues a token. Nothing is stored or changed.
pub fn signin(users: &Collection<User>, payload: &SigninRequest, secret: &str) -> (r: Result<
    SigninResponse,
    Error,
>)
    requires
        users.wf(),
    ensures
        match judge(
            first_selected(users@, &UserFilter { email: payload.email }),
            payload.password@,
        ) {
            Credentials::Unknown => r matches Err(
                Error::Authenticate(AuthenticateError::WrongCredentials),
            ),
            Credentials::Mismatch => r matches Err(
                Error::Authenticate(AuthenticateError::WrongCredentials),
            ),
            Credentials::Unreadable => r matches Err(Error::InvalidPassword(reason))
                && reason@ == "Invalid password"@,
            Credentials::Granted(user) => r matches Ok(response) && response.presents(
                user,
                response.data.token@,
            ) && issued_for(response.data.token@, secret@, user),
        },
{
    let filter = signin_lookup(payload);
    let found = users.find_one(&filter);
    proof {
        lemma_same_search(users@, &filter, &UserFilter { email: payload.email });
        lemma_first_selected(users@, &filter);
    }
    signin_response(payload, found, secret)
}

/// Two searches for the same address find the same account.
pub proof fn lemma_same_search(users: Seq<User>, a: &UserFilter, b: &UserFilter)
    requires
        a.email@ == b.email@,
    ensures
        first_selected(users, a) == first_selected(users, b),
    decreases users.len(),
{
    if users.len() > 0 && !users[0].selected(a) {
        lemma_same_search(users.drop_first(), a, b);
    }
}

/// After a sign-up the password that was submitted signs in: the search for
/// the address finds the new account and the password is judged to be its
/// own. And the account does not hold the password itself, unless the
/// password was chosen to look like a hash.
pub proof fn lemma_signup_then_signin(
    before: Seq<User>,
    after: Seq<User>,
    payload: SignupRequest,
    cost: u32,
    filter: &UserFilter,
)
    requires
        consistent(after),
        enrolled(before, after, payload, cost),
        filter.email@ == payload.email@,
    ensures
        judge(first_selected(after, filter), payload.password@) == Credentials::Granted(
            after.last(),
        ),
        !hash_shaped(payload.password@) ==> after.last().password@ != payload.password@,
{
    let account = after.last();
    lemma_first_selected(after, filter);
    assert(account.selected(filter));
    let found = first_selected(after, filter)->0;
    let i = choose|i: int|
        0 <= i < after.len() && #[trigger] after[i] == found && found.selected(filter);
    if i < after.len() - 1 {
        assert(after[i].unique_of() is Some);
        assert(after[i].unique_of() != after[after.len() - 1].unique_of());
    }
}

} // verus!
