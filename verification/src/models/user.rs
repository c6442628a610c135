//! Accounts, and the hashing of their passwords.

use crate::errors::Error;
use crate::utils::date::{now, Date};
use crate::utils::models::{index_views, IndexModel, IndexView, ModelExt};
use crate::utils::oid::ObjectId;
use crate::utils::text::{digit_char, str_eq};
use vstd::prelude::*;
use vstd::string::StrSliceExecFns;

verus! {

/// The work factor used for hashing when none is configured.
pub const DEFAULT_COST: u32 = 12;

/// The lowest work factor that the hasher takes.
pub const MIN_COST: u32 = 4;

/// The highest work factor that the hasher takes.
pub const MAX_COST: u32 = 31;

/// Number of characters in a password hash.
pub const HASH_LENGTH: usize = 60;

/// An account as it is stored. `password` holds the hash of the password,
/// never the password itself.
#[derive(Debug, Clone, PartialEq, Eq)]
pub struct User {
    pub id: Option<ObjectId>,
    pub first_name: String,
    pub last_name: String,
    pub email: String,
    pub password: String,
    pub updated_at: Date,
    pub created_at: Date,
    pub locked_at: Option<Date>,
}

/// An account as a client sees it: everything but the password hash and the
/// lock.
#[derive(Debug, Clone, PartialEq, Eq)]
pub struct PublicUser {
    pub id: ObjectId,
    pub first_name: String,
    pub last_name: String,
    pub email: String,
    pub updated_at: Date,
    pub created_at: Date,
}

/// A search for the account with a given e-mail address.
#[derive(Debug, Clone, PartialEq, Eq)]
pub struct UserFilter {
    pub email: String,
}

#[verifier::external_type_specification]
#[verifier::external_body]
pub struct ExBcryptError(bcrypt::BcryptError);

/// What `bcrypt::verify` finds for a password and a stored hash: whether they
/// match, or nothing where the hash is malformed.
pub uninterp spec fn bcrypt_verdict(password: Seq<char>, hash: Seq<char>) -> Option<bool>;

/// Whether `validator::validate_email` accepts `address`.
pub uninterp spec fn is_email(address: Seq<char>) -> bool;

/// Whether `text` has the outward shape of a password hash: sixty characters
/// that begin with the marker of the hashing scheme.
pub open spec fn hash_shaped(text: Seq<char>) -> bool {
    text.len() == HASH_LENGTH && text.subrange(0, 4) == "$2b$"@
}

/// Whether `hash` names `cost` as the work factor it was made with: the two
/// characters after the marker of the scheme are the two decimal digits of
/// `cost`.
pub open spec fn made_with_cost(hash: Seq<char>, cost: u32) -> bool {
    &&& hash.len() == HASH_LENGTH
    &&& hash[4] == digit_char((cost / 10) as nat)
    &&& hash[5] == digit_char((cost % 10) as nat)
}

/// `bcrypt::hash`: a fresh salted hash of `password`. The salt is random, so
/// the hash differs from call to call; every hash it returns has the shape
/// `$2b$`, two digits of cost, `$`, and fifty-three characters of salt and
/// digest, and `bcrypt::verify` accepts the password against it. The two
/// digits are those of `cost`. A cost outside the range that the hasher
/// takes is an error.
#[verifier::external_body]
fn bcrypt_hash(password: &str, cost: u32) -> (r: Result<String, bcrypt::BcryptError>)
    ensures
        r matches Ok(hash) ==> hash_shaped(hash@) && bcrypt_verdict(password@, hash@) == Some(
            true,
        ),
        r matches Ok(hash) ==> made_with_cost(hash@, cost),
        !(MIN_COST <= cost <= MAX_COST) ==> r is Err,
{
    bcrypt::hash(password, cost)
}

/// `bcrypt::verify`: hashes `password` with the salt and cost found in `hash`
/// and compares; an error where `hash` cannot be taken apart.
#[verifier::external_body]
fn bcrypt_verify(password: &str, hash: &str) -> (r: Result<bool, bcrypt::BcryptError>)
    ensures
        r matches Ok(matched) ==> bcrypt_verdict(password@, hash@) == Some(matched),
        r is Err ==> bcrypt_verdict(password@, hash@) is None,
{
    bcrypt::verify(password, hash)
}

/// The `Display` text of a `bcrypt::BcryptError`.
#[verifier::external_body]
fn bcrypt_error_text(error: &bcrypt::BcryptError) -> String {
    error.to_string()
}

/// `validator::validate_email` on `address`.
#[verifier::external_body]
fn validator_email(address: &str) -> (valid: bool)
    ensures
        valid == is_email(address@),
{
    validator::validate_email(address)
}

/// Tells whether `text` has the outward shape of a password hash.
pub fn is_hash_shaped(text: &str) -> (shaped: bool)
    ensures
        shaped == hash_shaped(text@),
{
    if text.unicode_len() != HASH_LENGTH {
        return false;
    }
    str_eq(text.substring_char(0, 4), "$2b$")
}

/// Tells whether `address` is an acceptable e-mail address.
pub fn is_valid_email(address: &str) -> (valid: bool)
    ensures
        valid == is_email(address@),
{
    validator_email(address)
}

impl User {
    /// An account that has not been stored yet, made at the instant `at`.
    pub open spec fn fresh(
        first_name: String,
        last_name: String,
        email: String,
        password_hash: String,
        at: Date,
    ) -> User {
        User {
            id: None,
            first_name,
            last_name,
            email,
            password: password_hash,
            updated_at: at,
            created_at: at,
            locked_at: None,
        }
    }

    /// Whether the account may be stored: both names are non-empty, the
    /// e-mail address is acceptable, and the password field holds what has
    /// the shape of a hash.
    pub open spec fn valid(self) -> bool {
        &&& self.first_name@.len() >= 1
        &&& self.last_name@.len() >= 1
        &&& is_email(self.email@)
        &&& hash_shaped(self.password@)
    }

    /// A new account dated `at`. `password_hash` is the hash of the password.
    pub fn new_at(
        first_name: String,
        last_name: String,
        email: String,
        password_hash: String,
        at: Date,
    ) -> (user: Self)
        ensures
            user == User::fresh(first_name, last_name, email, password_hash, at),
    {
        User {
            id: None,
            first_name,
            last_name,
            email,
            password: password_hash,
            updated_at: at,
            created_at: at,
            locked_at: None,
        }
    }

    /// A new account dated by the system clock. `password_hash` is the hash
    /// of the password.
    pub fn new(first_name: String, last_name: String, email: String, password_hash: String) -> (user:
        Self)
        ensures
            user == User::fresh(first_name, last_name, email, password_hash, user.created_at),
    {
        User::new_at(first_name, last_name, email, password_hash, now())
    }

    /// Tells whether the account may be stored, given whether its e-mail
    /// address is acceptable.
    pub fn is_valid_with(&self, email_ok: bool) -> (valid: bool)
        ensures
            valid == (self.first_name@.len() >= 1 && self.last_name@.len() >= 1 && email_ok
                && hash_shaped(self.password@)),
    {
        self.first_name.as_str().unicode_len() >= 1 && self.last_name.as_str().unicode_len() >= 1
            && email_ok && is_hash_shaped(self.password.as_str())
    }

    /// Tells whether the account may be stored.
    pub fn is_valid(&self) -> (valid: bool)
        ensures
            valid == self.valid(),
    {
        self.is_valid_with(is_valid_email(self.email.as_str()))
    }

    /// Whether `password` is the password of this account. A stored hash that
    /// cannot be read counts as no match.
    pub fn is_password_match(&self, password: &str) -> (matched: bool)
        ensures
            matched == (bcrypt_verdict(password@, self.password@) == Some(true)),
    {
        match bcrypt_verify(password, self.password.as_str()) {
            Ok(matched) => matched,
            Err(_) => false,
        }
    }

    /// The public form of a stored account.
    pub open spec fn public(self) -> PublicUser
        recommends
            self.id is Some,
    {
        PublicUser {
            id: self.id->0,
            first_name: self.first_name,
            last_name: self.last_name,
            email: self.email,
            updated_at: self.updated_at,
            created_at: self.created_at,
        }
    }
}

impl User {
    /// A copy of the account.
    pub fn duplicate(&self) -> (copy: Self)
        ensures
            copy == *self,
    {
        User {
            id: self.id,
            first_name: self.first_name.clone(),
            last_name: self.last_name.clone(),
            email: self.email.clone(),
            password: self.password.clone(),
            updated_at: self.updated_at,
            created_at: self.created_at,
            locked_at: self.locked_at,
        }
    }

    /// The public form of an account that has been stored.
    pub fn to_public(&self) -> (public: PublicUser)
        requires
            self.id is Some,
        ensures
            public == self.public(),
    {
        PublicUser::from(self.duplicate())
    }
}

impl ModelExt for User {
    type Filter = UserFilter;

    open spec fn id_of(&self) -> Option<ObjectId> {
        self.id
    }

    open spec fn created_of(&self) -> Date {
        self.created_at
    }

    /// No two accounts share an e-mail address.
    open spec fn unique_of(&self) -> Option<Seq<char>> {
        Some(self.email@)
    }

    open spec fn storable(&self) -> bool {
        self.valid()
    }

    open spec fn selected(&self, filter: &UserFilter) -> bool {
        self.email@ == filter.email@
    }

    open spec fn identified(self, id: ObjectId) -> User {
        User { id: Some(id), ..self }
    }

    open spec fn collection_of() -> Seq<char> {
        "users"@
    }

    /// One index, on the e-mail address, which forbids duplicates.
    open spec fn index_specs() -> Seq<IndexView> {
        seq![IndexView { keys: seq!["email"@], unique: true }]
    }

    proof fn lemma_identified(self, id: ObjectId) {
    }

    fn collection_name() -> &'static str {
        "users"
    }

    fn indexes() -> Vec<IndexModel> {
        let list = vec![IndexModel { keys: vec!["email"], unique: true }];
        proof {
            assert(list@[0]@.keys =~= seq!["email"@]);
            assert(index_views(list@) =~= Self::index_specs());
        }
        list
    }

    fn created_at(&self) -> Date {
        self.created_at
    }

    fn clashes_with(&self, other: &Self) -> bool {
        str_eq(self.email.as_str(), other.email.as_str())
    }

    fn is_storable(&self) -> bool {
        self.is_valid()
    }

    fn is_selected(&self, filter: &UserFilter) -> bool {
        str_eq(self.email.as_str(), filter.email.as_str())
    }

    fn with_id(self, id: ObjectId) -> User {
        let User { id: _, first_name, last_name, email, password, updated_at, created_at, locked_at } =
            self;
        User { id: Some(id), first_name, last_name, email, password, updated_at, created_at, locked_at }
    }

    fn copy(&self) -> User {
        self.duplicate()
    }
}

impl PublicUser {
    /// The public form of an account that has been stored, and so has an
    /// identifier.
    pub fn from(user: User) -> (public: Self)
        requires
            user.id is Some,
        ensures
            public == user.public(),
    {
        let User { id, first_name, last_name, email, password: _, updated_at, created_at, locked_at: _ } =
            user;
        PublicUser { id: id.unwrap(), first_name, last_name, email, updated_at, created_at }
    }
}

/// Hashes `password` with the work factor `cost`. Whatever hash comes back
/// has the shape of a hash, names `cost`, and is accepted for `password` by
/// [`verify_password`]; a failure of the hasher, which a work factor outside
/// its range always is, is reported as [`Error::HashPassword`].
pub fn hash_password_with_cost(password: &str, cost: u32) -> (r: Result<String, Error>)
    ensures
        r matches Ok(hash) ==> hash_shaped(hash@) && bcrypt_verdict(password@, hash@) == Some(
            true,
        ),
        r matches Ok(hash) ==> made_with_cost(hash@, cost),
        r is Err ==> r matches Err(Error::HashPassword(_)),
        !(MIN_COST <= cost <= MAX_COST) ==> r is Err,
{
    match bcrypt_hash(password, cost) {
        Ok(hash) => Ok(hash),
        Err(error) => Err(Error::HashPassword(bcrypt_error_text(&error))),
    }
}

/// Hashes `password` with the default work factor, which the hash then
/// names.
pub fn hash_password(password: &str) -> (r: Result<String, Error>)
    ensures
        r matches Ok(hash) ==> hash_shaped(hash@) && bcrypt_verdict(password@, hash@) == Some(
            true,
        ),
        r matches Ok(hash) ==> made_with_cost(hash@, DEFAULT_COST),
        r is Err ==> r matches Err(Error::HashPassword(_)),
{
    hash_password_with_cost(password, DEFAULT_COST)
}

/// What checking `password` against `hash` comes to: the verdict of the
/// hasher, or an invalid-password failure where the hash cannot be read.
pub open spec fn password_check(password: Seq<char>, hash: Seq<char>) -> Result<bool, Seq<char>> {
    match bcrypt_verdict(password, hash) {
        Some(matched) => Ok(matched),
        None => Err("Invalid password"@),
    }
}

/// Reports what the hasher found: a verdict is handed on as it is, and the
/// lack of one, which means that the stored hash could not be read, is an
/// invalid-password failure.
pub fn password_outcome(verdict: Option<bool>) -> (r: Result<bool, Error>)
    ensures
        match verdict {
            Some(matched) => r == Ok::<bool, Error>(matched),
            None => r matches Err(Error::InvalidPassword(text)) && text@ == "Invalid password"@,
        },
{
    match verdict {
        Some(matched) => Ok(matched),
        None => Err(Error::InvalidPassword("Invalid password".to_owned())),
    }
}

/// Checks `password` against the stored `hash`. A password that does not
/// match is an ordinary `false`; only a malformed hash is a failure.
pub fn verify_password(password: &str, hash: &str) -> (r: Result<bool, Error>)
    ensures
        match password_check(password@, hash@) {
            Ok(matched) => r == Ok::<bool, Error>(matched),
            Err(reason) => r matches Err(Error::InvalidPassword(text)) && text@ == reason,
        },
{
    match bcrypt_verify(password, hash) {
        Ok(matched) => password_outcome(Some(matched)),
        Err(_) => password_outcome(None),
    }
}

/// A hash never equals a password that does not itself look like a hash.
pub proof fn lemma_hash_differs_from_password(password: Seq<char>, hash: Seq<char>)
    requires
        hash_shaped(hash),
        !hash_shaped(password),
    ensures
        hash != password,
{
}

} // verus!
