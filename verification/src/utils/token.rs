//! Session tokens: a signed snapshot of who a user is, good for one day.
//!
//! A token carries its claims as a flat JSON object of numbers and strings,
//! signed with the server's secret (HS256). Whether a token is still good is
//! decided here, against an instant that the caller supplies.

use crate::errors::{AuthenticateError, Error};
use crate::models::user::User;
use crate::utils::date::now;
use crate::utils::oid::{hex_lower, is_hex_id, lemma_hex_round_trip, unhex, ObjectId};
use crate::utils::text::{sorts_last, text_before};
use vstd::prelude::*;

verus! {

/// Seconds for which a token is good after it was issued.
pub const TOKEN_LIFETIME_SECONDS: u64 = 86400;

/// Who a token speaks for: the account's identity at the time of issue.
#[derive(Debug, Clone, PartialEq, Eq)]
pub struct TokenUser {
    pub id: ObjectId,
    pub first_name: String,
    pub last_name: String,
    pub email: String,
}

/// What a token asserts: an identity, when it was issued and when it
/// expires, both in seconds since the Unix epoch.
#[derive(Debug, Clone, PartialEq, Eq)]
pub struct Claims {
    pub exp: u64,
    pub iat: u64,
    pub user: TokenUser,
}

/// The content of a [`TokenUser`].
pub struct TokenUserView {
    pub id: Seq<u8>,
    pub first_name: Seq<char>,
    pub last_name: Seq<char>,
    pub email: Seq<char>,
}

/// The content of [`Claims`].
pub struct ClaimsView {
    pub exp: u64,
    pub iat: u64,
    pub user: TokenUserView,
}

impl View for TokenUser {
    type V = TokenUserView;

    open spec fn view(&self) -> TokenUserView {
        TokenUserView {
            id: self.id@,
            first_name: self.first_name@,
            last_name: self.last_name@,
            email: self.email@,
        }
    }
}

impl View for Claims {
    type V = ClaimsView;

    open spec fn view(&self) -> ClaimsView {
        ClaimsView { exp: self.exp, iat: self.iat, user: self.user@ }
    }
}

#[verifier::external_type_specification]
#[verifier::external_body]
pub struct ExJsonValue(serde_json::Value);

#[verifier::external_type_specification]
#[verifier::external_body]
#[verifier::reject_recursive_types(K)]
#[verifier::reject_recursive_types(V)]
pub struct ExJsonMap<K, V>(serde_json::Map<K, V>);

/// The members of a JSON object whose value is a non-negative integer that
/// fits in 64 bits, by key.
pub uninterp spec fn json_numbers(object: serde_json::Map<String, serde_json::Value>) -> Map<
    Seq<char>,
    u64,
>;

/// The members of a JSON object whose value is a string, by key.
pub uninterp spec fn json_texts(object: serde_json::Map<String, serde_json::Value>) -> Map<
    Seq<char>,
    Seq<char>,
>;

/// The names of the members of a JSON object, in the order in which the
/// object writes them out.
pub uninterp spec fn json_keys(object: serde_json::Map<String, serde_json::Value>) -> Seq<
    Seq<char>,
>;

/// The token that `jsonwebtoken::encode` makes, with the default header and
/// `secret` as the key, for claims that hold numbers and strings only: the
/// members named `keys`, in that order, with the values that `numbers` and
/// `texts` give them.
pub uninterp spec fn jwt_token(
    keys: Seq<Seq<char>>,
    numbers: Map<Seq<char>, u64>,
    texts: Map<Seq<char>, Seq<char>>,
    secret: Seq<char>,
) -> Seq<char>;

/// Whether every member of a JSON object is such a number or a string, so
/// that the object holds nothing but what [`json_numbers`] and
/// [`json_texts`] show.
pub uninterp spec fn json_flat(object: serde_json::Map<String, serde_json::Value>) -> bool;

/// What `jsonwebtoken::decode` finds in `token` under `secret` when it checks
/// the HS256 signature and nothing about dates: the number and the string
/// members of the payload, or nothing where the token is malformed or the
/// signature is not the one that `secret` gives.
pub uninterp spec fn jwt_payload(token: Seq<char>, secret: Seq<char>) -> Option<
    (Map<Seq<char>, u64>, Map<Seq<char>, Seq<char>>),
>;

/// No member names.
pub open spec fn no_keys() -> Seq<Seq<char>> {
    Seq::empty()
}

/// No numeric members.
pub open spec fn no_numbers() -> Map<Seq<char>, u64> {
    Map::empty()
}

/// No string members.
pub open spec fn no_texts() -> Map<Seq<char>, Seq<char>> {
    Map::empty()
}

/// `serde_json::Map::new`: an object without members.
#[verifier::external_body]
fn json_new() -> (made: serde_json::Map<String, serde_json::Value>)
    ensures
        json_numbers(made) == no_numbers(),
        json_texts(made) == no_texts(),
        json_keys(made) == no_keys(),
        json_flat(made),
{
    serde_json::Map::new()
}

/// `serde_json::Map::insert` of a number: afterwards `key` holds `n`,
/// whatever it held before, and the other members are as they were. An
/// object of numbers and strings stays one. Where `key` sorts after the
/// name of every member, it is new and becomes the last member; that is so
/// whether the object keeps its members in the order of insertion or in the
/// order of their names.
#[verifier::external_body]
fn json_put_number(object: &mut serde_json::Map<String, serde_json::Value>, key: &str, n: u64)
    ensures
        json_numbers(*final(object)) == json_numbers(*old(object)).insert(key@, n),
        json_texts(*final(object)) == json_texts(*old(object)).remove(key@),
        json_flat(*old(object)) ==> json_flat(*final(object)),
        sorts_last(json_keys(*old(object)), key@) ==> json_keys(*final(object)) == json_keys(
            *old(object),
        ).push(key@),
{
    object.insert(key.to_string(), serde_json::Value::from(n));
}

/// `serde_json::Map::insert` of a string: afterwards `key` holds `text`,
/// whatever it held before, and the other members are as they were. An
/// object of numbers and strings stays one. Where `key` sorts after the
/// name of every member, it is new and becomes the last member; that is so
/// whether the object keeps its members in the order of insertion or in the
/// order of their names.
#[verifier::external_body]
fn json_put_text(object: &mut serde_json::Map<String, serde_json::Value>, key: &str, text: &str)
    ensures
        json_texts(*final(object)) == json_texts(*old(object)).insert(key@, text@),
        json_numbers(*final(object)) == json_numbers(*old(object)).remove(key@),
        json_flat(*old(object)) ==> json_flat(*final(object)),
        sorts_last(json_keys(*old(object)), key@) ==> json_keys(*final(object)) == json_keys(
            *old(object),
        ).push(key@),
{
    object.insert(key.to_string(), serde_json::Value::from(text));
}

/// `serde_json::Map::get` followed by `Value::as_u64`: the number under
/// `key`, if there is a member of that name and it is such a number.
#[verifier::external_body]
fn json_number(object: &serde_json::Map<String, serde_json::Value>, key: &str) -> (number: Option<
    u64,
>)
    ensures
        number == (if json_numbers(*object).contains_key(key@) {
            Some(json_numbers(*object)[key@])
        } else {
            None
        }),
{
    object.get(key).and_then(|value| value.as_u64())
}

/// `serde_json::Map::get` followed by `Value::as_str`: a copy of the string
/// under `key`, if there is a member of that name and it is a string.
#[verifier::external_body]
fn json_text(object: &serde_json::Map<String, serde_json::Value>, key: &str) -> (text: Option<
    String,
>)
    ensures
        text matches Some(found) ==> json_texts(*object).contains_key(key@) && json_texts(
            *object,
        )[key@] == found@,
        text is None ==> !json_texts(*object).contains_key(key@),
{
    object.get(key).and_then(|value| value.as_str()).map(|text| text.to_string())
}

/// `jsonwebtoken::encode` with the default header (HS256) and `secret` as
/// the key, for claims that hold numbers and strings only. For such claims
/// and a secret key nothing in it can fail: the header and the claims
/// serialise, and signing with HMAC has no failure. The token is two parts
/// joined by a dot, so it is never empty; it is fixed by the members of
/// `claims`, their order and the secret; and it decodes under the same
/// secret to the members that `claims` holds. The error, which has no way to
/// arise here, is handed on as its text.
#[verifier::external_body]
fn jwt_encode(claims: &serde_json::Map<String, serde_json::Value>, secret: &str) -> (r: Result<
    String,
    String,
>)
    requires
        json_flat(*claims),
    ensures
        r is Ok,
        r matches Ok(token) ==> token@.len() > 0,
        r matches Ok(token) ==> token@ == jwt_token(
            json_keys(*claims),
            json_numbers(*claims),
            json_texts(*claims),
            secret@,
        ),
        r matches Ok(token) ==> jwt_payload(token@, secret@) == Some(
            (json_numbers(*claims), json_texts(*claims)),
        ),
{
    let key = jsonwebtoken::EncodingKey::from_secret(secret.as_bytes());
    jsonwebtoken::encode(&jsonwebtoken::Header::default(), claims, &key).map_err(
        |error| error.to_string(),
    )
}

/// `jsonwebtoken::decode` for HS256 with `secret` as the key, set to check
/// the signature only: no expiry, no audience, no required claim. The error
/// is dropped.
#[verifier::external_body]
fn jwt_decode(token: &str, secret: &str) -> (claims: Option<
    serde_json::Map<String, serde_json::Value>,
>)
    ensures
        claims matches Some(object) ==> jwt_payload(token@, secret@) == Some(
            (json_numbers(object), json_texts(object)),
        ),
        claims is None ==> jwt_payload(token@, secret@) is None,
{
    let mut rules = jsonwebtoken::Validation::new(jsonwebtoken::Algorithm::HS256);
    rules.validate_exp = false;
    rules.validate_aud = false;
    rules.required_spec_claims.clear();
    let key = jsonwebtoken::DecodingKey::from_secret(secret.as_bytes());
    jsonwebtoken::decode::<serde_json::Map<String, serde_json::Value>>(token, &key, &rules)
        .ok().map(|data| data.claims)
}

/// The seconds since the Unix epoch that a reading of the clock counts as:
/// the reading itself, and zero for a reading before the epoch.
pub open spec fn epoch_seconds(reading: i64) -> u64 {
    if reading < 0 {
        0
    } else {
        reading as u64
    }
}

/// Turns a reading of the clock, in seconds relative to the Unix epoch, into
/// seconds since the epoch; an instant before the epoch counts as the epoch.
pub fn seconds_since_epoch(reading: i64) -> (seconds: u64)
    ensures
        seconds == epoch_seconds(reading),
{
    if reading < 0 {
        0
    } else {
        reading as u64
    }
}

/// The current instant in whole seconds since the Unix epoch; an instant
/// before the epoch counts as the epoch.
pub fn unix_now() -> (seconds: u64)
    ensures
        seconds <= i64::MAX,
{
    seconds_since_epoch(now().timestamp_millis() / 1000)
}

/// The names of the members of the payload that carries claims, in the
/// order in which they are written: the order of the names.
pub open spec fn claims_keys() -> Seq<Seq<char>> {
    seq!["email"@, "exp"@, "first_name"@, "iat"@, "id"@, "last_name"@]
}

/// The token for `claims` under `secret`.
pub open spec fn token_text(claims: ClaimsView, secret: Seq<char>) -> Seq<char> {
    jwt_token(claims_keys(), claims_numbers(claims), claims_texts(claims), secret)
}

/// The numeric members of the payload that carries `claims`.
pub open spec fn claims_numbers(claims: ClaimsView) -> Map<Seq<char>, u64> {
    map!["exp"@ => claims.exp, "iat"@ => claims.iat]
}

/// The string members of the payload that carries `claims`: the identifier
/// in hexadecimal, then the names and the address as they are.
pub open spec fn claims_texts(claims: ClaimsView) -> Map<Seq<char>, Seq<char>> {
    map![
        "id"@ => hex_lower(claims.user.id),
        "first_name"@ => claims.user.first_name,
        "last_name"@ => claims.user.last_name,
        "email"@ => claims.user.email,
    ]
}

/// The claims that a payload carries, if it has all six members and the
/// identifier is well-formed. Members beyond these are ignored.
pub open spec fn claims_read(
    numbers: Map<Seq<char>, u64>,
    texts: Map<Seq<char>, Seq<char>>,
) -> Option<ClaimsView> {
    if numbers.contains_key("exp"@) && numbers.contains_key("iat"@) && texts.contains_key("id"@)
        && texts.contains_key("first_name"@) && texts.contains_key("last_name"@)
        && texts.contains_key("email"@) && is_hex_id(texts["id"@]) {
        Some(
            ClaimsView {
                exp: numbers["exp"@],
                iat: numbers["iat"@],
                user: TokenUserView {
                    id: unhex(texts["id"@]),
                    first_name: texts["first_name"@],
                    last_name: texts["last_name"@],
                    email: texts["email"@],
                },
            },
        )
    } else {
        None
    }
}

/// The claims inside `token`, if `token` is well-formed, signed with
/// `secret` and carries claims. Expiry plays no part here.
pub open spec fn token_claims(token: Seq<char>, secret: Seq<char>) -> Option<ClaimsView> {
    match jwt_payload(token, secret) {
        Some((numbers, texts)) => claims_read(numbers, texts),
        None => None,
    }
}

/// The claims that `token` is accepted with at the instant `now`: those it
/// carries, provided `now` lies strictly before their expiry.
pub open spec fn verified_at(token: Seq<char>, secret: Seq<char>, now: u64) -> Option<ClaimsView> {
    match token_claims(token, secret) {
        Some(claims) => if now < claims.exp {
            Some(claims)
        } else {
            None
        },
        None => None,
    }
}

/// The identity that a token for the stored account `user` carries.
pub open spec fn identity_of(user: User) -> TokenUserView
    recommends
        user.id is Some,
{
    TokenUserView {
        id: user.id->0@,
        first_name: user.first_name@,
        last_name: user.last_name@,
        email: user.email@,
    }
}

/// The claims of a token issued to the stored account `user` at the instant
/// `now`: its identity, `now` as the instant of issue, and an expiry one
/// day later.
pub open spec fn issued_claims(user: User, now: u64) -> ClaimsView
    recommends
        user.id is Some,
        now + TOKEN_LIFETIME_SECONDS <= u64::MAX,
{
    ClaimsView { exp: (now + TOKEN_LIFETIME_SECONDS) as u64, iat: now, user: identity_of(user) }
}

/// Whether `token` is a token for `user` under `secret`: it carries the
/// identity of `user` and expires one day after it was issued.
pub open spec fn issued_for(token: Seq<char>, secret: Seq<char>, user: User) -> bool {
    token_claims(token, secret) matches Some(claims) && claims.exp == claims.iat
        + TOKEN_LIFETIME_SECONDS && claims.user == identity_of(user)
}

/// The six member names are pairwise different.
proof fn lemma_member_names_differ()
    ensures
        "exp"@ != "iat"@,
        "exp"@ != "id"@,
        "exp"@ != "first_name"@,
        "exp"@ != "last_name"@,
        "exp"@ != "email"@,
        "iat"@ != "id"@,
        "iat"@ != "first_name"@,
        "iat"@ != "last_name"@,
        "iat"@ != "email"@,
        "id"@ != "first_name"@,
        "id"@ != "last_name"@,
        "id"@ != "email"@,
        "first_name"@ != "last_name"@,
        "first_name"@ != "email"@,
        "last_name"@ != "email"@,
{
    reveal_strlit("exp");
    reveal_strlit("iat");
    reveal_strlit("id");
    reveal_strlit("first_name");
    reveal_strlit("last_name");
    reveal_strlit("email");
    assert("exp"@[0] == 'e' && "iat"@[0] == 'i' && "id"@[0] == 'i');
    assert("first_name"@[0] == 'f' && "last_name"@[0] == 'l' && "email"@[0] == 'e');
    assert("exp"@.len() == 3 && "iat"@.len() == 3 && "id"@.len() == 2 && "email"@.len() == 5);
}

/// The six member names stand in ascending order in [`claims_keys`].
proof fn lemma_member_names_ascend()
    ensures
        text_before("email"@, "exp"@),
        text_before("email"@, "first_name"@),
        text_before("email"@, "iat"@),
        text_before("email"@, "id"@),
        text_before("email"@, "last_name"@),
        text_before("exp"@, "first_name"@),
        text_before("exp"@, "iat"@),
        text_before("exp"@, "id"@),
        text_before("exp"@, "last_name"@),
        text_before("first_name"@, "iat"@),
        text_before("first_name"@, "id"@),
        text_before("first_name"@, "last_name"@),
        text_before("iat"@, "id"@),
        text_before("iat"@, "last_name"@),
        text_before("id"@, "last_name"@),
{
    reveal_strlit("exp");
    reveal_strlit("iat");
    reveal_strlit("id");
    reveal_strlit("first_name");
    reveal_strlit("last_name");
    reveal_strlit("email");
    reveal_with_fuel(text_before, 3);
    assert("email"@[0] == 'e' && "exp"@[0] == 'e' && "first_name"@[0] == 'f');
    assert("iat"@[0] == 'i' && "id"@[0] == 'i' && "last_name"@[0] == 'l');
    assert("email"@.drop_first()[0] == 'm' && "exp"@.drop_first()[0] == 'x');
    assert("iat"@.drop_first()[0] == 'a' && "id"@.drop_first()[0] == 'd');
}

/// Claims written into a payload are read back unchanged.
pub proof fn lemma_claims_round_trip(claims: ClaimsView)
    requires
        claims.user.id.len() == 12,
    ensures
        claims_read(claims_numbers(claims), claims_texts(claims)) == Some(claims),
{
    lemma_member_names_differ();
    lemma_hex_round_trip(claims.user.id);
}

impl TokenUser {
    /// The identity of a stored account.
    pub fn from(user: User) -> (identity: Self)
        requires
            user.id is Some,
        ensures
            identity.id == user.id->0,
            identity.first_name == user.first_name,
            identity.last_name == user.last_name,
            identity.email == user.email,
    {
        let User {
            id,
            first_name,
            last_name,
            email,
            password: _,
            updated_at: _,
            created_at: _,
            locked_at: _,
        } = user;
        TokenUser { id: id.unwrap(), first_name, last_name, email }
    }

    pub fn duplicate(&self) -> (copy: Self)
        ensures
            copy@ == self@,
            copy.id == self.id,
    {
        TokenUser {
            id: self.id,
            first_name: self.first_name.clone(),
            last_name: self.last_name.clone(),
            email: self.email.clone(),
        }
    }
}

impl Claims {
    /// The claims for `user`, issued at `iat` and expiring one day later.
    pub fn new_at(user: User, iat: u64) -> (claims: Self)
        requires
            user.id is Some,
            iat + TOKEN_LIFETIME_SECONDS <= u64::MAX,
        ensures
            claims.iat == iat,
            claims.exp == iat + TOKEN_LIFETIME_SECONDS,
            claims.user.id == user.id->0,
            claims.user.first_name == user.first_name,
            claims.user.last_name == user.last_name,
            claims.user.email == user.email,
    {
        Claims { exp: iat + TOKEN_LIFETIME_SECONDS, iat, user: TokenUser::from(user) }
    }

    /// The claims for `user`, issued now by the system clock.
    pub fn new(user: User) -> (claims: Self)
        requires
            user.id is Some,
        ensures
            claims.exp == claims.iat + TOKEN_LIFETIME_SECONDS,
            claims.user.id == user.id->0,
            claims.user.first_name == user.first_name,
            claims.user.last_name == user.last_name,
            claims.user.email == user.email,
    {
        Claims::new_at(user, unix_now())
    }
}

/// Writes `claims` as the JSON object that a token carries, member by
/// member in the order of the names.
fn claims_to_json(claims: &Claims) -> (object: serde_json::Map<String, serde_json::Value>)
    ensures
        json_numbers(object) == claims_numbers(claims@),
        json_texts(object) == claims_texts(claims@),
        json_keys(object) == claims_keys(),
        json_flat(object),
{
    proof {
        lemma_member_names_differ();
        lemma_member_names_ascend();
    }
    let mut object = json_new();
    json_put_text(&mut object, "email", claims.user.email.as_str());
    assert(json_keys(object) =~= seq!["email"@]);
    json_put_number(&mut object, "exp", claims.exp);
    assert(json_keys(object) =~= seq!["email"@, "exp"@]);
    json_put_text(&mut object, "first_name", claims.user.first_name.as_str());
    assert(json_keys(object) =~= seq!["email"@, "exp"@, "first_name"@]);
    json_put_number(&mut object, "iat", claims.iat);
    assert(json_keys(object) =~= seq!["email"@, "exp"@, "first_name"@, "iat"@]);
    let id = claims.user.id.to_hex();
    json_put_text(&mut object, "id", id.as_str());
    assert(json_keys(object) =~= seq!["email"@, "exp"@, "first_name"@, "iat"@, "id"@]);
    json_put_text(&mut object, "last_name", claims.user.last_name.as_str());
    assert(json_keys(object) =~= claims_keys());
    assert(json_numbers(object) =~= claims_numbers(claims@));
    assert(json_texts(object) =~= claims_texts(claims@));
    object
}

/// Reads claims out of the JSON object that a token carried.
fn claims_from_json(object: &serde_json::Map<String, serde_json::Value>) -> (claims: Option<Claims>)
    ensures
        match claims_read(json_numbers(*object), json_texts(*object)) {
            Some(read) => claims matches Some(c) && c@ == read,
            None => claims is None,
        },
{
    let exp = json_number(object, "exp");
    let iat = json_number(object, "iat");
    let id = json_text(object, "id");
    let first_name = json_text(object, "first_name");
    let last_name = json_text(object, "last_name");
    let email = json_text(object, "email");
    match (exp, iat, id, first_name, last_name, email) {
        (Some(exp), Some(iat), Some(id), Some(first_name), Some(last_name), Some(email)) => {
            match ObjectId::parse_str(id.as_str()) {
                Ok(id) => Some(Claims { exp, iat, user: TokenUser { id, first_name, last_name, email } }),
                Err(_) => None,
            }
        },
        _ => None,
    }
}

/// Issues a token for `claims`, signed with `secret`. This always succeeds:
/// the token is the one that the claims and the secret fix, it is not
/// empty, and it carries exactly `claims`. The signer has no failure for a
/// secret key; were it to report one, it would come back as
/// [`Error::TokenCreation`].
pub fn sign(claims: &Claims, secret: &str) -> (r: Result<String, Error>)
    ensures
        r matches Ok(token) && token@ == token_text(claims@, secret@) && token@.len() > 0
            && token_claims(token@, secret@) == Some(claims@),
{
    let object = claims_to_json(claims);
    proof {
        lemma_claims_round_trip(claims@);
    }
    match jwt_encode(&object, secret) {
        Ok(token) => Ok(token),
        Err(reason) => Err(Error::TokenCreation(reason)),
    }
}

/// Issues a token for `user` at the instant `now`, in seconds since the
/// epoch, good until one day later. This always succeeds.
pub fn create_at(user: User, secret: &str, now: u64) -> (r: Result<String, Error>)
    requires
        user.id is Some,
        now + TOKEN_LIFETIME_SECONDS <= u64::MAX,
    ensures
        r matches Ok(token) && token@ == token_text(issued_claims(user, now), secret@)
            && token@.len() > 0 && token_claims(token@, secret@) == Some(
            issued_claims(user, now),
        ),
{
    let claims = Claims::new_at(user, now);
    sign(&claims, secret)
}

/// Issues a token for `user` now, good for one day. This always succeeds.
pub fn create(user: User, secret: &str) -> (r: Result<String, Error>)
    requires
        user.id is Some,
    ensures
        r matches Ok(token) && token@.len() > 0 && issued_for(token@, secret@, user),
        exists|now: u64|
            r matches Ok(token) && token@ == #[trigger] token_text(
                issued_claims(user, now),
                secret@,
            ),
{
    create_at(user, secret, unix_now())
}

/// Whether `r` is the outcome owed for `claims`: those claims where there
/// are any, the refusal of the token where there are none.
pub open spec fn admits(r: Result<Claims, Error>, claims: Option<ClaimsView>) -> bool {
    match claims {
        Some(claims) => r matches Ok(found) && found@ == claims,
        None => r matches Err(Error::Authenticate(AuthenticateError::InvalidToken)),
    }
}

/// Decides on the claims that were found in a token, if any were: they are
/// accepted at the instant `now` if `now` lies strictly before their expiry.
/// Claims that have expired and claims that were not found are refused
/// alike.
pub fn admit_claims(found: Option<Claims>, now: u64) -> (r: Result<Claims, Error>)
    ensures
        match found {
            Some(claims) if now < claims.exp => r == Ok::<Claims, Error>(claims),
            _ => r == Err::<Claims, Error>(Error::Authenticate(AuthenticateError::InvalidToken)),
        },
{
    match found {
        Some(claims) => {
            if now < claims.exp {
                Ok(claims)
            } else {
                Err(Error::Authenticate(AuthenticateError::InvalidToken))
            }
        },
        None => Err(Error::Authenticate(AuthenticateError::InvalidToken)),
    }
}

/// Verifies `token` against `secret` at the instant `now`. A token that is
/// malformed, carries another signature, or has reached its expiry is
/// refused, and the refusal does not say which.
pub fn decode_at(token: &str, secret: &str, now: u64) -> (r: Result<Claims, Error>)
    ensures
        admits(r, verified_at(token@, secret@, now)),
{
    let found = match jwt_decode(token, secret) {
        Some(object) => claims_from_json(&object),
        None => None,
    };
    admit_claims(found, now)
}

/// Verifies `token` against `secret` at the instant that the system clock
/// shows.
pub fn decode(token: &str, secret: &str) -> (r: Result<Claims, Error>)
    ensures
        exists|now: u64| admits(r, #[trigger] verified_at(token@, secret@, now)),
{
    decode_at(token, secret, unix_now())
}

/// A token is accepted at every instant strictly before its expiry and at
/// none from its expiry on. For a token issued at `claims.iat` with the
/// standard lifetime, that is the day that starts at the instant of issue.
pub proof fn lemma_token_lifetime(token: Seq<char>, secret: Seq<char>, claims: ClaimsView, now: u64)
    requires
        token_claims(token, secret) == Some(claims),
        claims.exp == claims.iat + TOKEN_LIFETIME_SECONDS,
    ensures
        now < claims.iat + TOKEN_LIFETIME_SECONDS ==> verified_at(token, secret, now) == Some(claims),
        now >= claims.iat + TOKEN_LIFETIME_SECONDS ==> verified_at(token, secret, now) is None,
{
}

/// Issuing is deterministic: two tokens issued for the same claims under
/// the same secret are the same text.
pub proof fn lemma_issuing_is_deterministic(
    first: Seq<char>,
    second: Seq<char>,
    claims: ClaimsView,
    secret: Seq<char>,
)
    requires
        first == token_text(claims, secret),
        second == token_text(claims, secret),
    ensures
        first == second,
{
}

/// A token that does not check out against `secret` is accepted at no
/// instant.
pub proof fn lemma_unsigned_never_verifies(token: Seq<char>, secret: Seq<char>, now: u64)
    requires
        jwt_payload(token, secret) is None,
    ensures
        verified_at(token, secret, now) is None,
{
}

} // verus!
