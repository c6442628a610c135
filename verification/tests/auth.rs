use mood_api::errors::{AuthenticateError, BadRequest, Error};
use mood_api::models::user::{User, UserFilter};
use mood_api::routes::auth::{
    require_match, signin, signin_lookup, signin_response, signup, signup_account,
    signup_lookup, signup_response, signup_stored, InsertOutcome, SigninRequest, SignupRequest,
};
use mood_api::utils::date::Date;
use mood_api::utils::models::{serial_id, Collection};
use mood_api::utils::token::decode;

const SECRET: &str = "a secret for the tests";
const COST: u32 = 4;

fn request(email: &str, password: &str, first: &str, last: &str) -> SignupRequest {
    SignupRequest {
        email: email.to_string(),
        password: password.to_string(),
        first_name: first.to_string(),
        last_name: last.to_string(),
    }
}

fn credentials(email: &str, password: &str) -> SigninRequest {
    SigninRequest { email: email.to_string(), password: password.to_string() }
}

fn refusal(message: &str) -> Error {
    Error::BadRequest(BadRequest { message: message.to_string() })
}

fn wrong_credentials() -> Error {
    Error::Authenticate(AuthenticateError::WrongCredentials)
}

#[test]
fn end_to_end_signup_and_signin() {
    let mut users = Collection::new();
    let response =
        signup(&mut users, request("a@b.com", "password1", "A", "B"), SECRET, COST).unwrap();
    assert!(response.success);
    assert_eq!(response.message, "User registered successfully");
    assert!(!response.data.token.is_empty());
    assert_eq!(response.data.email, "a@b.com");
    assert_eq!(response.data.first_name, "A");
    assert_eq!(response.data.last_name, "B");
    assert_eq!(response.data.user_id, "000000000000000000000000");
    assert_eq!(users.len(), 1);

    let again = signup(&mut users, request("a@b.com", "password1", "A", "B"), SECRET, COST);
    assert_eq!(again, Err(refusal("Email already registered")));
    assert_eq!(again.unwrap_err().get_codes(), (400, 40002));
    assert_eq!(users.len(), 1);

    let wrong = signin(&users, &credentials("a@b.com", "wrong"), SECRET);
    assert_eq!(wrong, Err(wrong_credentials()));
    assert_eq!(wrong.unwrap_err().get_codes(), (401, 40004));

    let back = signin(&users, &credentials("a@b.com", "password1"), SECRET).unwrap();
    assert!(back.success);
    assert_eq!(back.message, "User signed in successfully");
    assert_eq!(back.data.user_id, response.data.user_id);
    assert_eq!(back.data.email, "a@b.com");
    assert_eq!(back.data.first_name, "A");
    assert_eq!(back.data.last_name, "B");
    let claims = decode(&back.data.token, SECRET).unwrap();
    assert_eq!(claims.user.id, serial_id(0));
    assert_eq!(claims.user.email, "a@b.com");
}

#[test]
fn the_stored_account_holds_a_hash_not_the_password() {
    let mut users = Collection::new();
    signup(&mut users, request("a@b.com", "password1", "A", "B"), SECRET, COST).unwrap();
    let stored = users.find_one(&UserFilter { email: "a@b.com".to_string() }).unwrap();
    assert_ne!(stored.password, "password1");
    assert!(stored.password.starts_with("$2b$"));
    assert_eq!(stored.password.len(), 60);
    assert!(stored.is_password_match("password1"));
    assert_eq!(stored.id, Some(serial_id(0)));
    assert_eq!(stored.created_at, stored.updated_at);
    assert_eq!(stored.locked_at, None);
}

#[test]
fn the_signup_token_carries_the_new_identity() {
    let mut users = Collection::new();
    let response =
        signup(&mut users, request("a@b.com", "password1", "Ann", "Bee"), SECRET, COST).unwrap();
    let claims = decode(&response.data.token, SECRET).unwrap();
    assert_eq!(claims.user.id.to_hex(), response.data.user_id);
    assert_eq!(claims.user.first_name, "Ann");
    assert_eq!(claims.user.last_name, "Bee");
    assert_eq!(claims.user.email, "a@b.com");
    assert_eq!(claims.exp, claims.iat + 86400);
    let stored = users.find_one(&UserFilter { email: "a@b.com".to_string() }).unwrap();
    assert_eq!(response.data.created_at, stored.created_at.to_rfc3339());
}

#[test]
fn a_taken_address_is_refused_whatever_else_differs() {
    let mut users = Collection::new();
    signup(&mut users, request("a@b.com", "password1", "A", "B"), SECRET, COST).unwrap();
    let other = signup(&mut users, request("a@b.com", "another password", "C", "D"), SECRET, COST);
    assert_eq!(other, Err(refusal("Email already registered")));
    assert_eq!(users.len(), 1);
    let second = signup(&mut users, request("c@d.com", "password1", "A", "B"), SECRET, COST);
    assert_eq!(second.unwrap().data.user_id, "000000000000000000000001");
    assert_eq!(users.len(), 2);
}

#[test]
fn a_faulty_signup_is_refused_and_stores_nothing() {
    let mut users = Collection::new();
    let cases = [
        (request("not an address", "password1", "A", "B"), "Invalid email address"),
        (request("a@b.com", "short", "A", "B"), "Password must be at least 8 characters long"),
        (request("a@b.com", "1234567", "A", "B"), "Password must be at least 8 characters long"),
        (request("a@b.com", "password1", "", "B"), "First name must not be empty"),
        (request("a@b.com", "password1", "A", ""), "Last name must not be empty"),
        (request("", "", "", ""), "Invalid email address"),
    ];
    for (payload, message) in cases {
        assert_eq!(payload.validate(), Err(refusal(message)));
        assert_eq!(signup(&mut users, payload, SECRET, COST), Err(refusal(message)));
    }
    assert_eq!(users.len(), 0);
    assert_eq!(request("a@b.com", "12345678", "A", "B").validate(), Ok(()));
    assert_eq!(request("a@b.com", "pässwörd", "A", "B").validate(), Ok(()));
}

#[test]
fn a_failure_of_the_hasher_stores_nothing() {
    let mut users = Collection::new();
    let result = signup(&mut users, request("a@b.com", "password1", "A", "B"), SECRET, 99);
    assert!(matches!(result, Err(Error::HashPassword(_))));
    assert_eq!(result.unwrap_err().get_codes(), (500, 5006));
    assert_eq!(users.len(), 0);
}

#[test]
fn an_unknown_address_and_a_wrong_password_are_refused_alike() {
    let mut users = Collection::new();
    signup(&mut users, request("a@b.com", "password1", "A", "B"), SECRET, COST).unwrap();
    let unknown = signin(&users, &credentials("x@y.com", "password1"), SECRET);
    let wrong = signin(&users, &credentials("a@b.com", "password2"), SECRET);
    assert_eq!(unknown, Err(wrong_credentials()));
    assert_eq!(wrong, unknown);
}

#[test]
fn an_unreadable_stored_hash_is_an_invalid_password_failure() {
    let mut users = Collection::new();
    let unreadable = format!("$2b$xx${}", "a".repeat(53));
    users
        .create(User::new_at(
            "A".to_string(),
            "B".to_string(),
            "a@b.com".to_string(),
            unreadable,
            Date::from_millis(0),
        ))
        .unwrap();
    let result = signin(&users, &credentials("a@b.com", "password1"), SECRET);
    assert_eq!(result, Err(Error::InvalidPassword("Invalid password".to_string())));
    assert_eq!(result.unwrap_err().get_codes(), (401, 40008));
}

#[test]
fn the_steps_of_a_signup_fit_together() {
    let payload = request("a@b.com", "password1", "A", "B");
    let filter = signup_lookup(&payload);
    assert_eq!(filter, UserFilter { email: "a@b.com".to_string() });
    assert_eq!(
        signup_lookup(&request("who", "short", "", "")),
        UserFilter { email: "who".to_string() }
    );

    let holder = User::new_at(
        "X".to_string(),
        "Y".to_string(),
        "a@b.com".to_string(),
        "h".to_string(),
        Date::from_millis(0),
    );
    let taken = signup_account(payload.clone(), Some(holder.clone()), COST);
    assert_eq!(taken, Err(refusal("Email already registered")));
    let taken_and_faulty =
        signup_account(request("a@b.com", "short", "", ""), Some(holder), COST);
    assert_eq!(taken_and_faulty, Err(refusal("Email already registered")));
    assert_eq!(
        signup_account(request("a@b.com", "short", "A", "B"), None, COST),
        Err(refusal("Password must be at least 8 characters long"))
    );

    let mut user = signup_account(payload, None, COST).unwrap();
    assert_eq!(user.id, None);
    assert_eq!(user.email, "a@b.com");
    assert_eq!(user.first_name, "A");
    assert_eq!(user.last_name, "B");
    assert!(user.is_password_match("password1"));

    user.id = Some(serial_id(41));
    let response = signup_response(user.clone(), SECRET).unwrap();
    assert_eq!(response.data.user_id, "000000000000000000000029");
    assert_eq!(response.data.created_at, user.created_at.to_rfc3339());
    assert_eq!(decode(&response.data.token, SECRET).unwrap().user.id, serial_id(41));

    let credentials = credentials("a@b.com", "password1");
    assert_eq!(signin_lookup(&credentials), UserFilter { email: "a@b.com".to_string() });
    let granted = signin_response(&credentials, Some(user.clone()), SECRET).unwrap();
    assert_eq!(granted.data.user_id, "000000000000000000000029");
    assert_eq!(signin_response(&credentials, None, SECRET), Err(wrong_credentials()));
}

#[test]
fn a_sign_in_goes_on_only_after_a_match() {
    assert_eq!(require_match(Ok(true)), Ok(()));
    assert_eq!(require_match(Ok(false)), Err(wrong_credentials()));
    let failure = Error::InvalidPassword("Invalid password".to_string());
    assert_eq!(require_match(Err(failure.clone())), Err(failure));
}

#[test]
fn a_signup_is_checked_given_the_verdict_on_the_address() {
    let payload = request("anything", "password1", "A", "B");
    assert_eq!(payload.validate_with(true), Ok(()));
    assert_eq!(payload.validate_with(false), Err(refusal("Invalid email address")));
    let short = request("anything", "1234567", "A", "B");
    assert_eq!(
        short.validate_with(true),
        Err(refusal("Password must be at least 8 characters long"))
    );
}

#[test]
fn a_taken_address_is_refused_before_any_fault_of_the_request() {
    let mut users = Collection::new();
    signup(&mut users, request("a@b.com", "password1", "A", "B"), SECRET, COST).unwrap();
    let taken = Err(refusal("Email already registered"));
    assert_eq!(signup(&mut users, request("a@b.com", "short", "A", "B"), SECRET, COST), taken);
    assert_eq!(signup(&mut users, request("a@b.com", "password1", "", "B"), SECRET, COST), taken);
    assert_eq!(signup(&mut users, request("a@b.com", "password1", "A", ""), SECRET, COST), taken);
    assert_eq!(signup(&mut users, request("a@b.com", "", "", ""), SECRET, COST), taken);
    assert_eq!(signup(&mut users, request("a@b.com", "password2", "C", "D"), SECRET, COST), taken);
    assert_eq!(users.len(), 1);
    assert_eq!(
        signup(&mut users, request("c@d.com", "short", "A", "B"), SECRET, COST),
        Err(refusal("Password must be at least 8 characters long"))
    );
}

#[test]
fn the_answer_of_the_store_to_an_insert() {
    let mut user = signup_account(request("a@b.com", "password1", "A", "B"), None, COST).unwrap();
    user.id = Some(serial_id(3));
    assert_eq!(signup_stored(InsertOutcome::Stored(user.clone())), Ok(user));
    let lost = signup_stored(InsertOutcome::Duplicate);
    assert_eq!(lost, Err(refusal("Email already registered")));
    assert_eq!(lost.unwrap_err().get_codes(), (400, 40002));
    let down = Error::Mongo("connection reset".to_string());
    assert_eq!(signup_stored(InsertOutcome::Failed(down.clone())), Err(down.clone()));
    assert_eq!(down.get_codes(), (500, 5003));
}

#[test]
fn the_stored_hash_names_the_configured_work_factor() {
    let mut users = Collection::new();
    signup(&mut users, request("a@b.com", "password1", "A", "B"), SECRET, 5).unwrap();
    let stored = users.find_one(&UserFilter { email: "a@b.com".to_string() }).unwrap();
    assert!(stored.password.starts_with("$2b$05$"));
}

#[test]
fn signing_up_keeps_the_declared_indexes() {
    let mut users: Collection<User> = Collection::new();
    users.sync_indexes().unwrap();
    let declared = users.declared_indexes().clone();
    signup(&mut users, request("a@b.com", "password1", "A", "B"), SECRET, COST).unwrap();
    assert_eq!(users.declared_indexes(), &declared);
    assert_eq!(declared.len(), 1);
}
