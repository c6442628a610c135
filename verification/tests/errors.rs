use mood_api::errors::{AuthenticateError, BadRequest, Error, NotFound};

#[test]
fn every_failure_has_its_status_and_code() {
    let text = || "cause".to_string();
    assert_eq!(Error::ParseObjectID(text()).get_codes(), (400, 40001));
    assert_eq!(Error::bad_request().get_codes(), (400, 40002));
    assert_eq!(Error::not_found().get_codes(), (404, 40003));
    assert_eq!(
        Error::Authenticate(AuthenticateError::WrongCredentials).get_codes(),
        (401, 40004)
    );
    assert_eq!(
        Error::Authenticate(AuthenticateError::InvalidToken).get_codes(),
        (401, 40005)
    );
    assert_eq!(Error::Authenticate(AuthenticateError::Locked).get_codes(), (423, 40006));
    assert_eq!(Error::TokenCreation(text()).get_codes(), (500, 5007));
    assert_eq!(Error::InvalidPassword(text()).get_codes(), (401, 40008));
    assert_eq!(
        Error::Authenticate(AuthenticateError::TokenCreation).get_codes(),
        (500, 5001)
    );
    assert_eq!(Error::Wither(text()).get_codes(), (500, 5002));
    assert_eq!(Error::Mongo(text()).get_codes(), (500, 5003));
    assert_eq!(Error::SerializeMongoResponse(text()).get_codes(), (500, 5004));
    assert_eq!(Error::RunSyncTask(text()).get_codes(), (500, 5005));
    assert_eq!(Error::HashPassword(text()).get_codes(), (500, 5006));
}

#[test]
fn constructors_build_the_expected_variants() {
    assert_eq!(
        Error::bad_request(),
        Error::BadRequest(BadRequest { message: "Bad Request".to_string() })
    );
    assert_eq!(
        Error::bad_request_with_message("nope".to_string()),
        Error::BadRequest(BadRequest { message: "nope".to_string() })
    );
    assert_eq!(Error::not_found(), Error::NotFound(NotFound {}));
    assert_eq!(
        Error::unauthorized_with_message("Invalid email or password".to_string()),
        Error::Authenticate(AuthenticateError::WrongCredentials)
    );
}

#[test]
fn messages_describe_the_failure() {
    assert_eq!(
        Error::ParseObjectID("zz".to_string()).to_message(),
        "Error parsing ObjectID zz"
    );
    assert_eq!(
        Error::InvalidPassword("Invalid password".to_string()).to_message(),
        "Error invalid password Invalid password"
    );
    assert_eq!(Error::not_found().to_message(), "Not found");
    assert_eq!(Error::bad_request().to_message(), "Bad Request");
    assert_eq!(Error::Mongo("socket closed".to_string()).to_message(), "socket closed");
    assert_eq!(
        AuthenticateError::WrongCredentials.message(),
        "Wrong authentication credentials"
    );
    assert_eq!(
        AuthenticateError::TokenCreation.message(),
        "Failed to create authentication token"
    );
    assert_eq!(AuthenticateError::InvalidToken.message(), "Invalid authentication credentials");
    assert_eq!(AuthenticateError::Locked.message(), "User is locked");
}

#[test]
fn a_refused_request_is_reported_verbatim() {
    let body = Error::bad_request_with_message("Email already registered".to_string())
        .into_response();
    assert_eq!(body.status, 400);
    assert!(!body.success);
    assert_eq!(body.message, "Email already registered");
    assert_eq!(body.error, "40002");
}

#[test]
fn a_server_fault_hides_its_cause() {
    let body = Error::Mongo("connection refused by 10.0.0.7".to_string()).into_response();
    assert_eq!(body.status, 500);
    assert!(!body.success);
    assert_eq!(body.message, "Internal server error");
    assert_eq!(body.error, "5003");

    let body = Error::TokenCreation("key rejected".to_string()).into_response();
    assert_eq!(body.status, 500);
    assert_eq!(body.message, "Internal server error");
    assert_eq!(body.error, "5007");
}

#[test]
fn an_invalid_token_is_unauthorized() {
    let body = Error::Authenticate(AuthenticateError::InvalidToken).into_response();
    assert_eq!(body.status, 401);
    assert_eq!(body.message, "Invalid authentication credentials");
    assert_eq!(body.error, "40005");
}

#[test]
fn the_code_tells_a_server_fault_from_a_request_fault() {
    let text = || "cause".to_string();
    let server = [
        Error::Wither(text()),
        Error::Mongo(text()),
        Error::SerializeMongoResponse(text()),
        Error::RunSyncTask(text()),
        Error::HashPassword(text()),
        Error::TokenCreation(text()),
        Error::Authenticate(AuthenticateError::TokenCreation),
    ];
    for error in server {
        let (status, code) = error.get_codes();
        assert_eq!(status, 500);
        assert!((5001..=5007).contains(&code));
    }
    let request = [
        Error::ParseObjectID(text()),
        Error::bad_request(),
        Error::not_found(),
        Error::Authenticate(AuthenticateError::WrongCredentials),
        Error::Authenticate(AuthenticateError::InvalidToken),
        Error::Authenticate(AuthenticateError::Locked),
        Error::InvalidPassword(text()),
    ];
    for error in request {
        let (status, code) = error.get_codes();
        assert!((400..500).contains(&status));
        assert!((40001..=40008).contains(&code));
    }
}
