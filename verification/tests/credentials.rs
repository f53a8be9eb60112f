use filite::auth::{authenticate, hash, parse_basic, verify, HashError};
use filite::config::{Config, PasswordConfig};
use filite::db::{insert_user, Store};
use filite::reject::{FiliteRejection, TryExt};

fn fast_params() -> PasswordConfig {
    PasswordConfig {
        hash_length: Some(4),
        salt_length: Some(8),
        lanes: Some(1),
        memory_cost: Some(8),
        time_cost: Some(1),
        secret: None,
    }
}

fn fast_config() -> Config {
    let mut config = Config::default();
    config.password = fast_params();
    config
}

#[test]
fn hash_then_verify_accepts_the_password() {
    let params = fast_params();
    let encoded = hash(b"hunter22", &params).unwrap();
    assert_eq!(verify(encoded.as_str(), b"hunter22", &params), Ok(true));
}

#[test]
fn verify_rejects_a_different_password() {
    let params = fast_params();
    let encoded = hash(b"hunter22", &params).unwrap();
    assert_eq!(verify(encoded.as_str(), b"hunter23", &params), Ok(false));
    assert_eq!(verify(encoded.as_str(), b"", &params), Ok(false));
}

#[test]
fn verify_requires_the_same_secret() {
    let mut params = fast_params();
    params.secret = Some("pepper".to_owned());
    let encoded = hash(b"hunter22", &params).unwrap();
    assert_eq!(verify(encoded.as_str(), b"hunter22", &params), Ok(true));

    let without = fast_params();
    assert_eq!(verify(encoded.as_str(), b"hunter22", &without), Ok(false));
}

#[test]
fn fresh_salts_give_distinct_encodings() {
    let params = fast_params();
    let one = hash(b"hunter22", &params).unwrap();
    let two = hash(b"hunter22", &params).unwrap();
    assert_ne!(one, two);
    assert_eq!(verify(two.as_str(), b"hunter22", &params), Ok(true));
}

#[test]
fn default_parameters_hash_and_verify() {
    let params = PasswordConfig::default();
    let encoded = hash(b"pw", &params).unwrap();
    assert!(encoded.starts_with("$argon2i$"));
    assert_eq!(verify(encoded.as_str(), b"pw", &params), Ok(true));
    assert_eq!(verify(encoded.as_str(), b"pw2", &params), Ok(false));
}

#[test]
fn invalid_parameters_are_a_fatal_error() {
    let mut params = fast_params();
    params.lanes = Some(0);
    assert!(matches!(hash(b"pw", &params), Err(HashError::InvalidParameters)));

    let mut params = fast_params();
    params.salt_length = Some(2);
    assert!(matches!(hash(b"pw", &params), Err(HashError::InvalidParameters)));
}

#[test]
fn malformed_encoding_is_a_distinct_error() {
    let params = fast_params();
    assert!(matches!(
        verify("not an encoded hash", b"pw", &params),
        Err(HashError::MalformedEncoding)
    ));
    assert!(matches!(verify("", b"pw", &params), Err(HashError::MalformedEncoding)));
}

#[test]
fn parse_basic_splits_at_the_first_colon() {
    let (user, password) = parse_basic("Basic dXNlcjpwYXNzd29yZA==").unwrap();
    assert_eq!(user, "user");
    assert_eq!(password, b"password");

    // "a:b:c" keeps later colons inside the password
    let header = format!("Basic {}", base64::encode("a:b:c"));
    let (user, password) = parse_basic(header.as_str()).unwrap();
    assert_eq!(user, "a");
    assert_eq!(password, b"b:c");
}

#[test]
fn parse_basic_rejects_malformed_headers() {
    assert!(parse_basic("Bearer abc").is_none());
    assert!(parse_basic("Basic").is_none());
    assert!(parse_basic("Basic !!!notbase64!!!").is_none());
    // no colon in the decoded pair
    let header = format!("Basic {}", base64::encode("nocolon"));
    assert!(parse_basic(header.as_str()).is_none());
    // username that is not valid UTF-8
    let header = format!("Basic {}", base64::encode([0xffu8, 0xfe, b':', b'x']));
    assert!(parse_basic(header.as_str()).is_none());
}

#[test]
fn authenticate_accepts_valid_credentials() {
    let mut db = Store::new();
    let config = fast_config();
    insert_user("user", "password", true, &mut db, &config).unwrap().unwrap();

    let who = authenticate(Some("Basic dXNlcjpwYXNzd29yZA=="), &db, &config).unwrap();
    assert_eq!(who.id, "user");
    assert!(who.admin);
}

#[test]
fn authenticate_rejects_wrong_password_and_unknown_user_alike() {
    let mut db = Store::new();
    let config = fast_config();
    insert_user("user", "password", false, &mut db, &config).unwrap().unwrap();

    let wrong = format!("Basic {}", base64::encode("user:wrong"));
    let unknown = format!("Basic {}", base64::encode("ghost:password"));
    for header in [wrong.as_str(), unknown.as_str()] {
        match authenticate(Some(header), &db, &config) {
            Err(rej) => {
                assert_eq!(rej.status_code(), 401);
                assert_eq!(rej.message(), "Invalid Credentials");
                assert!(rej.requires_challenge());
            }
            Ok(_) => panic!("bad credentials must not authenticate"),
        }
    }
}

#[test]
fn authenticate_challenges_a_missing_header() {
    let db = Store::new();
    let config = fast_config();
    match authenticate(None, &db, &config) {
        Err(rej) => {
            assert_eq!(rej.status_code(), 401);
            assert_eq!(rej.message(), "Authentication Required");
        }
        Ok(_) => panic!("a missing header must not authenticate"),
    }
}

#[test]
fn authenticate_rejects_a_malformed_header_as_bad_request() {
    let db = Store::new();
    let config = fast_config();
    match authenticate(Some("Basic %%%"), &db, &config) {
        Err(rej) => {
            assert_eq!(rej.status_code(), 400);
            assert_eq!(rej.message(), "Invalid Credentials");
        }
        Ok(_) => panic!("a malformed header must not authenticate"),
    }
    match authenticate(Some("Digest abc"), &db, &config) {
        Err(rej) => assert_eq!(rej.status_code(), 400),
        Ok(_) => panic!("a malformed header must not authenticate"),
    }
}

#[test]
fn rejections_map_to_their_statuses() {
    assert_eq!(FiliteRejection::NotFound.status_code(), 404);
    assert_eq!(FiliteRejection::NotFound.message(), "Not Found");
    assert_eq!(FiliteRejection::Conflict.status_code(), 409);
    assert_eq!(FiliteRejection::Conflict.message(), "Conflict");
    assert_eq!(FiliteRejection::InternalServerError.status_code(), 500);
    assert_eq!(FiliteRejection::InternalServerError.message(), "Internal Server Error");
    assert_eq!(FiliteRejection::BadRequest("why".to_owned()).status_code(), 400);
    assert_eq!(FiliteRejection::BadRequest("why".to_owned()).message(), "why");
    assert!(!FiliteRejection::NotFound.requires_challenge());
    assert!(FiliteRejection::Unauthorized("no".to_owned()).requires_challenge());
}

#[test]
fn try_ext_maps_empty_and_failed_outcomes() {
    assert_eq!(Some(7).or_404(), Ok(7));
    assert!(matches!(None::<i32>.or_404(), Err(FiliteRejection::NotFound)));
    assert!(matches!(None::<i32>.or_409(), Err(FiliteRejection::Conflict)));
    assert!(matches!(None::<i32>.or_500(), Err(FiliteRejection::InternalServerError)));

    let failed: Result<i32, &str> = Err("boom");
    assert!(matches!(failed.or_500(), Err(FiliteRejection::InternalServerError)));
    let fine: Result<i32, &str> = Ok(3);
    assert_eq!(fine.or_404(), Ok(3));
    match None::<i32>.or_bad_request("reason".to_owned()) {
        Err(FiliteRejection::BadRequest(m)) => assert_eq!(m, "reason"),
        _ => panic!("expected a bad request"),
    }
    match None::<i32>.or_unauthorized("halt".to_owned()) {
        Err(FiliteRejection::Unauthorized(m)) => assert_eq!(m, "halt"),
        _ => panic!("expected an unauthorized outcome"),
    }
}
