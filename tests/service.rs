use hmac::Mac;
use sha2::Digest;
use tg_auth::config::Config;
use tg_auth::dto::{ApiError, BaseApiError, BaseResponseDto};
use tg_auth::errors::ApiError as ServiceError;
use tg_auth::files::{check_trimmed_form, check_upload_size, file_url, stored_filename, validate_form, FormDataRequest};
use tg_auth::jwt::JwtService;
use tg_auth::login::{create_user_dto, finish_sign_in, sign_in};
use tg_auth::telegram::{TelegramAuthData, TelegramService, VerificationError};
use tg_auth::users::{AuthService, CreateUserDto, IUserRepository, MockUserRepository};

fn config() -> Config {
    Config {
        database_url: "postgres://db".to_string(),
        redis_url: "redis://cache".to_string(),
        server_host: "0.0.0.0".to_string(),
        server_port: 3000,
        jwt_secret: "j".to_string(),
        telegram_bot_token: "t".to_string(),
        max_file_size: 10485760,
        upload_dir: "./uploads".to_string(),
    }
}

fn signed(first_name: &str, secret: &str) -> TelegramAuthData {
    let check = format!("auth_date=1700000000\nfirst_name={}\nid=42\nusername=ann", first_name);
    let key = sha2::Sha256::digest(secret.as_bytes());
    let mut mac = hmac::Hmac::<sha2::Sha256>::new_from_slice(&key).unwrap();
    mac.update(check.as_bytes());
    TelegramAuthData {
        id: 42,
        first_name: first_name.to_string(),
        last_name: None,
        username: Some("ann".to_string()),
        photo_url: None,
        auth_date: 1700000000,
        hash: hex::encode(mac.finalize().into_bytes()),
    }
}

#[test]
fn server_address_joins_host_and_port() {
    assert_eq!(config().server_address(), "0.0.0.0:3000");
}

#[test]
fn response_builder_sets_fields() {
    let dto = BaseResponseDto::<u32>::builder();
    assert_eq!(dto.code, 200);
    assert!(dto.message.is_none());
    let dto = dto.data(7).code(201).message("done".to_string());
    assert_eq!(dto.data, 7);
    assert_eq!(dto.code, 201);
    assert_eq!(dto.message.as_deref(), Some("done"));
}

#[test]
fn api_error_statuses_and_body() {
    assert_eq!(ApiError::Auth("a".to_string()).status_code(), 401);
    assert_eq!(ApiError::Validation("v".to_string()).status_code(), 400);
    assert_eq!(ApiError::BadRequest("b".to_string()).status_code(), 400);
    assert_eq!(ApiError::NotFound("n".to_string()).status_code(), 404);
    assert_eq!(ApiError::Interal("i".to_string()).status_code(), 500);
    assert_eq!(ApiError::NotFound("gone".to_string()).to_body().error, "gone");
    assert_eq!(BaseApiError::new("x".to_string()).error, "x");
    assert_eq!(ApiError::from_verification(VerificationError::MalformedInput).status_code(), 400);
    assert_eq!(ApiError::from_verification(VerificationError::Expired).status_code(), 401);
}

#[test]
fn mock_repository_login() {
    let dto = CreateUserDto {
        username: "ann".to_string(),
        email: None,
        first_name: "Ann".to_string(),
        last_name: String::new(),
        password: None,
        telegram_id: 42,
    };
    let mut service = AuthService::new(MockUserRepository::new());
    assert_eq!(service.login_via_telegram(&dto), Ok(1));
    assert_eq!(service.repository.users.len(), 1);
    assert_eq!(service.repository.users[0].telegram_id, 42);
}

#[test]
fn sign_in_issues_token_for_verified_user() {
    let verifier = TelegramService::new("bot".to_string());
    let issuer = JwtService::new("server");
    let mut users = MockUserRepository::new();
    let a = signed("Ann", "bot");
    let r = sign_in(&verifier, &issuer, &mut users, &a, 1700000010).ok().unwrap();
    assert_eq!(r.user_id, 1);
    assert_eq!(r.expires_at, 1700000010 + 86400);
    let claims = issuer.verify_token(&r.token, 1700000011).unwrap();
    assert_eq!(claims.sub, "1");
    assert_eq!(claims.telegram_id, 42);
    assert_eq!(users.users.len(), 1);
}

#[test]
fn sign_in_rejects_forged_assertion() {
    let verifier = TelegramService::new("bot".to_string());
    let issuer = JwtService::new("server");
    let mut users = MockUserRepository::new();
    let a = signed("Ann", "forger");
    let r = sign_in(&verifier, &issuer, &mut users, &a, 1700000010);
    match r {
        Err(ApiError::Auth(m)) => assert_eq!(m, "Invalid Telegram authentication"),
        _ => panic!("forged assertion accepted"),
    }
    assert_eq!(users.users.len(), 0);
}

#[test]
fn user_dto_from_assertion() {
    let d = create_user_dto(&signed("Ann", "bot"));
    assert_eq!(d.telegram_id, 42);
    assert_eq!(d.username, "ann");
    assert_eq!(d.last_name, "");
}

#[test]
fn upload_naming_and_size() {
    assert_eq!(stored_filename("abc", "png"), "abc.png");
    assert_eq!(stored_filename("abc", ""), "abc");
    assert_eq!(file_url("abc.png"), "/files/abc.png");
    assert!(check_upload_size(10, 10).is_ok());
    assert!(matches!(check_upload_size(11, 10), Err(ServiceError::BadRequest(_))));
}

#[test]
fn collaborator_errors_hide_their_details() {
    let (s, m) = ServiceError::Database("connection refused".to_string()).status_and_message();
    assert_eq!((s, m.as_str()), (500, "Database error"));
    let (s, m) = ServiceError::Redis("x".to_string()).status_and_message();
    assert_eq!((s, m.as_str()), (500, "Cache error"));
    let (s, m) = ServiceError::Internal("x".to_string()).status_and_message();
    assert_eq!((s, m.as_str()), (500, "Internal server error"));
    let (s, m) = ServiceError::Jwt("x".to_string()).status_and_message();
    assert_eq!((s, m.as_str()), (401, "Invalid token"));
    let (s, m) = ServiceError::Io("x".to_string()).status_and_message();
    assert_eq!((s, m.as_str()), (500, "File operation error"));
    let (s, m) = ServiceError::Auth("bad login".to_string()).status_and_message();
    assert_eq!((s, m.as_str()), (401, "bad login"));
    let (s, m) = ServiceError::Validation("v".to_string()).status_and_message();
    assert_eq!((s, m.as_str()), (400, "v"));
    let (s, m) = ServiceError::NotFound("User not found".to_string()).status_and_message();
    assert_eq!((s, m.as_str()), (404, "User not found"));
    let (s, m) = ServiceError::BadRequest("b".to_string()).status_and_message();
    assert_eq!((s, m.as_str()), (400, "b"));
}

#[test]
fn form_validation_trims_fields() {
    let form = |name: &str, message: &str| FormDataRequest {
        name: name.to_string(),
        email: None,
        message: message.to_string(),
    };
    assert!(validate_form(&form("Ann", "hi")).is_ok());
    match validate_form(&form("  \t", "hi")) {
        Err(ServiceError::Validation(m)) => assert_eq!(m, "Name is required"),
        _ => panic!("blank name accepted"),
    }
    match validate_form(&form("Ann", " \n ")) {
        Err(ServiceError::Validation(m)) => assert_eq!(m, "Message is required"),
        _ => panic!("blank message accepted"),
    }
    assert!(check_trimmed_form("a", "b").is_ok());
    assert!(check_trimmed_form("", "b").is_err());
}

#[test]
fn second_sign_in_finds_the_stored_user() {
    let verifier = TelegramService::new("bot".to_string());
    let issuer = JwtService::new("server");
    let mut users = MockUserRepository::new();
    let a = signed("Ann", "bot");
    let first = sign_in(&verifier, &issuer, &mut users, &a, 1700000010).ok().unwrap();
    let second = sign_in(&verifier, &issuer, &mut users, &a, 1700000020).ok().unwrap();
    assert_eq!(first.user_id, second.user_id);
    assert_eq!(users.users.len(), 1);
    assert_eq!(second.expires_at, 1700000020 + 86400);
}

#[test]
fn malformed_assertion_is_a_validation_error() {
    let verifier = TelegramService::new("bot".to_string());
    let issuer = JwtService::new("server");
    let mut users = MockUserRepository::new();
    let mut a = signed("Ann", "bot");
    a.first_name = String::new();
    match sign_in(&verifier, &issuer, &mut users, &a, 1700000010) {
        Err(ApiError::Validation(m)) => assert_eq!(m, "Malformed Telegram authentication data"),
        _ => panic!("malformed assertion accepted"),
    }
}

#[test]
fn finish_sign_in_reports_store_failure_and_issues_otherwise() {
    let issuer = JwtService::new("server");
    let a = signed("Ann", "bot");
    match finish_sign_in(&issuer, &a, Err("disk full".to_string()), 100) {
        Err(ApiError::Interal(m)) => assert_eq!(m, "disk full"),
        _ => panic!("store failure hidden"),
    }
    let r = finish_sign_in(&issuer, &a, Ok(-5), 100).ok().unwrap();
    assert_eq!(r.user_id, -5);
    assert_eq!(r.expires_at, 100 + 86400);
    assert_eq!(issuer.verify_token(&r.token, 100).unwrap().sub, "-5");
}

#[test]
fn mock_repository_appends_and_finds_last() {
    let mut repo = MockUserRepository::new();
    assert_eq!(repo.find_user(42), None);
    let dto = CreateUserDto {
        username: "ann".to_string(),
        email: Some("a@b.c".to_string()),
        first_name: "Ann".to_string(),
        last_name: "Lee".to_string(),
        password: None,
        telegram_id: 42,
    };
    assert_eq!(repo.create_user(&dto), Ok(1));
    assert_eq!(repo.find_user(42), Some(1));
    assert_eq!(repo.find_user(7), None);
    let u = &repo.users[0];
    assert_eq!((u.id, u.telegram_id, u.email.as_deref(), u.photo_url.is_none()), (1, 42, Some("a@b.c"), true));
    assert_eq!(u.last_name, "Lee");
}

#[test]
fn builder_payload_is_default() {
    let dto = BaseResponseDto::<String>::builder();
    assert_eq!(dto.data, "");
    assert_eq!(ApiError::from_token(tg_auth::jwt::TokenError::Malformed).status_code(), 400);
}
