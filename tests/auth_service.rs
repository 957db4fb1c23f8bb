use user_auth::auth_service::{get_permission_level, AuthService, RegisterAction, RegisterEvent};
use user_auth::error::ApiError;
use user_auth::http::Http2xx;
use user_auth::jwt::decode_jwt;
use user_auth::response::ApiResponse;
use user_auth::user::{LoginUser, Model, RegisterUser, Timestamp};

const SECRET: &str = "service-key";
const NOW: i64 = 1_700_000_000;

fn generate_user(password: &String) -> Model {
    Model {
        id: 1,
        name: "name".to_string(),
        email: "test@example.com".to_string(),
        hashed_password: bcrypt::hash(password, 4).unwrap(),
        is_active: true,
        is_admin: false,
        updated_dtm: None,
        created_dtm: Timestamp { secs: 1_700_000_000, nanos: 0 },
    }
}

fn service() -> AuthService {
    AuthService::new(SECRET.to_string())
}

#[test]
fn login_success() {
    let password = "password123";
    let user = generate_user(&password.to_string());
    let req = LoginUser { email: "test@example.com".to_string(), password: password.to_string() };
    let result = service().login(&req, Some(user), NOW);
    assert!(result.is_ok());
}

#[test]
fn login_fail_with_invalid_email() {
    let req = LoginUser { email: "test@example.com".to_string(), password: "password".to_string() };
    let result = service().login(&req, None, NOW);
    assert!(matches!(result, Err(ApiError::AuthenticationFail)));
}

#[test]
fn login_fail_with_invalid_password() {
    let password = "password";
    let user = generate_user(&password.to_string());
    let req = LoginUser { email: "test@example.com".to_string(), password: "password123".to_string() };
    let result = service().login(&req, Some(user), NOW);
    assert!(matches!(result, Err(ApiError::AuthenticationFail)));
}

#[test]
fn login_with_malformed_hash_is_server_error() {
    let mut user = generate_user(&"pw".to_string());
    user.hashed_password = "not a hash".to_string();
    let req = LoginUser { email: "test@example.com".to_string(), password: "pw".to_string() };
    assert!(matches!(service().login(&req, Some(user), NOW), Err(ApiError::ServerError)));
}

#[test]
fn login_token_carries_identity_and_tier() {
    let user = generate_user(&"pw".to_string());
    let req = LoginUser { email: "test@example.com".to_string(), password: "pw".to_string() };
    let token = service().login(&req, Some(user), 1_000).unwrap();
    let claims = decode_jwt(&token, SECRET, 2_000).unwrap();
    assert_eq!(claims.user_id, 1);
    assert_eq!(claims.email, "test@example.com");
    assert_eq!(claims.permission, 1);

    let mut admin = generate_user(&"pw".to_string());
    admin.id = 42;
    admin.is_admin = true;
    let token = service().login(&req, Some(admin), NOW).unwrap();
    let claims = decode_jwt(&token, SECRET, NOW).unwrap();
    assert_eq!(claims.user_id, 42);
    assert_eq!(claims.permission, 2);
}

#[test]
fn login_failures_are_alike() {
    let user = generate_user(&"right".to_string());
    let req = LoginUser { email: "test@example.com".to_string(), password: "wrong".to_string() };
    let unknown = service().login(&req, None, 0);
    let wrong = service().login(&req, Some(user), 0);
    assert!(matches!(unknown, Err(ApiError::AuthenticationFail)));
    assert!(matches!(wrong, Err(ApiError::AuthenticationFail)));
}

#[test]
fn login_scenario_envelopes() {
    let mut user = generate_user(&"secret".to_string());
    user.email = "t@e.com".to_string();
    let ok = LoginUser { email: "t@e.com".to_string(), password: "secret".to_string() };
    let token = service().login(&ok, Some(user), NOW).unwrap();
    let (status, body) = ApiResponse::new(Http2xx::Success, token.clone()).into_parts();
    assert_eq!(status, 200);
    assert_eq!(body.code, "S001");
    assert_eq!(body.message, "success");
    assert_eq!(body.data, token);

    let mut user = generate_user(&"secret".to_string());
    user.email = "t@e.com".to_string();
    let bad = LoginUser { email: "t@e.com".to_string(), password: "wrong".to_string() };
    let err = service().login(&bad, Some(user), NOW).unwrap_err();
    let (status, body) = ApiResponse::new(err, ()).into_parts();
    assert_eq!(status, 422);
    assert_eq!(body.code, "F008");
}

#[test]
fn permission_levels() {
    assert_eq!(get_permission_level(true), 2);
    assert_eq!(get_permission_level(false), 1);
}

#[test]
fn register_success() {
    let password = "password";
    let user = generate_user(&password.to_string());
    let req = RegisterUser {
        name: "name".to_string(),
        email: "test@example.com".to_string(),
        password: password.to_string(),
        password_check: password.to_string(),
    };
    assert!(AuthService::register_check(&req).is_ok());
    let command = AuthService::register_command(req, None).unwrap();
    assert_eq!(command.name, "name");
    assert_eq!(command.email, "test@example.com");
    assert!(bcrypt::verify(password, &command.hashed_password).unwrap());
    let token = service().register_token(&user, NOW);
    let claims = decode_jwt(&token, SECRET, NOW).unwrap();
    assert_eq!(claims.user_id, 1);
    assert_eq!(claims.permission, 1);
}

#[test]
fn register_fail_with_mismatched_password() {
    let req = RegisterUser {
        name: "name".to_string(),
        email: "test@example.com".to_string(),
        password: "password".to_string(),
        password_check: "password_check".to_string(),
    };
    let result = AuthService::register_check(&req);
    assert!(matches!(result, Err(ApiError::PasswordMismatched)));
}

#[test]
fn register_fail_with_duplicated_email() {
    let password = "password";
    let user = generate_user(&password.to_string());
    let req = RegisterUser {
        name: "name".to_string(),
        email: "test@example.com".to_string(),
        password: password.to_string(),
        password_check: password.to_string(),
    };
    assert!(AuthService::register_check(&req).is_ok());
    let result = AuthService::register_command(req, Some(user));
    assert!(matches!(result, Err(ApiError::DuplicatedEmail)));
}

#[test]
fn register_token_for_admin_at_fixed_time() {
    let mut user = generate_user(&"pw".to_string());
    user.id = 8;
    user.is_admin = true;
    let token = service().register_token(&user, 100);
    let claims = decode_jwt(&token, SECRET, 200).unwrap();
    assert_eq!(claims.user_id, 8);
    assert_eq!(claims.permission, 2);
    assert_eq!(claims.iat, 100);
}

fn form(password: &str, check: &str) -> RegisterUser {
    RegisterUser {
        name: "name".to_string(),
        email: "new@example.com".to_string(),
        password: password.to_string(),
        password_check: check.to_string(),
    }
}

#[test]
fn register_steps_in_order() {
    let s = service();
    let d = match s.register_step(RegisterEvent::Submitted(form("pw", "pw")), NOW) {
        RegisterAction::LookUp(d) => d,
        _ => panic!("expected a lookup"),
    };
    assert_eq!(d.email, "new@example.com");
    let command = match s.register_step(RegisterEvent::LookedUp(d, None), NOW) {
        RegisterAction::Create(c) => c,
        _ => panic!("expected a create command"),
    };
    assert!(bcrypt::verify("pw", &command.hashed_password).unwrap());
    let mut created = generate_user(&"pw".to_string());
    created.id = 31;
    created.email = command.email.clone();
    let token = match s.register_step(RegisterEvent::Created(created), NOW) {
        RegisterAction::Finish(t) => t,
        _ => panic!("expected a token"),
    };
    let claims = decode_jwt(&token, SECRET, NOW).unwrap();
    assert_eq!(claims.user_id, 31);
    assert_eq!(claims.email, "new@example.com");
    assert_eq!(claims.permission, 1);
}

#[test]
fn register_step_mismatch_ends_before_lookup() {
    let r = service().register_step(RegisterEvent::Submitted(form("p1", "p2")), NOW);
    assert!(matches!(r, RegisterAction::Fail(ApiError::PasswordMismatched)));
}

#[test]
fn register_step_taken_email_creates_nothing() {
    let existing = generate_user(&"x".to_string());
    let r = service().register_step(RegisterEvent::LookedUp(form("pw", "pw"), Some(existing)), NOW);
    assert!(matches!(r, RegisterAction::Fail(ApiError::DuplicatedEmail)));
}
