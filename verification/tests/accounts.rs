use todo_api::auth::{
    login_user, login_user_finish, register_user, register_user_finish, register_user_with,
    login_step_at, token_claims, LoginStep,
    RegisterStep,
};
use todo_api::middleware::{AuthGuard, AuthOutcome};
use todo_api::models::{Claims, LoginUserReq, LoginUserResp, RegisterUserReq, User};
use todo_api::time::Timestamp;

const KNOWN_HASH: &str = "$2b$04$EGdrhbKUv8Oc9vGiXX0HQOxSg445d458Muh7DAHskb6QbtCvdxcie";
const KNOWN_PASSWORD: &str = "correctbatteryhorsestapler";
const UUID_TEXT: &str = "550e8400-e29b-41d4-a716-446655440000";
const UUID_VALUE: u128 = 0x550e8400_e29b_41d4_a716_446655440000;

fn user(password_hash: &str) -> User {
    User {
        id: UUID_VALUE,
        name: "Budi Santoso".to_string(),
        username: "budis".to_string(),
        password: password_hash.to_string(),
        created_at: Timestamp { secs: 1_700_000_000, nanos: 0 },
        updated_at: Timestamp { secs: 1_700_000_000, nanos: 0 },
    }
}

fn login(password: &str) -> LoginUserReq {
    LoginUserReq { username: "budis".to_string(), password: password.to_string() }
}

#[test]
fn login_with_right_password_issues_claims() {
    match login_user(&login(KNOWN_PASSWORD), Ok(Some(user(KNOWN_HASH)))) {
        LoginStep::IssueToken(c) => {
            assert_eq!(c.sub, UUID_TEXT);
            assert_eq!(c.name, "Budi Santoso");
            assert_eq!(c.username, "budis");
            assert!(c.exp > 1_700_000_000 + 3600);
        }
        _ => panic!("login refused"),
    }
}

#[test]
fn login_with_wrong_password_is_refused() {
    match login_user(&login("wrong password"), Ok(Some(user(KNOWN_HASH)))) {
        LoginStep::Reply(status, body) => {
            assert_eq!(status, 401);
            assert_eq!(body, None);
        }
        _ => panic!("wrong password accepted"),
    }
}

#[test]
fn login_unknown_and_failed_lookup() {
    match login_user(&login(KNOWN_PASSWORD), Ok(None)) {
        LoginStep::Reply(status, None) => assert_eq!(status, 401),
        _ => panic!("unknown user accepted"),
    }
    match login_user(&login(KNOWN_PASSWORD), Err("db".to_string())) {
        LoginStep::Reply(status, None) => assert_eq!(status, 500),
        _ => panic!("failed lookup accepted"),
    }
}

#[test]
fn login_with_malformed_hash() {
    match login_user(&login(KNOWN_PASSWORD), Ok(Some(user("not a hash")))) {
        LoginStep::PasswordCheckFailed => {}
        _ => panic!("malformed hash not reported"),
    }
}

#[test]
fn token_claims_expire_in_an_hour() {
    let c = token_claims(&user(KNOWN_HASH), Timestamp { secs: 1_000, nanos: 5 });
    assert_eq!(
        c,
        Claims {
            sub: UUID_TEXT.to_string(),
            name: "Budi Santoso".to_string(),
            username: "budis".to_string(),
            exp: 4_600,
        }
    );
}

#[test]
fn login_finish_returns_token() {
    assert_eq!(
        login_user_finish("abc".to_string()),
        (200, Some(LoginUserResp { token: "abc".to_string() }))
    );
}

#[test]
fn register_then_login() {
    let reg = RegisterUserReq {
        name: "Budi Santoso".to_string(),
        username: "budis".to_string(),
        password: "rahasia123".to_string(),
        email: "budi@example.com".to_string(),
    };
    let u = match register_user(reg) {
        RegisterStep::Insert(u) => u,
        RegisterStep::HashFailed => panic!("hash failed"),
    };
    assert_eq!(u.name, "Budi Santoso");
    assert_eq!(u.username, "budis");
    assert_ne!(u.password, "rahasia123");
    assert!(u.password.starts_with("$2b$12$"));
    match login_user(&login("rahasia123"), Ok(Some(u.clone()))) {
        LoginStep::IssueToken(c) => assert_eq!(c.username, "budis"),
        _ => panic!("registered password refused"),
    }
    let (status, resp) = register_user_finish(Ok(u.clone()));
    assert_eq!(status, 201);
    let resp = resp.unwrap();
    assert_eq!(resp.id, u.id);
    assert_eq!(resp.username, "budis");
    assert_eq!(register_user_finish(Err("dup".to_string())), (500, None));
}

#[test]
fn header_without_token() {
    let t_in = Timestamp { secs: 1_750_000_000, nanos: 0 };
    let (status, rep) = AuthGuard::token_from_header(t_in, None).unwrap_err();
    assert_eq!(status, 401);
    assert_eq!(rep.status, 401);
    assert_eq!(rep.error.as_deref(), Some("token is required"));
}

#[test]
fn header_with_bearer_token() {
    let t_in = Timestamp { secs: 1_750_000_000, nanos: 0 };
    let tok = AuthGuard::token_from_header(t_in, Some("Bearer aaa.bbb.ccc".to_string())).unwrap();
    assert_eq!(tok, "aaa.bbb.ccc");
    let tok = AuthGuard::token_from_header(t_in, Some("aaa.bbb.ccc".to_string())).unwrap();
    assert_eq!(tok, "aaa.bbb.ccc");
}

#[test]
fn claims_to_guard() {
    let t_in = Timestamp { secs: 1_750_000_000, nanos: 0 };
    let claims = Claims {
        sub: UUID_TEXT.to_string(),
        name: "Budi Santoso".to_string(),
        username: "budis".to_string(),
        exp: 0,
    };
    match AuthGuard::from_claims(t_in, Some(claims.clone())) {
        AuthOutcome::Accepted(g) => {
            assert_eq!(g.user_id, UUID_VALUE);
            assert_eq!(g.name, "Budi Santoso");
            assert_eq!(g.username, "budis");
        }
        _ => panic!("valid subject refused"),
    }
    let bad = Claims { sub: "not-a-uuid".to_string(), ..claims };
    assert!(matches!(AuthGuard::from_claims(t_in, Some(bad)), AuthOutcome::InvalidSubject));
    match AuthGuard::from_claims(t_in, None) {
        AuthOutcome::Rejected(status, rep) => {
            assert_eq!(status, 401);
            assert_eq!(rep.error.as_deref(), Some("invalid or expired token"));
        }
        _ => panic!("undecoded token accepted"),
    }
}

#[test]
fn issued_claims_authenticate_their_account() {
    let c = token_claims(&user(KNOWN_HASH), Timestamp { secs: 1_750_000_000, nanos: 0 });
    match AuthGuard::from_claims(Timestamp { secs: 1_750_000_000, nanos: 0 }, Some(c)) {
        AuthOutcome::Accepted(g) => assert_eq!(g.user_id, UUID_VALUE),
        _ => panic!("issued claims refused"),
    }
}

#[test]
fn register_step_from_hash_outcome() {
    let reg = RegisterUserReq {
        name: "Budi Santoso".to_string(),
        username: "budis".to_string(),
        password: KNOWN_PASSWORD.to_string(),
        email: "budi@example.com".to_string(),
    };
    let at = Timestamp { secs: 1_700_000_000, nanos: 0 };
    match register_user_with(UUID_VALUE, reg.clone(), Some(KNOWN_HASH.to_string()), at, at) {
        RegisterStep::Insert(u) => assert_eq!(u, user(KNOWN_HASH)),
        RegisterStep::HashFailed => panic!("hash present"),
    }
    assert!(matches!(register_user_with(UUID_VALUE, reg, None, at, at), RegisterStep::HashFailed));
}

#[test]
fn login_step_at_clock() {
    use_login_step_at();
}

fn use_login_step_at() {
    let u = user(KNOWN_HASH);
    match login_step_at(&u, Timestamp { secs: 1_000, nanos: 0 }) {
        LoginStep::IssueToken(c) => {
            assert_eq!(c.exp, 4_600);
            assert_eq!(c.sub, UUID_TEXT);
        }
        _ => panic!("no token"),
    }
    let last = todo_api::time::MAX_SECS - 3600;
    assert!(matches!(login_step_at(&u, Timestamp { secs: last, nanos: 0 }), LoginStep::IssueToken(_)));
    assert!(matches!(
        login_step_at(&u, Timestamp { secs: last + 1, nanos: 0 }),
        LoginStep::ExpiryOutOfRange
    ));
}

#[test]
fn registered_hash_shape() {
    let reg = RegisterUserReq {
        name: "Budi Santoso".to_string(),
        username: "budis".to_string(),
        password: "x".to_string(),
        email: "budi@example.com".to_string(),
    };
    match register_user(reg) {
        RegisterStep::Insert(u) => {
            assert_eq!(u.password.len(), 60);
            assert!(u.password.starts_with("$2b$12$"));
        }
        RegisterStep::HashFailed => panic!("hash failed"),
    }
}
