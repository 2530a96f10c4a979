use rps_backend::accounts::{
    check_login, check_not_self, check_target_not_admin, check_unban, paging, password_verdict,
    prepare_registration, require_admin, validate_ban_reason, validate_registration,
    validate_user_update, AdminAction, ListUsersQuery, RegisterRequest, UpdateUserRequest,
};
use rps_backend::accounts::{listing_order, search_term};
use rps_backend::config::AppConfig;
use rps_backend::errors::AppError;
use rps_backend::models::{EloHistory, PublicUser, User};

fn user(hash: Option<String>) -> User {
    User {
        id: "u".into(),
        username: "alice_test".into(),
        email: "alice@example.com".into(),
        password_hash: hash,
        avatar_url: None,
        elo: 1000,
        total_games: 4,
        wins: 3,
        losses: 1,
        draws: 0,
        created_at: "now".into(),
        updated_at: "now".into(),
        is_admin: false,
        is_banned: false,
        banned_at: None,
        banned_reason: None,
        is_ai: false,
    }
}

fn bad(r: Result<(), AppError>) -> String {
    match r {
        Err(AppError::BadRequest(m)) => m,
        other => panic!("expected a bad request, got {other:?}"),
    }
}

#[test]
fn register_rejects_invalid_input() {
    let req = RegisterRequest { username: "a".into(), email: "a@example.com".into(), password: "password".into() };
    assert_eq!(bad(validate_registration(&req)), "Username must be between 3 and 20 characters");
    let req = RegisterRequest { username: "valid_name".into(), email: "b@example.com".into(), password: "123".into() };
    assert_eq!(bad(validate_registration(&req)), "Password must be at least 6 characters");
    let req = RegisterRequest { username: "x".repeat(21), email: "c@example.com".into(), password: "secure".into() };
    assert!(validate_registration(&req).is_err());
    let req = RegisterRequest { username: "abc".into(), email: "d@example.com".into(), password: "secure".into() };
    assert!(validate_registration(&req).is_ok());
    // Lengths count bytes: three two-byte letters are six bytes.
    let req = RegisterRequest { username: "ééé".into(), email: "e@example.com".into(), password: "123456".into() };
    assert!(validate_registration(&req).is_ok());
}

#[test]
fn registration_hash_verifies() {
    let req = RegisterRequest { username: "auth_user".into(), email: "auth@example.com".into(), password: "secure-password".into() };
    let hash = prepare_registration(&req).expect("hash");
    assert_ne!(hash, "secure-password");
    assert!(bcrypt::verify("secure-password", &hash).unwrap());
    assert!(check_login(&user(Some(hash.clone())), "secure-password").is_ok());
    match check_login(&user(Some(hash)), "wrong-password") {
        Err(AppError::Unauthorized(m)) => assert_eq!(m, "Invalid email or password"),
        other => panic!("unexpected {other:?}"),
    }
}

#[test]
fn login_refusals() {
    let mut banned = user(None);
    banned.is_banned = true;
    banned.banned_reason = Some("rule violation".into());
    assert!(matches!(check_login(&banned, "x"), Err(AppError::Unauthorized(m)) if m == "Account banned: rule violation"));
    banned.banned_reason = None;
    assert!(matches!(check_login(&banned, "x"), Err(AppError::Unauthorized(m)) if m == "Account banned: No reason provided"));
    assert!(matches!(check_login(&user(None), "x"), Err(AppError::Unauthorized(m)) if m == "This account uses Google sign-in"));
    assert!(matches!(check_login(&user(Some("not-a-hash".into())), "x"), Err(AppError::Internal(_))));
    assert!(password_verdict(Ok(true)).is_ok());
    assert!(matches!(password_verdict(Err("boom".into())), Err(AppError::Internal(m)) if m == "boom"));
}

#[test]
fn admin_guards() {
    assert!(require_admin(true).is_ok());
    assert!(matches!(require_admin(false), Err(AppError::Unauthorized(m)) if m == "Admin access required"));
    let me = "me".to_string();
    let other = "other".to_string();
    assert_eq!(bad(check_not_self(AdminAction::Edit, &me, &me)), "Cannot edit your own account");
    assert_eq!(bad(check_not_self(AdminAction::Ban, &me, &me)), "Cannot ban yourself");
    assert_eq!(bad(check_not_self(AdminAction::Delete, &me, &me)), "Cannot delete yourself");
    assert!(check_not_self(AdminAction::Ban, &me, &other).is_ok());
    assert_eq!(bad(check_target_not_admin(AdminAction::Ban, true)), "Cannot ban admin accounts");
    assert!(check_target_not_admin(AdminAction::Delete, false).is_ok());
    assert_eq!(bad(check_unban(false)), "User is not banned");
    assert!(check_unban(true).is_ok());
}

#[test]
fn update_validation() {
    let base = UpdateUserRequest { username: None, elo: None, wins: None, losses: None, draws: None };
    assert!(validate_user_update(&base).is_ok());
    let r = UpdateUserRequest { username: Some("bad name!".into()), ..base.clone() };
    assert_eq!(bad(validate_user_update(&r)), "Username can only contain alphanumeric characters and underscores");
    let r = UpdateUserRequest { username: Some("stats_user_renamed".into()), elo: Some(1500), ..base.clone() };
    assert!(validate_user_update(&r).is_ok());
    let r = UpdateUserRequest { elo: Some(5001), ..base.clone() };
    assert_eq!(bad(validate_user_update(&r)), "Elo must be between 0 and 5000");
    let r = UpdateUserRequest { wins: Some(-1), ..base.clone() };
    assert_eq!(bad(validate_user_update(&r)), "Wins cannot be negative");
    let r = UpdateUserRequest { losses: Some(-1), ..base.clone() };
    assert_eq!(bad(validate_user_update(&r)), "Losses cannot be negative");
    let r = UpdateUserRequest { draws: Some(-1), ..base };
    assert_eq!(bad(validate_user_update(&r)), "Draws cannot be negative");
}

#[test]
fn ban_reason_rules() {
    assert_eq!(bad(validate_ban_reason("   \t")), "Ban reason is required");
    assert!(validate_ban_reason("test reason").is_ok());
    assert_eq!(bad(validate_ban_reason(&"x".repeat(501))), "Ban reason must be less than 500 characters");
    assert!(validate_ban_reason(&"x".repeat(500)).is_ok());
}

#[test]
fn paging_defaults_and_bounds() {
    let q = ListUsersQuery { search: None, sort_by: None, page: None, limit: None };
    assert_eq!(paging(&q), (1, 20, 0));
    let q = ListUsersQuery { search: None, sort_by: None, page: Some(3), limit: Some(500) };
    assert_eq!(paging(&q), (3, 100, 200));
    let q = ListUsersQuery { search: None, sort_by: None, page: Some(-4), limit: Some(0) };
    assert_eq!(paging(&q), (1, 1, 0));
}

#[test]
fn records_and_errors() {
    let u = user(None);
    assert_eq!(u.win_rate_percent(), 75);
    let mut none = user(None);
    none.total_games = 0;
    none.wins = 0;
    assert_eq!(none.win_rate_percent(), 0);
    let p = PublicUser::from(u);
    assert_eq!(p.username, "alice_test");
    assert_eq!(p.wins, 3);
    let h = EloHistory::new("h".into(), "u".into(), "m".into(), 1000, 1018, "t".into());
    assert_eq!(h.elo_change, 18);
    let e = AppError::BadRequest("invalid input".into());
    assert_eq!(e.status_code(), 400);
    assert_eq!(e.public_message(), "invalid input");
    let e = AppError::Internal("db connection failed".into());
    assert_eq!(e.status_code(), 500);
    assert_eq!(e.public_message(), "Internal server error");
    assert_eq!(e.describe(), "Internal Error: db connection failed");
    assert_eq!(AppError::NotFound("x".into()).status_code(), 404);
    assert_eq!(AppError::Conflict("x".into()).status_code(), 409);
    assert_eq!(AppError::Unauthorized("x".into()).status_code(), 401);
}

#[test]
fn config_defaults() {
    let cfg = AppConfig::from_values(
        "libsql://example.turso.io".into(),
        Some(String::new()),
        "test-secret".into(),
        None,
        None,
    );
    assert_eq!(cfg.database_url, "libsql://example.turso.io");
    assert_eq!(cfg.database_auth_token, None);
    assert_eq!(cfg.backend_port, 8080);
    assert_eq!(cfg.frontend_url, "http://localhost:3000");
}

#[test]
fn listing_rules() {
    assert_eq!(listing_order(&Some("elo".to_string())), "elo DESC");
    assert_eq!(listing_order(&Some("total_games".to_string())), "total_games DESC");
    assert_eq!(listing_order(&Some("created_at".to_string())), "created_at DESC");
    assert_eq!(listing_order(&Some("email; DROP".to_string())), "created_at DESC");
    assert_eq!(listing_order(&None), "created_at DESC");
    assert_eq!(search_term(&Some(String::new())), None);
    assert_eq!(search_term(&Some("example.com".to_string())).as_deref(), Some("example.com"));
    assert_eq!(search_term(&None), None);
}

#[test]
fn win_rate_rounds_half_away_from_zero() {
    let mut u = user(None);
    u.wins = 1;
    u.total_games = 8;
    assert_eq!(u.win_rate_percent(), 13);
    u.wins = 2;
    u.total_games = 3;
    assert_eq!(u.win_rate_percent(), 67);
    u.wins = -1;
    u.total_games = 8;
    assert_eq!(u.win_rate_percent(), -13);
}
