// Tests of the repository and the OTP workflow against the in-memory back
// end: registration with case normalization, login, the generate → verify →
// validate → disable lifecycle, and the error paths.

use auth_2fa::db::{MemoryRepo, Repo};
use auth_2fa::models::{UserLoginSchema, UserRegisterSchema};
use auth_2fa::otp_handlers::{
    disable_otp_handler_inner, generate_otp_handler_inner, login_user_handler_inner,
    register_user_handler_inner, validate_otp_handler_inner, verify_otp_handler_inner,
    DisableOtpOutcome, GenerateOtpOutcome, ValidateOtpOutcome, VerifyOtpOutcome,
};
use auth_2fa::models::{GenerateOTPSchema, VerifyOTPSchema};
use auth_2fa::response::{GenericResponse, UserData};
use auth_2fa::totp::compute_code;

const T0: u64 = 1_700_000_000;

fn register(repo: &mut MemoryRepo, name: &str, email: &str, password: &str, now: u64) -> bool {
    let body = UserRegisterSchema {
        name: name.to_string(),
        email: email.to_string(),
        password: password.to_string(),
    };
    register_user_handler_inner(repo, body, now).is_ok()
}

fn login(repo: &mut MemoryRepo, email: &str) -> Option<UserData> {
    let body = UserLoginSchema {
        email: email.to_string(),
        password: "p".to_string(),
    };
    login_user_handler_inner(repo, &body).map(|resp| resp.user)
}

#[test]
fn register_then_login() {
    let mut repo = MemoryRepo::new();
    assert!(register(&mut repo, "Ann", "Ann@x.com", "p", T0));
    let user = login(&mut repo, "Ann@x.com").expect("login should find the user");
    assert_eq!(user.email, "ann@x.com");
    assert_eq!(user.name, "Ann");
    assert_eq!(user.id.len(), 36);
    assert!(!user.otp_enabled);
    assert!(!user.otp_verified);
    assert!(user.otp_base32.is_none());
    assert!(user.otp_auth_url.is_none());
    assert_eq!(user.createdAt, T0);
    assert_eq!(user.updatedAt, T0);
}

#[test]
fn register_same_email_is_a_conflict() {
    let mut repo = MemoryRepo::new();
    assert!(register(&mut repo, "Ann", "ann@x.com", "p", T0));
    assert!(!register(&mut repo, "Ann2", "ann@x.com", "q", T0 + 1));
}

#[test]
fn register_email_differing_only_in_case_is_a_conflict() {
    let mut repo = MemoryRepo::new();
    assert!(register(&mut repo, "Ann", "Ann@x.com", "p", T0));
    assert!(!register(&mut repo, "Ann2", "ann@x.com", "q", T0 + 1));
    assert!(!register(&mut repo, "Ann3", "ANN@X.COM", "r", T0 + 2));
    // The one stored record carries the normalized form.
    assert_eq!(login(&mut repo, "ann@x.com").unwrap().email, "ann@x.com");
}

#[test]
fn login_unknown_email_fails() {
    let mut repo = MemoryRepo::new();
    assert!(register(&mut repo, "Ann", "ann@x.com", "p", T0));
    assert!(login(&mut repo, "bob@x.com").is_none());
}

#[test]
fn login_is_case_insensitive_via_normalization() {
    let mut repo = MemoryRepo::new();
    assert!(register(&mut repo, "Ann", "Ann@x.com", "p", T0));
    assert!(login(&mut repo, "ANN@X.com").is_some());
}

fn generate(repo: &mut MemoryRepo, user_id: &str, email: &str, now: u64) -> (String, String) {
    let body = GenerateOTPSchema {
        email: email.to_string(),
        user_id: user_id.to_string(),
    };
    match generate_otp_handler_inner(repo, &body, now) {
        GenerateOtpOutcome::Generated {
            otp_base32,
            otp_auth_url,
        } => (otp_base32, otp_auth_url),
        _ => panic!("expected a generated secret"),
    }
}

fn verify(repo: &mut MemoryRepo, user_id: &str, token: &str, now: u64) -> VerifyOtpOutcome {
    let body = VerifyOTPSchema {
        user_id: user_id.to_string(),
        token: token.to_string(),
    };
    verify_otp_handler_inner(repo, &body, now)
}

fn validate(repo: &mut MemoryRepo, user_id: &str, token: &str, now: u64) -> ValidateOtpOutcome {
    let body = VerifyOTPSchema {
        user_id: user_id.to_string(),
        token: token.to_string(),
    };
    validate_otp_handler_inner(repo, &body, now)
}

#[test]
fn full_lifecycle_scenario() {
    let mut repo = MemoryRepo::new();
    // Registration, then a conflict under another spelling.
    assert!(register(&mut repo, "Ann", "Ann@x.com", "p", T0));
    assert!(!register(&mut repo, "Ann", "ann@x.com", "p", T0 + 1));
    let id = login(&mut repo, "ann@x.com").unwrap().id;

    // Generate: 32 characters of unpadded base32 and an otpauth URI.
    let (base32, uri) = generate(&mut repo, &id, "ann@x.com", T0 + 2);
    assert_eq!(base32.len(), 32);
    assert!(uri.starts_with("otpauth://totp/"));
    assert_eq!(
        uri,
        format!("otpauth://totp/PSAR:ann@x.com?secret={base32}&issuer=PSAR")
    );
    // Flags untouched until a successful verify.
    let shown = login(&mut repo, "ann@x.com").unwrap();
    assert!(!shown.otp_enabled && !shown.otp_verified);
    assert_eq!(shown.otp_base32.as_deref(), Some(base32.as_str()));
    assert_eq!(shown.otp_auth_url.as_deref(), Some(uri.as_str()));

    // The correct code verifies; both flags come on.
    let now = T0 + 40;
    let code = compute_code(&base32, now).unwrap();
    match verify(&mut repo, &id, &code, now) {
        VerifyOtpOutcome::Verified { user } => {
            assert!(user.otp_enabled && user.otp_verified);
        }
        _ => panic!("expected the correct code to verify"),
    }
    let shown = login(&mut repo, "ann@x.com").unwrap();
    assert!(shown.otp_enabled && shown.otp_verified);

    // An arbitrary wrong 6-digit code is forbidden.
    let wrong = if code == "999999" { "999998" } else { "999999" };
    assert!(matches!(
        verify(&mut repo, &id, wrong, now),
        VerifyOtpOutcome::InvalidToken
    ));
    assert!(matches!(
        validate(&mut repo, &id, wrong, now),
        ValidateOtpOutcome::InvalidToken
    ));

    // Validation accepts the correct code without touching state.
    let code = compute_code(&base32, now + 3).unwrap();
    assert!(matches!(
        validate(&mut repo, &id, &code, now + 3),
        ValidateOtpOutcome::Valid
    ));

    // Disable clears everything in one update.
    match disable_otp_handler_inner(&mut repo, &id, now + 4) {
        DisableOtpOutcome::Disabled { user } => {
            assert!(!user.otp_enabled && !user.otp_verified);
            assert!(user.otp_base32.is_none() && user.otp_auth_url.is_none());
        }
        _ => panic!("expected the user to be disabled"),
    }
    let shown = login(&mut repo, "ann@x.com").unwrap();
    assert!(!shown.otp_enabled && !shown.otp_verified);
    assert!(shown.otp_base32.is_none() && shown.otp_auth_url.is_none());

    // A later validation is refused: OTP is not enabled.
    let code = compute_code(&base32, now + 5).unwrap();
    assert!(matches!(
        validate(&mut repo, &id, &code, now + 5),
        ValidateOtpOutcome::NotEnabled
    ));
}

#[test]
fn generate_overwrites_an_unconfirmed_secret() {
    let mut repo = MemoryRepo::new();
    assert!(register(&mut repo, "Ann", "ann@x.com", "p", T0));
    let id = login(&mut repo, "ann@x.com").unwrap().id;
    let (first, _) = generate(&mut repo, &id, "ann@x.com", T0 + 1);
    let (second, _) = generate(&mut repo, &id, "ann@x.com", T0 + 2);
    assert_ne!(first, second);
    let shown = login(&mut repo, "ann@x.com").unwrap();
    assert_eq!(shown.otp_base32.as_deref(), Some(second.as_str()));
    // Only the fresh secret's codes verify now.
    let now = T0 + 40;
    let stale = compute_code(&first, now).unwrap();
    let fresh = compute_code(&second, now).unwrap();
    if stale != fresh {
        assert!(matches!(
            verify(&mut repo, &id, &stale, now),
            VerifyOtpOutcome::InvalidToken
        ));
    }
    assert!(matches!(
        verify(&mut repo, &id, &fresh, now),
        VerifyOtpOutcome::Verified { .. }
    ));
}

#[test]
fn disable_twice_leaves_the_state_of_disabling_once() {
    let mut repo = MemoryRepo::new();
    assert!(register(&mut repo, "Ann", "ann@x.com", "p", T0));
    let id = login(&mut repo, "ann@x.com").unwrap().id;
    let (base32, _) = generate(&mut repo, &id, "ann@x.com", T0 + 1);
    let now = T0 + 40;
    let code = compute_code(&base32, now).unwrap();
    assert!(matches!(
        verify(&mut repo, &id, &code, now),
        VerifyOtpOutcome::Verified { .. }
    ));

    assert!(matches!(
        disable_otp_handler_inner(&mut repo, &id, now + 1),
        DisableOtpOutcome::Disabled { .. }
    ));
    let once = login(&mut repo, "ann@x.com").unwrap();
    match disable_otp_handler_inner(&mut repo, &id, now + 1) {
        DisableOtpOutcome::Disabled { user } => {
            assert_eq!(user.otp_enabled, once.otp_enabled);
            assert_eq!(user.otp_verified, once.otp_verified);
            assert_eq!(user.otp_base32, once.otp_base32);
            assert_eq!(user.otp_auth_url, once.otp_auth_url);
            assert_eq!(user.updatedAt, once.updatedAt);
        }
        _ => panic!("expected the user to be disabled"),
    }
}

#[test]
fn workflow_errors_for_unknown_and_unprepared_users() {
    let mut repo = MemoryRepo::new();
    assert!(register(&mut repo, "Ann", "ann@x.com", "p", T0));
    let id = login(&mut repo, "ann@x.com").unwrap().id;

    // Unknown user id.
    assert!(matches!(
        verify(&mut repo, "no-such-id", "123456", T0),
        VerifyOtpOutcome::NotFound
    ));
    assert!(matches!(
        validate(&mut repo, "no-such-id", "123456", T0),
        ValidateOtpOutcome::NotFound
    ));
    assert!(matches!(
        disable_otp_handler_inner(&mut repo, "no-such-id", T0),
        DisableOtpOutcome::NotFound
    ));
    let body = GenerateOTPSchema {
        email: "ann@x.com".to_string(),
        user_id: "no-such-id".to_string(),
    };
    assert!(matches!(
        generate_otp_handler_inner(&mut repo, &body, T0),
        GenerateOtpOutcome::NotFound
    ));

    // A known user without a generated secret.
    assert!(matches!(
        verify(&mut repo, &id, "123456", T0),
        VerifyOtpOutcome::OtpMissing
    ));
    // Validation is refused earlier: OTP is not enabled yet.
    assert!(matches!(
        validate(&mut repo, &id, "123456", T0),
        ValidateOtpOutcome::NotEnabled
    ));
    // A malformed token against a generated secret is an invalid token.
    let (_, _) = generate(&mut repo, &id, "ann@x.com", T0 + 1);
    assert!(matches!(
        verify(&mut repo, &id, "12345", T0 + 2),
        VerifyOtpOutcome::InvalidToken
    ));
}

#[test]
fn disable_is_allowed_in_any_state() {
    let mut repo = MemoryRepo::new();
    assert!(register(&mut repo, "Ann", "ann@x.com", "p", T0));
    let id = login(&mut repo, "ann@x.com").unwrap().id;
    // Disabling a user that never generated a secret succeeds and clears
    // nothing but the timestamps.
    match disable_otp_handler_inner(&mut repo, &id, T0 + 1) {
        DisableOtpOutcome::Disabled { user } => {
            assert!(!user.otp_enabled && !user.otp_verified);
            assert!(user.otp_base32.is_none() && user.otp_auth_url.is_none());
            assert_eq!(user.updatedAt, T0 + 1);
        }
        _ => panic!("expected the user to be disabled"),
    }
}

#[test]
fn update_time_never_precedes_creation() {
    let mut repo = MemoryRepo::new();
    assert!(register(&mut repo, "Ann", "ann@x.com", "p", T0));
    let id = login(&mut repo, "ann@x.com").unwrap().id;
    // A clock handed in behind the creation time is clamped.
    match disable_otp_handler_inner(&mut repo, &id, T0 - 50) {
        DisableOtpOutcome::Disabled { user } => {
            assert_eq!(user.updatedAt, T0);
            assert_eq!(user.createdAt, T0);
        }
        _ => panic!("expected the user to be disabled"),
    }
}

#[test]
fn repo_custom_field_lookup() {
    let mut repo = MemoryRepo::new();
    assert!(register(&mut repo, "Ann", "ann@x.com", "p", T0));
    let id = login(&mut repo, "ann@x.com").unwrap().id;
    assert!(repo.find_user_by_custom_field("user_id", &id).is_some());
    assert!(repo
        .find_user_by_custom_field("email", "ann@x.com")
        .is_some());
    assert!(repo.find_user_by_custom_field("id", &id).is_some());
    assert!(repo.find_user_by_custom_field("name", "Ann").is_some());
    assert!(repo.find_user_by_custom_field("name", "Bob").is_none());
    assert!(repo.find_user_by_custom_field("password", "p").is_some());
    assert!(repo.find_user_by_custom_field("otp_base32", "x").is_none());
    assert!(repo.find_user_by_custom_field("shoe_size", "Ann").is_none());
    assert!(repo.find_user_by_custom_field("user_id", "zzz").is_none());
    assert!(repo.find_user_by_id(&id).is_some());
    assert!(repo.find_user_by_email("ann@x.com").is_some());
    assert!(repo.find_user_by_email("Ann@x.com").is_none());
}

#[test]
fn registration_response_messages() {
    let mut repo = MemoryRepo::new();
    let body = UserRegisterSchema {
        name: "Ann".to_string(),
        email: "Ann@x.com".to_string(),
        password: "p".to_string(),
    };
    let ok = register_user_handler_inner(&mut repo, body, T0).unwrap();
    assert_eq!(ok.status, "success");
    assert_eq!(ok.message, "user registered");

    let again = UserRegisterSchema {
        name: "Ann2".to_string(),
        email: "ANN@X.COM".to_string(),
        password: "q".to_string(),
    };
    let err = register_user_handler_inner(&mut repo, again, T0 + 1).unwrap_err();
    assert_eq!(err.status, "error");
    assert_eq!(err.message, "user with email ANN@X.COM already exists");
}

#[test]
fn generic_response_constructors() {
    let ok = GenericResponse::ok("all good");
    assert_eq!(ok.status, "success");
    assert_eq!(ok.message, "all good");
    let err = GenericResponse::error("broken");
    assert_eq!(err.status, "error");
    assert_eq!(err.message, "broken");
}

#[test]
fn user_data_projection_drops_the_password() {
    let mut repo = MemoryRepo::new();
    assert!(register(&mut repo, "Ann", "ann@x.com", "p", T0));
    let stored = repo.find_user_by_email("ann@x.com").unwrap();
    assert_eq!(stored.password.as_deref(), Some("p"));
    let shown = auth_2fa::response::user_to_response(&stored);
    assert_eq!(shown.id, stored.id);
    assert_eq!(shown.email, "ann@x.com");
    let shown2: UserData = UserData::from(stored);
    assert_eq!(shown2.email, "ann@x.com");
    assert_eq!(shown2.name, "Ann");
}
