use gym_manager::admin::{
    hash_password, hashed, hashing_failure, login, update_app_settings, validate_new_password,
    validate_user, verify_password, LoginPayload, UpdateAppSettingsPayload, User, UserPayload,
};
use gym_manager::error::AppError;
use gym_manager::state::AppSettings;

fn settings() -> AppSettings {
    AppSettings {
        backup_url: None,
        backup_period_hours: Some(12),
        language: "en".to_string(),
        theme: "light".to_string(),
        timezone: "Europe/Belgrade".to_string(),
        backup_enabled: false,
        gym_name: "Gym".to_string(),
        gym_code: "ABCDEFGHIJ".to_string(),
    }
}

fn update() -> UpdateAppSettingsPayload {
    UpdateAppSettingsPayload {
        language: None,
        theme: None,
        timezone: None,
        backup_url: None,
        backup_period_hours: None,
    }
}

fn user(name: &str, role: &str, hash: String) -> User {
    User {
        id: 1,
        username: name.to_string(),
        password_hash: hash,
        role: role.to_string(),
        created_at: 0,
        updated_at: 0,
    }
}

const KNOWN_HASH: &str =
    "$argon2id$v=19$m=16,t=2,p=1$c2FsdHNhbHQ$8Wvhsj9FxWoUQTaRNAZsEw";

#[test]
fn hashed_password_verifies_and_others_do_not() {
    let hash = hash_password("correct horse").unwrap();
    assert!(hash.starts_with("$argon2id$"));
    assert_ne!(hash, "correct horse");
    assert_eq!(verify_password("correct horse", &hash).unwrap(), true);
    assert_eq!(verify_password("Correct horse", &hash).unwrap(), false);
    assert_eq!(verify_password("", &hash).unwrap(), false);
    let again = hash_password("correct horse").unwrap();
    assert_ne!(hash, again);
    assert_eq!(verify_password("correct horse", &again).unwrap(), true);
}

#[test]
fn malformed_hash_is_a_configuration_error() {
    for hash in ["", "admin", "$argon2id$", "plain:text"] {
        match verify_password("admin", hash) {
            Err(AppError::Config(text)) => {
                assert!(text.starts_with("Invalid password hash format: "));
                assert!(text.len() > "Invalid password hash format: ".len());
            }
            other => panic!("expected a configuration error, got {:?}", other),
        }
    }
}

#[test]
fn well_formed_hash_of_another_password_does_not_verify() {
    assert_eq!(verify_password("surely not this", KNOWN_HASH).unwrap(), false);
}

#[test]
fn hashing_failure_names_the_reason() {
    match hashing_failure(&"salt invalid".to_string()) {
        AppError::Config(text) => assert_eq!(text, "Failed to hash password: salt invalid"),
        other => panic!("expected a configuration error, got {:?}", other),
    }
}

#[test]
fn hashing_outcome_is_handed_on_or_reported() {
    assert_eq!(hashed(Ok("$argon2id$stored".to_string())).unwrap(), "$argon2id$stored");
    match hashed(Err("output size invalid".to_string())) {
        Err(AppError::Config(text)) => {
            assert_eq!(text, "Failed to hash password: output size invalid")
        }
        other => panic!("expected a configuration error, got {:?}", other),
    }
}

#[test]
fn login_succeeds_only_with_the_right_password() {
    let hash = hash_password("s3cret").unwrap();
    let known = Some(user("mila", "admin", hash));
    let good = login(
        &LoginPayload { username: "mila".to_string(), password: "s3cret".to_string() },
        &known,
    )
    .unwrap();
    assert!(good.success);
    assert_eq!(good.message, "Login successful");
    assert_eq!(good.username, Some("mila".to_string()));
    assert_eq!(good.role, Some("admin".to_string()));
    let bad = login(
        &LoginPayload { username: "mila".to_string(), password: "guess".to_string() },
        &known,
    )
    .unwrap();
    assert!(!bad.success);
    assert_eq!(bad.message, "Invalid username or password");
    assert_eq!(bad.username, None);
    assert_eq!(bad.role, None);
    let unknown = login(
        &LoginPayload { username: "nobody".to_string(), password: "s3cret".to_string() },
        &None,
    )
    .unwrap();
    assert!(!unknown.success);
    assert_eq!(unknown.message, "Invalid username or password");
    let broken = login(
        &LoginPayload { username: "mila".to_string(), password: "s3cret".to_string() },
        &Some(user("mila", "admin", "not a hash".to_string())),
    );
    assert!(matches!(broken, Err(AppError::Config(_))));
}

fn asked(id: Option<i64>, name: &str, role: &str, password: Option<&str>) -> UserPayload {
    UserPayload {
        id,
        username: name.to_string(),
        role: role.to_string(),
        password: password.map(|p| p.to_string()),
    }
}

fn refusal(payload: &UserPayload) -> String {
    match validate_user(payload) {
        Err(AppError::Validation(text)) => text,
        other => panic!("expected a validation error, got {:?}", other),
    }
}

#[test]
fn user_is_checked_before_it_is_saved() {
    assert!(validate_user(&asked(None, "mila", "admin", Some("pw"))).is_ok());
    assert!(validate_user(&asked(Some(2), "mila", "user", None)).is_ok());
    assert_eq!(refusal(&asked(None, "", "owner", None)), "Username cannot be empty");
    assert_eq!(refusal(&asked(None, "mila", "owner", None)), "Role must be 'admin' or 'user'");
    assert_eq!(refusal(&asked(None, "mila", "Admin", Some("pw"))), "Role must be 'admin' or 'user'");
    assert_eq!(refusal(&asked(None, "mila", "user", None)), "Password is required for new users");
    assert_eq!(refusal(&asked(None, "mila", "user", Some(""))), "Password is required for new users");
    assert!(validate_user(&asked(Some(2), "mila", "user", Some(""))).is_ok());
}

#[test]
fn new_password_must_not_be_empty() {
    assert!(validate_new_password("x").is_ok());
    assert!(matches!(
        validate_new_password(""),
        Err(AppError::Validation(ref text)) if text == "New password cannot be empty"
    ));
}

#[test]
fn settings_change_field_by_field() {
    let mut current = settings();
    assert_eq!(update_app_settings(&mut current, update()).unwrap(), false);
    assert_eq!(current.language, "en");
    let mut asked = update();
    asked.language = Some("sr".to_string());
    asked.theme = Some("dark".to_string());
    asked.timezone = Some("America/New_York".to_string());
    asked.backup_url = Some("https://backup.example.com/gym-1?token=abc".to_string());
    asked.backup_period_hours = Some(6);
    assert_eq!(update_app_settings(&mut current, asked).unwrap(), true);
    assert_eq!(current.language, "sr");
    assert_eq!(current.theme, "dark");
    assert_eq!(current.timezone, "America/New_York");
    assert_eq!(
        current.backup_url,
        Some("https://backup.example.com/gym-1?token=abc".to_string())
    );
    assert_eq!(current.backup_period_hours, Some(6));
    assert_eq!(current.gym_name, "Gym");
    assert_eq!(current.gym_code, "ABCDEFGHIJ");
}

#[test]
fn unknown_time_zone_stops_the_change_after_language_and_theme() {
    let mut current = settings();
    let mut asked = update();
    asked.language = Some("sr".to_string());
    asked.timezone = Some("Europe/Atlantis".to_string());
    asked.backup_period_hours = Some(6);
    match update_app_settings(&mut current, asked) {
        Err(AppError::Translatable(e)) => {
            assert_eq!(e.error_code, "error.invalid_timezone");
            assert_eq!(e.fallback_message, "Invalid timezone configuration!");
            assert_eq!(e.params, None);
        }
        other => panic!("expected a translatable error, got {:?}", other),
    }
    assert_eq!(current.language, "sr");
    assert_eq!(current.timezone, "Europe/Belgrade");
    assert_eq!(current.backup_period_hours, Some(12));
}

#[test]
fn bad_backup_url_stops_the_change_after_the_time_zone() {
    let mut current = settings();
    let mut asked = update();
    asked.timezone = Some("Asia/Tokyo".to_string());
    asked.backup_url = Some("https://backup.example.com/gym-1".to_string());
    asked.backup_period_hours = Some(6);
    match update_app_settings(&mut current, asked) {
        Err(AppError::Translatable(e)) => {
            assert_eq!(e.error_code, "error.invalid_backup_url");
            assert_eq!(e.fallback_message, "Invalid backup URL format!");
        }
        other => panic!("expected a translatable error, got {:?}", other),
    }
    assert_eq!(current.timezone, "Asia/Tokyo");
    assert_eq!(current.backup_url, None);
    assert_eq!(current.backup_period_hours, Some(12));
    let mut empty = update();
    empty.backup_url = Some(String::new());
    assert!(update_app_settings(&mut current, empty).is_err());
}
