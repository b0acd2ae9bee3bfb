use crate::backup::{backup_url_refusal, parse_backup_url};
use crate::clock::{timezone_is_known, timezone_known};
use crate::error::{AppError, ErrorCodes, TranslatableError};
use crate::state::AppSettings;
use crate::text::{prefixed, text_view};
use argon2::{PasswordHasher, PasswordVerifier};
use vstd::prelude::*;

verus! {

/// A user of the application.
#[derive(Clone, Debug)]
pub struct User {
    pub id: i64,
    pub username: String,
    pub password_hash: String,
    pub role: String,
    pub created_at: i64,
    pub updated_at: i64,
}

/// What a login is attempted with.
#[derive(Clone, Debug)]
pub struct LoginPayload {
    pub username: String,
    pub password: String,
}

/// How a login ended.
#[derive(Clone, Debug)]
pub struct LoginResponse {
    pub success: bool,
    pub message: String,
    pub username: Option<String>,
    pub role: Option<String>,
}

/// What is asked for when a user is made or changed.
#[derive(Clone, Debug)]
pub struct UserPayload {
    pub id: Option<i64>,
    pub username: String,
    pub role: String,
    pub password: Option<String>,
}

/// What is asked for when the settings are changed.
#[derive(Clone, Debug)]
pub struct UpdateAppSettingsPayload {
    pub language: Option<String>,
    pub theme: Option<String>,
    pub timezone: Option<String>,
    pub backup_url: Option<String>,
    pub backup_period_hours: Option<u64>,
}

/// The message of the error with which a stored password hash is refused,
/// or `None` if the hash is a well-formed PHC string.
pub uninterp spec fn hash_parse_error(hash: Seq<char>) -> Option<Seq<char>>;

/// Whether the password gives the well-formed hash under Argon2.
pub uninterp spec fn password_matches(password: Seq<char>, hash: Seq<char>) -> bool;

/// Calls `PasswordHash::new` on the stored hash and, if it parses,
/// `Argon2::default().verify_password`. An unparsable hash gives the text of
/// the parse error; otherwise the result says whether the password verified.
#[verifier::external_body]
fn check_password(password: &str, hash: &str) -> (res: Result<bool, String>)
    ensures
        res is Ok <==> hash_parse_error(hash@) is None,
        res matches Ok(ok) ==> ok == password_matches(password@, hash@),
        res matches Err(text) ==> hash_parse_error(hash@) == Some(text@),
{
    match argon2::PasswordHash::new(hash) {
        Ok(parsed) => Ok(
            argon2::Argon2::default().verify_password(password.as_bytes(), &parsed).is_ok(),
        ),
        Err(e) => Err(format!("{}", e)),
    }
}

/// Calls `SaltString::generate` with the system's random numbers and
/// `Argon2::default().hash_password`, whose result is a PHC string that
/// verifies the same password, whatever the salt; a failure gives its text.
#[verifier::external_body]
fn argon2_hash(password: &str) -> (res: Result<String, String>)
    ensures
        res matches Ok(hash) ==> is_hash_of(password@, hash@),
{
    let salt = argon2::password_hash::SaltString::generate(&mut argon2::password_hash::rand_core::OsRng);
    match argon2::Argon2::default().hash_password(password.as_bytes(), &salt) {
        Ok(hash) => Ok(hash.to_string()),
        Err(e) => Err(format!("{}", e)),
    }
}

/// The error of a failed hashing, given the text of what went wrong.
pub fn hashing_failure(reason: &String) -> (e: AppError)
    ensures
        e.is_config("Failed to hash password: "@ + reason@),
{
    AppError::Config(prefixed("Failed to hash password: ", reason))
}

/// Hashes a password with Argon2 and a fresh random salt.
pub fn hash_password(password: &str) -> (res: Result<String, AppError>)
    ensures
        res matches Ok(hash) ==> is_hash_of(password@, hash@),
        res matches Err(e) ==> is_hashing_failure(e),
{
    hashed(argon2_hash(password))
}

/// Whether `hash` is a hash of the password: a well-formed PHC string that
/// the password verifies against. A login with the password succeeds for a
/// user who has such a hash.
pub open spec fn is_hash_of(password: Seq<char>, hash: Seq<char>) -> bool {
    hash_parse_error(hash) is None && password_matches(password, hash)
}

/// Whether `e` reports a failed hashing, for whatever reason.
pub open spec fn is_hashing_failure(e: AppError) -> bool {
    exists|reason: Seq<char>| #[trigger] e.is_config("Failed to hash password: "@ + reason)
}

/// What hashing returns for each outcome of Argon2: the hash as it came, or
/// the error that names the reason of the failure.
pub fn hashed(outcome: Result<String, String>) -> (res: Result<String, AppError>)
    ensures
        outcome matches Ok(hash) ==> res == Ok::<String, AppError>(hash),
        outcome matches Err(reason) ==> (res matches Err(e) && e.is_config(
            "Failed to hash password: "@ + reason@,
        )),
{
    match outcome {
        Ok(hash) => Ok(hash),
        Err(reason) => Err(hashing_failure(&reason)),
    }
}

/// Checks a password against a stored hash. A hash that is not well formed
/// is a configuration error.
pub fn verify_password(password: &str, hash: &str) -> (res: Result<bool, AppError>)
    ensures
        res is Ok <==> hash_parse_error(hash@) is None,
        res matches Ok(ok) ==> ok == password_matches(password@, hash@),
        res matches Err(e) ==> hash_parse_error(hash@) is Some && e.is_config(
            "Invalid password hash format: "@ + hash_parse_error(hash@)->0,
        ),
{
    match check_password(password, hash) {
        Ok(ok) => Ok(ok),
        Err(reason) => Err(AppError::Config(prefixed("Invalid password hash format: ", &reason))),
    }
}

/// Whether a login succeeds: the user exists and the password gives the
/// user's hash.
pub open spec fn login_succeeds(password: Seq<char>, user: Option<User>) -> bool {
    user is Some && password_matches(password, user->0.password_hash@)
}

/// Decides a login, given the user that the name of the payload was found
/// for. An unknown user and a wrong password are refused with the same
/// message; a stored hash that is not well formed is an error.
pub fn login(payload: &LoginPayload, user: &Option<User>) -> (res: Result<LoginResponse, AppError>)
    ensures
        res is Err <==> user is Some && hash_parse_error(user->0.password_hash@) is Some,
        res matches Err(e) ==> e.is_config(
            "Invalid password hash format: "@ + hash_parse_error(user->0.password_hash@)->0,
        ),
        res matches Ok(response) ==> {
            &&& response.success == login_succeeds(payload.password@, *user)
            &&& response.success ==> {
                &&& response.message@ == "Login successful"@
                &&& text_view(response.username) == Some(user->0.username@)
                &&& text_view(response.role) == Some(user->0.role@)
            }
            &&& !response.success ==> {
                &&& response.message@ == "Invalid username or password"@
                &&& response.username is None
                &&& response.role is None
            }
        },
{
    match user {
        Some(u) => {
            match verify_password(payload.password.as_str(), u.password_hash.as_str()) {
                Ok(true) => Ok(
                    LoginResponse {
                        success: true,
                        message: String::from_str("Login successful"),
                        username: Some(u.username.clone()),
                        role: Some(u.role.clone()),
                    },
                ),
                Ok(false) => Ok(
                    LoginResponse {
                        success: false,
                        message: String::from_str("Invalid username or password"),
                        username: None,
                        role: None,
                    },
                ),
                Err(e) => Err(e),
            }
        },
        None => Ok(
            LoginResponse {
                success: false,
                message: String::from_str("Invalid username or password"),
                username: None,
                role: None,
            },
        ),
    }
}

/// The message with which a user is refused, or `None` if the user is
/// accepted: the name must not be empty, the role must be `admin` or `user`,
/// and a new user needs a password that is not empty.
pub open spec fn user_refusal(payload: UserPayload) -> Option<Seq<char>> {
    if payload.username@.len() == 0 {
        Some("Username cannot be empty"@)
    } else if payload.role@ != "admin"@ && payload.role@ != "user"@ {
        Some("Role must be 'admin' or 'user'"@)
    } else if payload.id is None && (payload.password is None || payload.password->0@.len() == 0) {
        Some("Password is required for new users"@)
    } else {
        None
    }
}

/// Checks what is asked for a user.
pub fn validate_user(payload: &UserPayload) -> (res: Result<(), AppError>)
    ensures
        res is Ok <==> user_refusal(*payload) is None,
        res matches Err(e) ==> user_refusal(*payload) is Some && e.is_validation(
            user_refusal(*payload)->0,
        ),
{
    if payload.username.as_str().unicode_len() == 0 {
        return Err(AppError::Validation(String::from_str("Username cannot be empty")));
    }
    if !(payload.role == String::from_str("admin")) && !(payload.role == String::from_str("user")) {
        return Err(AppError::Validation(String::from_str("Role must be 'admin' or 'user'")));
    }
    if payload.id.is_none() {
        let given = match &payload.password {
            Some(password) => password.as_str().unicode_len() > 0,
            None => false,
        };
        if !given {
            return Err(
                AppError::Validation(String::from_str("Password is required for new users")),
            );
        }
    }
    Ok(())
}

/// Checks a new password: it must not be empty.
pub fn validate_new_password(new_password: &str) -> (res: Result<(), AppError>)
    ensures
        res is Ok <==> new_password@.len() > 0,
        res matches Err(e) ==> e.is_validation("New password cannot be empty"@),
{
    if new_password.unicode_len() == 0 {
        return Err(AppError::Validation(String::from_str("New password cannot be empty")));
    }
    Ok(())
}

/// Why a change of the settings is refused.
#[derive(Clone, Copy, Debug, PartialEq, Eq, Structural)]
pub enum SettingsRefusal {
    Timezone,
    BackupUrl,
}

/// Why a change of the settings is refused, or `None` if it is made: a time
/// zone must be known, and a backup URL must be one that the backup accepts.
pub open spec fn settings_refusal(payload: UpdateAppSettingsPayload) -> Option<SettingsRefusal> {
    if payload.timezone is Some && !timezone_known(payload.timezone->0@) {
        Some(SettingsRefusal::Timezone)
    } else if payload.backup_url is Some && backup_url_refusal(payload.backup_url->0@) is Some {
        Some(SettingsRefusal::BackupUrl)
    } else {
        None
    }
}

/// Whether a payload asks for any change.
pub open spec fn asks_for_change(payload: UpdateAppSettingsPayload) -> bool {
    payload.language is Some || payload.theme is Some || payload.timezone is Some
        || payload.backup_url is Some || payload.backup_period_hours is Some
}

/// The text of a setting after a change: the new text where one is given.
pub open spec fn replaced(current: Seq<char>, given: Option<String>) -> Seq<char> {
    match given {
        Some(text) => text@,
        None => current,
    }
}

/// Changes the settings as the payload asks, field by field in the order
/// language, theme, time zone, backup URL, backup period, and tells whether
/// anything was asked for. A refusal stops the change: the fields before the
/// refused one are changed, the refused one and those after it are not.
pub fn update_app_settings(settings: &mut AppSettings, payload: UpdateAppSettingsPayload) -> (res:
    Result<bool, AppError>)
    ensures
        final(settings).gym_name == old(settings).gym_name,
        final(settings).gym_code == old(settings).gym_code,
        final(settings).backup_enabled == old(settings).backup_enabled,
        final(settings).language@ == replaced(old(settings).language@, payload.language),
        final(settings).theme@ == replaced(old(settings).theme@, payload.theme),
        res is Ok <==> settings_refusal(payload) is None,
        res matches Ok(changed) ==> {
            &&& changed == asks_for_change(payload)
            &&& final(settings).timezone@ == replaced(old(settings).timezone@, payload.timezone)
            &&& text_view(final(settings).backup_url) == if payload.backup_url is Some {
                text_view(payload.backup_url)
            } else {
                text_view(old(settings).backup_url)
            }
            &&& final(settings).backup_period_hours == if payload.backup_period_hours is Some {
                payload.backup_period_hours
            } else {
                old(settings).backup_period_hours
            }
        },
        res matches Err(e) ==> {
            &&& final(settings).backup_url == old(settings).backup_url
            &&& final(settings).backup_period_hours == old(settings).backup_period_hours
            &&& settings_refusal(payload) == Some(SettingsRefusal::Timezone) ==> {
                &&& final(settings).timezone == old(settings).timezone
                &&& e.is_translatable(
                    "error.invalid_timezone"@,
                    "Invalid timezone configuration!"@,
                )
            }
            &&& settings_refusal(payload) == Some(SettingsRefusal::BackupUrl) ==> {
                &&& final(settings).timezone@ == replaced(
                    old(settings).timezone@,
                    payload.timezone,
                )
                &&& e.is_translatable(
                    "error.invalid_backup_url"@,
                    "Invalid backup URL format!"@,
                )
            }
        },
{
    let mut changed = false;
    match payload.language {
        Some(language) => {
            settings.language = language;
            changed = true;
        },
        None => {},
    }
    match payload.theme {
        Some(theme) => {
            settings.theme = theme;
            changed = true;
        },
        None => {},
    }
    match payload.timezone {
        Some(timezone) => {
            if !timezone_is_known(timezone.as_str()) {
                return Err(
                    AppError::Translatable(
                        TranslatableError::new(
                            ErrorCodes::invalid_timezone(),
                            "Invalid timezone configuration!",
                        ),
                    ),
                );
            }
            settings.timezone = timezone;
            changed = true;
        },
        None => {},
    }
    match payload.backup_url {
        Some(url) => {
            match parse_backup_url(url.as_str()) {
                Ok(_) => {
                    settings.backup_url = Some(url);
                    changed = true;
                },
                Err(_) => {
                    return Err(
                        AppError::Translatable(
                            TranslatableError::new(
                                ErrorCodes::invalid_backup_url(),
                                "Invalid backup URL format!",
                            ),
                        ),
                    );
                },
            }
        },
        None => {},
    }
    match payload.backup_period_hours {
        Some(hours) => {
            settings.backup_period_hours = Some(hours);
            changed = true;
        },
        None => {},
    }
    Ok(changed)
}

} // verus!
