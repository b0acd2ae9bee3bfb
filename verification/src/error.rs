use vstd::prelude::*;

verus! {

/// An error that carries a code under which a caller can look up a translated
/// message, the parameters of that message as pairs of name and value, and a
/// message to fall back on.
#[derive(Clone, Debug)]
pub struct TranslatableError {
    pub error_code: String,
    pub params: Option<Vec<(String, String)>>,
    pub fallback_message: String,
}

impl TranslatableError {
    /// An error without parameters.
    pub fn new(error_code: &str, fallback_message: &str) -> (error: Self)
        ensures
            error.error_code@ == error_code@,
            error.params is None,
            error.fallback_message@ == fallback_message@,
    {
        TranslatableError {
            error_code: String::from_str(error_code),
            params: None,
            fallback_message: String::from_str(fallback_message),
        }
    }

    /// An error with parameters.
    pub fn with_params(
        error_code: &str,
        params: Vec<(String, String)>,
        fallback_message: &str,
    ) -> (error: Self)
        ensures
            error.error_code@ == error_code@,
            error.params == Some(params),
            error.fallback_message@ == fallback_message@,
    {
        TranslatableError {
            error_code: String::from_str(error_code),
            params: Some(params),
            fallback_message: String::from_str(fallback_message),
        }
    }

    /// The text shown for the error: its fallback message.
    pub fn message(&self) -> (text: String)
        ensures
            text@ == self.fallback_message@,
    {
        self.fallback_message.clone()
    }
}

/// What an operation of the library can fail with.
#[derive(Clone, Debug)]
pub enum AppError {
    Config(String),
    MembershipCheckFailed(String),
    BackupFailed(String),
    RestoreFailed(String),
    Validation(String),
    NotFound(String),
    Database(String),
    Translatable(TranslatableError),
}

impl AppError {
    /// Whether the error is a configuration error with this message.
    pub open spec fn is_config(self, text: Seq<char>) -> bool {
        match self {
            AppError::Config(t) => t@ == text,
            _ => false,
        }
    }

    /// Whether the error is a validation error with this message.
    pub open spec fn is_validation(self, text: Seq<char>) -> bool {
        match self {
            AppError::Validation(t) => t@ == text,
            _ => false,
        }
    }

    /// Whether the error reports something that was not found, with this
    /// message.
    pub open spec fn is_not_found(self, text: Seq<char>) -> bool {
        match self {
            AppError::NotFound(t) => t@ == text,
            _ => false,
        }
    }

    /// Whether the error reports a failed restore with this message.
    pub open spec fn is_restore_failed(self, text: Seq<char>) -> bool {
        match self {
            AppError::RestoreFailed(t) => t@ == text,
            _ => false,
        }
    }

    /// Whether the error is a data-access error with this message.
    pub open spec fn is_database(self, text: Seq<char>) -> bool {
        match self {
            AppError::Database(t) => t@ == text,
            _ => false,
        }
    }

    /// Whether the error reports a failed reconciliation with this message.
    pub open spec fn is_check_failed(self, text: Seq<char>) -> bool {
        match self {
            AppError::MembershipCheckFailed(t) => t@ == text,
            _ => false,
        }
    }

    /// Whether the error is a translatable one with this code and this
    /// fallback message.
    pub open spec fn is_translatable(self, code: Seq<char>, fallback: Seq<char>) -> bool {
        match self {
            AppError::Translatable(t) => t.error_code@ == code && t.fallback_message@ == fallback,
            _ => false,
        }
    }
}

/// The text of an error: what kind of error it is, then its message.
pub open spec fn error_text(e: AppError) -> Seq<char> {
    match e {
        AppError::Config(t) => "Configuration error: "@ + t@,
        AppError::MembershipCheckFailed(t) => "Membership check failed: "@ + t@,
        AppError::BackupFailed(t) => "Backup failed: "@ + t@,
        AppError::RestoreFailed(t) => "Restore failed: "@ + t@,
        AppError::Validation(t) => "Validation error: "@ + t@,
        AppError::NotFound(t) => "Resource not found: "@ + t@,
        AppError::Database(t) => "Database error: "@ + t@,
        AppError::Translatable(t) => "Translatable error: "@ + t.fallback_message@,
    }
}

impl AppError {
    /// The text shown for the error.
    pub fn message(&self) -> (text: String)
        ensures
            text@ == error_text(*self),
    {
        let (kind, detail) = match self {
            AppError::Config(t) => ("Configuration error: ", t),
            AppError::MembershipCheckFailed(t) => ("Membership check failed: ", t),
            AppError::BackupFailed(t) => ("Backup failed: ", t),
            AppError::RestoreFailed(t) => ("Restore failed: ", t),
            AppError::Validation(t) => ("Validation error: ", t),
            AppError::NotFound(t) => ("Resource not found: ", t),
            AppError::Database(t) => ("Database error: ", t),
            AppError::Translatable(t) => ("Translatable error: ", &t.fallback_message),
        };
        let mut text = String::from_str(kind);
        text.append(detail.as_str());
        text
    }

    /// The code under which a translated message is looked up, if the error
    /// has one.
    pub fn error_code(&self) -> (code: Option<String>)
        ensures
            match *self {
                AppError::Translatable(t) => code is Some && code->0@ == t.error_code@,
                _ => code is None,
            },
    {
        match self {
            AppError::Translatable(t) => Some(t.error_code.clone()),
            _ => None,
        }
    }

    /// The error for a card identifier that another member has.
    pub fn card_already_exists(card_id: &String) -> (e: AppError)
        ensures
            e.is_translatable(
                "error.card_already_exists"@,
                "failed to create member: card_id already exists!"@,
            ),
            e->Translatable_0.params is Some,
            e->Translatable_0.params->0@.len() == 1,
            e->Translatable_0.params->0@[0].0@ == "card_id"@,
            e->Translatable_0.params->0@[0].1@ == card_id@,
    {
        let mut params: Vec<(String, String)> = Vec::new();
        params.push((String::from_str("card_id"), card_id.clone()));
        AppError::Translatable(
            TranslatableError::with_params(
                ErrorCodes::card_already_exists(),
                params,
                "failed to create member: card_id already exists!",
            ),
        )
    }

    /// The error for a membership type name that another type has.
    pub fn membership_type_name_exists(name: &String) -> (e: AppError)
        ensures
            e.is_translatable(
                "error.membership_type_name_exists"@,
                "failed to update membership_type: name already exists!"@,
            ),
            e->Translatable_0.params is Some,
            e->Translatable_0.params->0@.len() == 1,
            e->Translatable_0.params->0@[0].0@ == "name"@,
            e->Translatable_0.params->0@[0].1@ == name@,
    {
        let mut params: Vec<(String, String)> = Vec::new();
        params.push((String::from_str("name"), name.clone()));
        AppError::Translatable(
            TranslatableError::with_params(
                ErrorCodes::membership_type_name_exists(),
                params,
                "failed to update membership_type: name already exists!",
            ),
        )
    }
}

/// The codes of the translatable errors.
pub struct ErrorCodes;

impl ErrorCodes {
    pub fn membership_type_name_exists() -> (code: &'static str)
        ensures
            code@ == "error.membership_type_name_exists"@,
    {
        "error.membership_type_name_exists"
    }

    pub fn card_already_exists() -> (code: &'static str)
        ensures
            code@ == "error.card_already_exists"@,
    {
        "error.card_already_exists"
    }

    pub fn overlapping_membership() -> (code: &'static str)
        ensures
            code@ == "error.overlapping_membership"@,
    {
        "error.overlapping_membership"
    }

    pub fn username_already_exists() -> (code: &'static str)
        ensures
            code@ == "error.username_already_exists"@,
    {
        "error.username_already_exists"
    }

    pub fn invalid_timezone() -> (code: &'static str)
        ensures
            code@ == "error.invalid_timezone"@,
    {
        "error.invalid_timezone"
    }

    pub fn invalid_backup_url() -> (code: &'static str)
        ensures
            code@ == "error.invalid_backup_url"@,
    {
        "error.invalid_backup_url"
    }

    pub fn backup_url_not_set() -> (code: &'static str)
        ensures
            code@ == "error.backup_url_not_set"@,
    {
        "error.backup_url_not_set"
    }
}

} // verus!
