//! Upload failures, sorted into the few categories the user is told about.

use crate::text::contains;
use crate::text::has_substring;
use vstd::prelude::*;
use vstd::string::StringExecFns;

verus! {

/// What went wrong with an upload, as far as the user needs to know.
#[derive(Clone, Copy, Debug, PartialEq, Eq, Structural)]
pub enum ErrorCategory {
    /// The server refused the payload for its size.
    PayloadTooLarge,
    /// Credentials are missing or were refused.
    Unauthorized,
    /// The request ran out of time.
    Timeout,
    /// The server could not be reached.
    ConnectionFailure,
    /// The file could not be read from disk.
    LocalRead,
    /// Anything else.
    Unclassified,
}

/// The category of a raw failure text. The first rule that matches decides.
pub open spec fn category_of(err: Seq<char>) -> ErrorCategory {
    if has_substring(err, "413"@) || has_substring(err, "too large"@) || has_substring(
        err,
        "payload"@,
    ) {
        ErrorCategory::PayloadTooLarge
    } else if has_substring(err, "401"@) || has_substring(err, "403"@) || has_substring(
        err,
        "Not authenticated"@,
    ) || has_substring(err, "No user ID found"@) {
        ErrorCategory::Unauthorized
    } else if has_substring(err, "timeout"@) || has_substring(err, "timed out"@) {
        ErrorCategory::Timeout
    } else if has_substring(err, "connection"@) || has_substring(err, "dns"@) || has_substring(
        err,
        "resolve"@,
    ) {
        ErrorCategory::ConnectionFailure
    } else if has_substring(err, "Failed to read file"@) {
        ErrorCategory::LocalRead
    } else {
        ErrorCategory::Unclassified
    }
}

/// The message shown for a failure of the given category. The raw failure
/// text is never shown.
pub open spec fn category_message(category: ErrorCategory) -> Seq<char> {
    match category {
        ErrorCategory::PayloadTooLarge => "El servidor rechazó el archivo por ser muy grande"@,
        ErrorCategory::Unauthorized => "Sin autorización — cerrá sesión y volvé a ingresar"@,
        ErrorCategory::Timeout => "Tiempo de espera agotado — conexión lenta o servidor no responde"@,
        ErrorCategory::ConnectionFailure => "Error de conexión — verificá tu internet"@,
        ErrorCategory::LocalRead => "No se pudo leer el archivo"@,
        ErrorCategory::Unclassified => "Error inesperado al subir el archivo"@,
    }
}

/// The message shown to the user for a raw failure text.
pub open spec fn humanized(err: Seq<char>) -> Seq<char> {
    category_message(category_of(err))
}

/// Sorts a raw failure text into its category.
pub fn classify_error(err: &str) -> (category: ErrorCategory)
    ensures
        category == category_of(err@),
{
    if contains(err, "413") || contains(err, "too large") || contains(err, "payload") {
        ErrorCategory::PayloadTooLarge
    } else if contains(err, "401") || contains(err, "403") || contains(err, "Not authenticated")
        || contains(err, "No user ID found") {
        ErrorCategory::Unauthorized
    } else if contains(err, "timeout") || contains(err, "timed out") {
        ErrorCategory::Timeout
    } else if contains(err, "connection") || contains(err, "dns") || contains(err, "resolve") {
        ErrorCategory::ConnectionFailure
    } else if contains(err, "Failed to read file") {
        ErrorCategory::LocalRead
    } else {
        ErrorCategory::Unclassified
    }
}

impl ErrorCategory {
    /// The message shown for a failure of this category.
    pub fn message(&self) -> (message: String)
        ensures
            message@ == category_message(*self),
    {
        match self {
            ErrorCategory::PayloadTooLarge => String::from_str(
                "El servidor rechazó el archivo por ser muy grande",
            ),
            ErrorCategory::Unauthorized => String::from_str(
                "Sin autorización — cerrá sesión y volvé a ingresar",
            ),
            ErrorCategory::Timeout => String::from_str(
                "Tiempo de espera agotado — conexión lenta o servidor no responde",
            ),
            ErrorCategory::ConnectionFailure => String::from_str(
                "Error de conexión — verificá tu internet",
            ),
            ErrorCategory::LocalRead => String::from_str("No se pudo leer el archivo"),
            ErrorCategory::Unclassified => String::from_str("Error inesperado al subir el archivo"),
        }
    }
}

/// Turns a raw failure text into the message shown to the user: the fixed
/// message of the failure's category.
pub fn humanize_error(err: &str) -> (message: String)
    ensures
        message@ == humanized(err@),
{
    classify_error(err).message()
}

/// Whatever the failure, the user is shown one of six fixed messages, and
/// two failures of one category are shown the same message: nothing of the
/// raw text gets through.
pub proof fn raw_text_is_never_shown(err: Seq<char>, other: Seq<char>)
    ensures
        humanized(err) == category_message(category_of(err)),
        category_of(err) == category_of(other) ==> humanized(err) == humanized(other),
        ({
            ||| humanized(err) == "El servidor rechazó el archivo por ser muy grande"@
            ||| humanized(err) == "Sin autorización — cerrá sesión y volvé a ingresar"@
            ||| humanized(err)
                == "Tiempo de espera agotado — conexión lenta o servidor no responde"@
            ||| humanized(err) == "Error de conexión — verificá tu internet"@
            ||| humanized(err) == "No se pudo leer el archivo"@
            ||| humanized(err) == "Error inesperado al subir el archivo"@
        }),
{
}

} // verus!
