//! Checks a file must pass before an upload is attempted.

use crate::text::decimal;
use crate::text::decimal_text;
use vstd::prelude::*;
use vstd::string::StringExecFns;

verus! {

/// Largest file that is uploaded: 200 MiB.
pub const MAX_FILE_SIZE: u64 = 200 * 1024 * 1024;

/// Bytes in one mebibyte.
pub const MIB: u64 = 1024 * 1024;

/// Why a file is not uploaded at all. None of these is retried.
#[derive(Debug, PartialEq, Eq)]
pub enum ValidationError {
    /// The file holds no bytes.
    Empty,
    /// The file is larger than [`MAX_FILE_SIZE`].
    TooLarge { size: u64 },
    /// The file's metadata could not be read.
    Unreadable { reason: String },
}

/// What a [`ValidationError`] says.
pub enum Rejection {
    Empty,
    TooLarge { size: nat },
    Unreadable { reason: Seq<char> },
}

impl View for ValidationError {
    type V = Rejection;

    open spec fn view(&self) -> Rejection {
        match self {
            ValidationError::Empty => Rejection::Empty,
            ValidationError::TooLarge { size } => Rejection::TooLarge { size: *size as nat },
            ValidationError::Unreadable { reason } => Rejection::Unreadable { reason: reason@ },
        }
    }
}

/// The verdict on a file of `size` bytes.
pub open spec fn size_verdict(size: nat) -> Option<Rejection> {
    if size == 0 {
        Some(Rejection::Empty)
    } else if size > MAX_FILE_SIZE {
        Some(Rejection::TooLarge { size })
    } else {
        None
    }
}

/// `size` in mebibytes, rounded to the nearest whole number, halves to the
/// even neighbour.
pub open spec fn rounded_mib(size: nat) -> nat {
    let whole = size / (MIB as nat);
    let rest = size % (MIB as nat);
    if rest > MIB / 2 || (rest == MIB / 2 && whole % 2 == 1) {
        whole + 1
    } else {
        whole
    }
}

/// The reason shown to the user for a rejected file.
pub open spec fn rejection_message(rejection: Rejection) -> Seq<char> {
    match rejection {
        Rejection::Empty => "Archivo vacío"@,
        Rejection::TooLarge { size } => "Archivo demasiado grande ("@ + decimal(rounded_mib(size))
            + " MB, máx "@ + decimal(rounded_mib(MAX_FILE_SIZE as nat)) + " MB)"@,
        Rejection::Unreadable { reason } => "No se puede leer: "@ + reason,
    }
}

/// Checks the size of a file: it must hold at least one byte and at most
/// [`MAX_FILE_SIZE`].
pub fn validate_size(size: u64) -> (verdict: Result<(), ValidationError>)
    ensures
        match verdict {
            Ok(_) => size_verdict(size as nat) is None,
            Err(e) => size_verdict(size as nat) == Some(e@),
        },
{
    if size == 0 {
        Err(ValidationError::Empty)
    } else if size > MAX_FILE_SIZE {
        Err(ValidationError::TooLarge { size })
    } else {
        Ok(())
    }
}

/// `size` in mebibytes, rounded to the nearest whole number, halves to the
/// even neighbour.
pub fn size_in_mib(size: u64) -> (mib: u64)
    ensures
        mib == rounded_mib(size as nat),
{
    let whole: u64 = size / MIB;
    let rest: u64 = size % MIB;
    if rest > MIB / 2 || (rest == MIB / 2 && whole % 2 == 1) {
        whole + 1
    } else {
        whole
    }
}

impl ValidationError {
    /// The reason shown to the user.
    pub fn message(&self) -> (text: String)
        ensures
            text@ == rejection_message(self@),
    {
        match self {
            ValidationError::Empty => String::from_str("Archivo vacío"),
            ValidationError::TooLarge { size } => {
                let shown = decimal_text(size_in_mib(*size));
                let limit = decimal_text(size_in_mib(MAX_FILE_SIZE));
                String::from_str("Archivo demasiado grande (").concat(shown.as_str()).concat(
                    " MB, máx ",
                ).concat(limit.as_str()).concat(" MB)")
            },
            ValidationError::Unreadable { reason } => String::from_str("No se puede leer: ").concat(
                reason.as_str(),
            ),
        }
    }
}

} // verus!
