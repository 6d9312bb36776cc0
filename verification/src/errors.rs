//! The failures of the core. None of them ends the process: each is
//! reported to the user as a message, and the command that met it ends.

use vstd::prelude::*;
use vstd::string::StringExecFns;

verus! {

/// What was wrong with something the user wrote.
#[derive(Clone, Copy, Debug, PartialEq, Eq, Structural)]
pub enum Fault {
    /// An external identifier that is not of the expected form.
    ExternalId,
    /// A volume outside 0 to 100.
    VolumeRange,
    /// A volume that is no number.
    VolumeText,
    /// A position that is no number of seconds.
    SeekText,
    /// A reply that chooses no listed entry.
    Choice,
    /// A search without words.
    EmptyQuery,
}

/// A failure of the core.
#[derive(Clone, Copy, Debug, PartialEq, Eq, Structural)]
pub enum CoreError {
    /// The provider or a mirror could not be reached (no status), or
    /// answered with a status that does not report success.
    Provider { status: Option<u16> },
    /// Nothing was found. This is a normal outcome.
    NotFound,
    /// The user wrote something that cannot be used.
    Validation(Fault),
    /// The wait for a reply ended without one.
    Timeout,
    /// The stream cannot do what was asked of it.
    Unsupported,
}

/// What the user is told of a fault.
pub open spec fn fault_text(fault: Fault) -> Seq<char> {
    match fault {
        Fault::ExternalId => "Invalid IMDB ID format. It should start with 'tt'."@,
        Fault::VolumeRange => "Volume must be between 0 and 100."@,
        Fault::VolumeText => "Invalid volume percentage. Please use a number (0-100)."@,
        Fault::SeekText => "Invalid time. Please provide seconds (e.g., `m!skip 60`)."@,
        Fault::Choice => "Invalid selection."@,
        Fault::EmptyQuery => "Please enter a search query."@,
    }
}

/// What the user is told of a failure.
pub open spec fn error_text(error: CoreError) -> Seq<char> {
    match error {
        CoreError::Provider { .. } => "Something went wrong. Please try again later."@,
        CoreError::NotFound => "Nothing was found."@,
        CoreError::Validation(fault) => fault_text(fault),
        CoreError::Timeout => "No selection in time."@,
        CoreError::Unsupported => "Failed to skip. The stream might not be seekable."@,
    }
}

/// The failure that an answer with `status` stands for, if any: every
/// status outside 200 to 299 is one.
pub open spec fn status_error(status: int) -> Option<CoreError> {
    if 200 <= status <= 299 {
        None
    } else {
        Some(CoreError::Provider { status: Some(status as u16) })
    }
}

impl Fault {
    /// What the user is told of this fault.
    pub fn message(&self) -> (r: String)
        ensures
            r@ == fault_text(*self),
    {
        match self {
            Fault::ExternalId => String::from_str(
                "Invalid IMDB ID format. It should start with 'tt'.",
            ),
            Fault::VolumeRange => String::from_str("Volume must be between 0 and 100."),
            Fault::VolumeText => String::from_str(
                "Invalid volume percentage. Please use a number (0-100).",
            ),
            Fault::SeekText => String::from_str(
                "Invalid time. Please provide seconds (e.g., `m!skip 60`).",
            ),
            Fault::Choice => String::from_str("Invalid selection."),
            Fault::EmptyQuery => String::from_str("Please enter a search query."),
        }
    }
}

impl CoreError {
    /// What the user is told of this failure.
    pub fn message(&self) -> (r: String)
        ensures
            r@ == error_text(*self),
    {
        match self {
            CoreError::Provider { .. } => String::from_str(
                "Something went wrong. Please try again later.",
            ),
            CoreError::NotFound => String::from_str("Nothing was found."),
            CoreError::Validation(fault) => fault.message(),
            CoreError::Timeout => String::from_str("No selection in time."),
            CoreError::Unsupported => String::from_str(
                "Failed to skip. The stream might not be seekable.",
            ),
        }
    }

    /// The failure that an answer with `status` stands for: none for a
    /// status from 200 to 299.
    pub fn check_status(status: u16) -> (r: Result<(), CoreError>)
        ensures
            r is Ok <==> status_error(status as int) is None,
            r matches Err(e) ==> status_error(status as int) == Some(e),
    {
        if 200 <= status && status <= 299 {
            Ok(())
        } else {
            Err(CoreError::Provider { status: Some(status) })
        }
    }
}

} // verus!
