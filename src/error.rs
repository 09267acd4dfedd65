use vstd::prelude::*;

verus! {

/// Why no document could be produced.
#[derive(Debug, Clone, Copy, PartialEq, Eq, Structural)]
pub enum SbomError {
    /// The artifact carries no embedded dependency data.
    NoAuditData,
    /// No package of the dependency list is flagged as root.
    RootNotFound,
    /// A package's name or version could not form a package URL.
    InvalidLocator,
    /// The current time could not be read or formatted.
    TimestampUnavailable,
}

/// The text shown to the user for each error.
pub open spec fn message_of(e: SbomError) -> Seq<char> {
    match e {
        SbomError::NoAuditData =>
            "No dependency information found. Ensure the binary was built using 'cargo auditable build'"@,
        SbomError::RootNotFound => "Unable to find root package in metadata"@,
        SbomError::InvalidLocator => "Unable to build a package URL"@,
        SbomError::TimestampUnavailable => "Failed to get current time"@,
    }
}

impl SbomError {
    /// The message shown to the user for this error.
    pub fn message(&self) -> (r: String)
        ensures
            r@ == message_of(*self),
    {
        match self {
            SbomError::NoAuditData => String::from_str(
                "No dependency information found. Ensure the binary was built using 'cargo auditable build'",
            ),
            SbomError::RootNotFound => String::from_str("Unable to find root package in metadata"),
            SbomError::InvalidLocator => String::from_str("Unable to build a package URL"),
            SbomError::TimestampUnavailable => String::from_str("Failed to get current time"),
        }
    }
}

} // verus!
