//! The closed set of errors this library reports.

use vstd::prelude::*;
use vstd::string::StringExecFns;

verus! {

/// Everything that can go wrong inside the library, as a closed
/// enumeration.  Failures of outside collaborators (the version-control
/// delegate, a subprocess) are wrapped in `DelegateFailure` with a
/// textual cause.
#[derive(Debug, Clone)]
pub enum Error {
    /// A pool with this label is already stored.
    PoolAlreadyExists { label: String },
    /// No pool with this label is stored.
    PoolDoesNotExists { label: String },
    /// The named directory does not exist or is not a repository root.
    RepositoryDoesNotExists { path: String },
    /// The named file does not exist.
    FileDoesNotExists { path: String },
    /// The settings file could not be located or read.
    InvalidSettingsFile,
    /// No pool is currently selected.
    NoCurrentPoolSet,
    /// An exclusion or filter pattern does not compile.
    InvalidPattern { pattern: String },
    /// An outside collaborator failed; the cause is kept as text.
    DelegateFailure { cause: String },
}

/// The user-facing message of each error.
pub open spec fn spec_message(e: Error) -> Seq<char> {
    match e {
        Error::PoolAlreadyExists { label } => "Pool '"@ + label@ + "' already exists."@,
        Error::PoolDoesNotExists { label } => "Pool '"@ + label@ + "' does not exists."@,
        Error::RepositoryDoesNotExists { path } => "Repository '"@ + path@
            + "' does not exists."@,
        Error::FileDoesNotExists { path } => "File '"@ + path@ + "' does not exists."@,
        Error::InvalidSettingsFile => "Settings file is invalid, do you have a home folder ?"@,
        Error::NoCurrentPoolSet => "No pool is currently set, create one using `gmux pool new` or set an existing one with `gmux pool set`."@,
        Error::InvalidPattern { pattern } => "Pattern '"@ + pattern@ + "' is invalid."@,
        Error::DelegateFailure { cause } => "Delegate failed: "@ + cause@,
    }
}

impl Error {
    /// The user-facing message of this error.
    pub fn message(&self) -> (r: String)
        ensures
            r@ == spec_message(*self),
    {
        match self {
            Error::PoolAlreadyExists { label } => String::from_str("Pool '").concat(
                label.as_str(),
            ).concat("' already exists."),
            Error::PoolDoesNotExists { label } => String::from_str("Pool '").concat(
                label.as_str(),
            ).concat("' does not exists."),
            Error::RepositoryDoesNotExists { path } => String::from_str("Repository '").concat(
                path.as_str(),
            ).concat("' does not exists."),
            Error::FileDoesNotExists { path } => String::from_str("File '").concat(
                path.as_str(),
            ).concat("' does not exists."),
            Error::InvalidSettingsFile => String::from_str(
                "Settings file is invalid, do you have a home folder ?",
            ),
            Error::NoCurrentPoolSet => String::from_str(
                "No pool is currently set, create one using `gmux pool new` or set an existing one with `gmux pool set`.",
            ),
            Error::InvalidPattern { pattern } => String::from_str("Pattern '").concat(
                pattern.as_str(),
            ).concat("' is invalid."),
            Error::DelegateFailure { cause } => String::from_str("Delegate failed: ").concat(
                cause.as_str(),
            ),
        }
    }
}

} // verus!
