use vstd::prelude::*;

verus! {

/// The failure kinds of the package manager. Every fatal outcome of an
/// install or maintenance operation is one of these.
#[derive(Clone, Copy, Debug, PartialEq, Eq, Structural)]
pub enum PkgError {
    /// The `<owner>/<repo>` argument is malformed.
    InvalidReference,
    /// Cloning or pulling the remote source failed.
    AcquireError,
    /// The cloned source has no `config.flash` file.
    MissingConfigFile,
    /// The config file declares no `exec=` command.
    MissingExecCommand,
    /// The install command exited with a nonzero status.
    CommandFailed,
    /// A filesystem or process-spawn operation failed.
    IOError,
}

impl PkgError {
    /// A human-readable message for the operator.
    pub fn message(&self) -> (m: String)
        ensures
            *self == PkgError::InvalidReference ==> m@ == "Invalid repository format. Use <owner>/<repo>."@,
            *self == PkgError::AcquireError ==> m@ == "Failed to clone repository."@,
            *self == PkgError::MissingConfigFile ==> m@ == "Config file not found."@,
            *self == PkgError::MissingExecCommand ==> m@ == "No exec command found in config file."@,
            *self == PkgError::CommandFailed ==> m@ == "Install command failed."@,
            *self == PkgError::IOError ==> m@ == "A filesystem or process operation failed."@,
    {
        match self {
            PkgError::InvalidReference => String::from_str("Invalid repository format. Use <owner>/<repo>."),
            PkgError::AcquireError => String::from_str("Failed to clone repository."),
            PkgError::MissingConfigFile => String::from_str("Config file not found."),
            PkgError::MissingExecCommand => String::from_str("No exec command found in config file."),
            PkgError::CommandFailed => String::from_str("Install command failed."),
            PkgError::IOError => String::from_str("A filesystem or process operation failed."),
        }
    }
}

} // verus!
