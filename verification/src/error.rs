//! The ways in which an update can end without installing.

use crate::launcher::{artifact_name_spec, Launcher};
use vstd::prelude::*;
use vstd::string::StringExecFns;

verus! {

/// An environment variable that a launcher's directory is built from.
#[derive(Clone, Copy, Debug, PartialEq, Eq, Structural)]
pub enum EnvVar {
    AppData,
    HomeDrive,
    HomePath,
}

/// A request that can fail in transport.
#[derive(Clone, Copy, Debug, PartialEq, Eq, Structural)]
pub enum NetworkStep {
    /// Asking the release index for the latest release.
    FetchRelease,
    /// Sending the request for an asset.
    SendRequest,
    /// Reading the next part of an asset's body.
    ReadChunk,
}

/// A filesystem operation that can fail.
#[derive(Clone, Copy, Debug, PartialEq, Eq, Structural)]
pub enum FileStep {
    OpenCache,
    ReadCache,
    WriteCache,
    CleanTarget,
    CreateTarget,
    WriteTemp,
    OpenTemp,
    OpenArchive,
    Extract,
    RemoveTemp,
}

/// Why an update ended without installing.
#[derive(Clone, Copy, Debug, PartialEq, Eq, Structural)]
pub enum UpdateError {
    /// A request or a transfer failed.
    Network(NetworkStep),
    /// The repository has no published release.
    NotFound,
    /// The release index refused the request: unauthorized or rate-limited.
    Auth,
    /// The release has no asset for the launcher.
    AssetNotFound(Launcher),
    /// The downloaded content does not have the declared checksum.
    Integrity,
    /// A required environment variable is not set.
    Environment(EnvVar),
    /// The answer to the prompt names no launcher.
    InvalidChoice,
    /// A filesystem operation failed.
    Filesystem(FileStep),
}

/// The name of an environment variable.
pub open spec fn env_var_name_spec(var: EnvVar) -> Seq<char> {
    match var {
        EnvVar::AppData => "APPDATA"@,
        EnvVar::HomeDrive => "HOMEDRIVE"@,
        EnvVar::HomePath => "HOMEPATH"@,
    }
}

/// What failed, for a network step.
pub open spec fn network_context(step: NetworkStep) -> Seq<char> {
    match step {
        NetworkStep::FetchRelease => "Failed to fetch latest release"@,
        NetworkStep::SendRequest => "Failed to send request"@,
        NetworkStep::ReadChunk => "Failed to read chunk"@,
    }
}

/// What failed, for a filesystem step.
pub open spec fn file_context(step: FileStep) -> Seq<char> {
    match step {
        FileStep::OpenCache => "Failed to open cached file"@,
        FileStep::ReadCache => "Failed to read cached file"@,
        FileStep::WriteCache => "Failed to write cache file"@,
        FileStep::CleanTarget => "Failed to clean target directory"@,
        FileStep::CreateTarget => "Failed to create target directory"@,
        FileStep::WriteTemp => "Failed to write temporary file"@,
        FileStep::OpenTemp => "Failed to open temporary file"@,
        FileStep::OpenArchive => "Failed to create ZIP archive"@,
        FileStep::Extract => "Failed to extract ZIP archive"@,
        FileStep::RemoveTemp => "Failed to remove temporary file"@,
    }
}

/// The text shown to the user for an error: which step failed.
pub open spec fn message_spec(error: UpdateError) -> Seq<char> {
    match error {
        UpdateError::Network(step) => network_context(step),
        UpdateError::NotFound => "No release has been published"@,
        UpdateError::Auth => "The release index refused the request"@,
        UpdateError::AssetNotFound(launcher) => "No new release found or '"@ + artifact_name_spec(
            launcher,
        ) + "' not available."@,
        UpdateError::Integrity => "SHA256 mismatch for downloaded file"@,
        UpdateError::Environment(var) => "Failed to get "@ + env_var_name_spec(var),
        UpdateError::InvalidChoice => "Invalid choice"@,
        UpdateError::Filesystem(step) => file_context(step),
    }
}

/// An error that ends the run as a failure. A missing asset alone does not:
/// it is reported, and the run ends normally.
pub open spec fn is_fatal_spec(error: UpdateError) -> bool {
    !(error is AssetNotFound)
}

/// The error for a release lookup that did not give a release: `status` is
/// the HTTP status of the answer, or `None` where no answer came.
pub open spec fn release_failure_spec(status: Option<u16>) -> UpdateError {
    match status {
        Some(code) => if code == 404 {
            UpdateError::NotFound
        } else if code == 401 || code == 403 || code == 429 {
            UpdateError::Auth
        } else {
            UpdateError::Network(NetworkStep::FetchRelease)
        },
        None => UpdateError::Network(NetworkStep::FetchRelease),
    }
}

impl EnvVar {
    /// The variable's name in the environment.
    pub fn name(self) -> (name: &'static str)
        ensures
            name@ == env_var_name_spec(self),
    {
        match self {
            EnvVar::AppData => "APPDATA",
            EnvVar::HomeDrive => "HOMEDRIVE",
            EnvVar::HomePath => "HOMEPATH",
        }
    }
}

impl NetworkStep {
    /// The text that says which request failed.
    pub fn context(self) -> (text: &'static str)
        ensures
            text@ == network_context(self),
    {
        match self {
            NetworkStep::FetchRelease => "Failed to fetch latest release",
            NetworkStep::SendRequest => "Failed to send request",
            NetworkStep::ReadChunk => "Failed to read chunk",
        }
    }
}

impl FileStep {
    /// The text that says which operation failed.
    pub fn context(self) -> (text: &'static str)
        ensures
            text@ == file_context(self),
    {
        match self {
            FileStep::OpenCache => "Failed to open cached file",
            FileStep::ReadCache => "Failed to read cached file",
            FileStep::WriteCache => "Failed to write cache file",
            FileStep::CleanTarget => "Failed to clean target directory",
            FileStep::CreateTarget => "Failed to create target directory",
            FileStep::WriteTemp => "Failed to write temporary file",
            FileStep::OpenTemp => "Failed to open temporary file",
            FileStep::OpenArchive => "Failed to create ZIP archive",
            FileStep::Extract => "Failed to extract ZIP archive",
            FileStep::RemoveTemp => "Failed to remove temporary file",
        }
    }
}

impl UpdateError {
    /// The text shown to the user.
    pub fn message(self) -> (text: String)
        ensures
            text@ == message_spec(self),
    {
        match self {
            UpdateError::Network(step) => String::from_str(step.context()),
            UpdateError::NotFound => String::from_str("No release has been published"),
            UpdateError::Auth => String::from_str("The release index refused the request"),
            UpdateError::AssetNotFound(launcher) => {
                let mut text = String::from_str("No new release found or '");
                text.append(launcher.artifact_name());
                text.append("' not available.");
                text
            },
            UpdateError::Integrity => String::from_str("SHA256 mismatch for downloaded file"),
            UpdateError::Environment(var) => {
                let mut text = String::from_str("Failed to get ");
                text.append(var.name());
                text
            },
            UpdateError::InvalidChoice => String::from_str("Invalid choice"),
            UpdateError::Filesystem(step) => String::from_str(step.context()),
        }
    }

    /// Whether the run ends as a failure.
    pub fn is_fatal(self) -> (fatal: bool)
        ensures
            fatal == is_fatal_spec(self),
    {
        match self {
            UpdateError::AssetNotFound(_) => false,
            _ => true,
        }
    }

    /// The exit status of a run that ended with this error: zero where the
    /// error is not fatal, one where it is.
    pub fn exit_code(self) -> (code: u8)
        ensures
            code == (if is_fatal_spec(self) { 1u8 } else { 0u8 }),
    {
        if self.is_fatal() {
            1
        } else {
            0
        }
    }

    /// The error for a release lookup that did not give a release.
    pub fn from_release_status(status: Option<u16>) -> (error: UpdateError)
        ensures
            error == release_failure_spec(status),
    {
        match status {
            Some(404) => UpdateError::NotFound,
            Some(401) | Some(403) | Some(429) => UpdateError::Auth,
            _ => UpdateError::Network(NetworkStep::FetchRelease),
        }
    }
}

} // verus!
