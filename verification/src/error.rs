//! The errors of this library.
use vstd::prelude::*;

verus! {

#[verifier::external_type_specification]
#[verifier::external_body]
pub struct ExUuidError(uuid::Error);

#[verifier::external_type_specification]
#[verifier::external_body]
pub struct ExJsonError(serde_json::Error);

#[verifier::external_type_specification]
#[verifier::external_body]
pub struct ExIoError(std::io::Error);

/// Errors that can occur while interacting with Windows Sandbox through `wsb`.
#[derive(Debug)]
pub enum SandboxError {
    /// A sandbox ID could not be parsed from its text.
    ParseSandboxId(uuid::Error),
    /// The `wsb` process could not be started or talked to.
    ExecuteWsbCommand(std::io::Error),
    /// The `wsb` command exited with a non-success status.
    WsbCommand {
        /// The exit code of `wsb`, where the system reports one.
        exit_code: Option<i32>,
        /// What `wsb` wrote to standard error, if it wrote anything.
        message: Option<String>,
    },
    /// The JSON response of `wsb --raw` could not be deserialized.
    DeserializeResponse(serde_json::Error),
}

} // verus!
