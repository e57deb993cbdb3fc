//! Starting the command of a server.

use vstd::prelude::*;

use crate::failure::{
    failure, plain_failure, CallProofStage, FailureView, McpCallProofErrorCode, McpCallProofFailure,
};
use crate::text::{ascii_lowered, contains_lowered, contains_text, occurs};

verus! {

/// Why a command did not start.
#[derive(Debug, Clone, Copy, PartialEq, Eq, Structural)]
pub enum SpawnErrorKind {
    NotFound,
    PermissionDenied,
    Other,
}

/// The failure for a command that did not start.
pub open spec fn spawn_failure(kind: SpawnErrorKind) -> FailureView {
    plain_failure(
        match kind {
            SpawnErrorKind::NotFound => McpCallProofErrorCode::CommandNotFound,
            SpawnErrorKind::PermissionDenied => McpCallProofErrorCode::CommandPermissionDenied,
            SpawnErrorKind::Other => McpCallProofErrorCode::CommandStartFailed,
        },
        CallProofStage::Spawn,
        "stdio"@,
    )
}

/// The failure for a command that did not start for the reason `kind`.
pub fn spawn_error(kind: SpawnErrorKind) -> (error: McpCallProofFailure)
    ensures
        error@ == spawn_failure(kind),
{
    let code = match kind {
        SpawnErrorKind::NotFound => McpCallProofErrorCode::CommandNotFound,
        SpawnErrorKind::PermissionDenied => McpCallProofErrorCode::CommandPermissionDenied,
        SpawnErrorKind::Other => McpCallProofErrorCode::CommandStartFailed,
    };
    failure(code, CallProofStage::Spawn, "stdio")
}

/// Why a managed runtime could not be prepared: what kind of error that is, and how it is told.
#[derive(Debug)]
pub struct RuntimeError {
    pub kind: SpawnErrorKind,
    pub reason: &'static str,
}

/// Whether `message`, whatever the case of its letters, says that a runtime is not to be had.
pub open spec fn says_unavailable(message: Seq<char>) -> bool {
    let lower = ascii_lowered(message);
    ||| occurs(lower, "not found"@)
    ||| occurs(lower, "unsupported"@)
    ||| occurs(lower, "unavailable"@)
    ||| occurs(lower, "system node"@)
}

/// The error that `message` of the runtime's preparation amounts to.
pub fn runtime_resolution_error(message: &str) -> (error: RuntimeError)
    ensures
        says_unavailable(message@) ==> error.kind == SpawnErrorKind::NotFound && error.reason@
            == "runtime unavailable"@,
        !says_unavailable(message@) ==> error.kind == SpawnErrorKind::Other && error.reason@
            == "runtime preparation failed"@,
{
    if contains_lowered(message, "not found") || contains_lowered(message, "unsupported")
        || contains_lowered(message, "unavailable") || contains_lowered(message, "system node") {
        RuntimeError { kind: SpawnErrorKind::NotFound, reason: "runtime unavailable" }
    } else {
        RuntimeError { kind: SpawnErrorKind::Other, reason: "runtime preparation failed" }
    }
}

/// Whether `command` is a bare name, to be looked for where commands are kept.
pub open spec fn bare_name(command: Seq<char>) -> bool {
    command.len() > 0 && !occurs(command, "/"@) && !occurs(command, "\\"@)
}

/// Whether `command` is a bare name, to be looked for where commands are kept.
pub fn is_bare_name(command: &str) -> (r: bool)
    ensures
        r == bare_name(command@),
{
    !command.is_empty() && !contains_text(command, "/") && !contains_text(command, "\\")
}

/// What to start for `command`: the place where a bare name was found, or nothing where the
/// command is to be started as it is.
pub fn resolve_stdio_command<P>(command: &str, found: Option<P>) -> (program: Option<P>)
    ensures
        program == (if bare_name(command@) {
            found
        } else {
            None
        }),
{
    if is_bare_name(command) {
        found
    } else {
        None
    }
}

} // verus!
