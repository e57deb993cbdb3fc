//! Which backend issues and honours a capability.

use vstd::prelude::*;
use vstd::utf8::encode_utf8;

use crate::api::{BindingView, McpQualificationBinding};
use crate::digest::{sha256, sha256_text};
use crate::text::{decimal, decimal_text, same_text};
use crate::verdict::{verdict, QualificationError, QualificationErrorView};

verus! {

/// What can be found out of the process that runs: its number, when it started, and the bytes of
/// its executable.
#[derive(Debug)]
pub struct BackendFacts {
    pub pid: u32,
    pub start_time: Option<u64>,
    pub executable: Option<Vec<u8>>,
}

/// What [`BackendFacts`] say.
pub struct FactsView {
    pub pid: u32,
    pub start_time: Option<u64>,
    pub executable: Option<Seq<u8>>,
}

impl View for BackendFacts {
    type V = FactsView;

    open spec fn view(&self) -> FactsView {
        FactsView {
            pid: self.pid,
            start_time: self.start_time,
            executable: match self.executable {
                Some(bytes) => Some(bytes@),
                None => None,
            },
        }
    }
}

/// What identifies a backend.
#[derive(Debug, PartialEq, Eq)]
pub struct BackendIdentity {
    pub pid: u32,
    pub start_time: u64,
    pub executable_sha256: String,
    pub runtime_id_sha256: String,
}

/// What a [`BackendIdentity`] says.
pub struct IdentityView {
    pub pid: u32,
    pub start_time: u64,
    pub executable_sha256: Seq<char>,
    pub runtime_id_sha256: Seq<char>,
}

impl View for BackendIdentity {
    type V = IdentityView;

    open spec fn view(&self) -> IdentityView {
        IdentityView {
            pid: self.pid,
            start_time: self.start_time,
            executable_sha256: self.executable_sha256@,
            runtime_id_sha256: self.runtime_id_sha256@,
        }
    }
}

/// What the identifier of a runtime is the digest of.
pub open spec fn runtime_id(pid: u32, start_time: u64, executable_sha256: Seq<char>) -> Seq<char> {
    decimal(pid as nat) + ":"@ + decimal(start_time as nat) + ":"@ + executable_sha256
}

/// The identity of the backend of which `facts` are known.
pub open spec fn identity_of(facts: FactsView) -> Result<IdentityView, QualificationErrorView> {
    match (facts.start_time, facts.executable) {
        (Some(start_time), Some(bytes)) => Ok(
            IdentityView {
                pid: facts.pid,
                start_time,
                executable_sha256: sha256_text(bytes),
                runtime_id_sha256: sha256_text(
                    encode_utf8(runtime_id(facts.pid, start_time, sha256_text(bytes))),
                ),
            },
        ),
        _ => Err(QualificationErrorView::Internal),
    }
}

/// Whether `binding` is bound to `identity`.
pub open spec fn bound_to(binding: BindingView, identity: IdentityView) -> bool {
    &&& identity.pid == binding.backend_pid
    &&& identity.start_time == binding.backend_start_time
    &&& identity.executable_sha256 == binding.backend_executable_sha256
    &&& identity.runtime_id_sha256 == binding.runtime_id_sha256
}

/// What comes of holding `binding` against the backend of which `facts` are known.
pub open spec fn same_backend(binding: BindingView, facts: FactsView) -> Result<
    (),
    QualificationErrorView,
> {
    match identity_of(facts) {
        Err(error) => Err(error),
        Ok(identity) => if bound_to(binding, identity) {
            Ok(())
        } else {
            Err(QualificationErrorView::Internal)
        },
    }
}

/// The identity of the backend of which `facts` are known.
pub fn backend_identity(facts: &BackendFacts) -> (r: Result<BackendIdentity, QualificationError>)
    ensures
        verdict(r) == identity_of(facts@),
{
    let start_time: u64 = match facts.start_time {
        Some(start_time) => start_time,
        None => return Err(QualificationError::Internal),
    };
    let executable_sha256 = match &facts.executable {
        Some(bytes) => sha256(bytes.as_slice()),
        None => return Err(QualificationError::Internal),
    };
    let mut id = decimal_text(facts.pid as u64);
    id.append(":");
    id.append(decimal_text(start_time).as_str());
    id.append(":");
    id.append(executable_sha256.as_str());
    Ok(
        BackendIdentity {
            pid: facts.pid,
            start_time,
            executable_sha256,
            runtime_id_sha256: sha256(id.as_str().as_bytes()),
        },
    )
}

/// Checks that the backend of which `facts` are known is the one that `binding` is bound to.
pub fn require_same_backend(binding: &McpQualificationBinding, facts: &BackendFacts) -> (r: Result<
    (),
    QualificationError,
>)
    ensures
        verdict(r) == same_backend(binding@, facts@),
{
    let identity = match backend_identity(facts) {
        Ok(identity) => identity,
        Err(error) => return Err(error),
    };
    if identity.pid != binding.backend_pid || identity.start_time != binding.backend_start_time
        || !same_text(
        identity.executable_sha256.as_str(),
        binding.backend_executable_sha256.as_str(),
    ) || !same_text(identity.runtime_id_sha256.as_str(), binding.runtime_id_sha256.as_str()) {
        return Err(QualificationError::Internal);
    }
    Ok(())
}

} // verus!
