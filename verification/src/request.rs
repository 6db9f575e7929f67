//! The request that is handed to the verification service.

use vstd::prelude::*;

verus! {

/// Seconds the client waits for the answer to a submission. Verification
/// builds are slow, so the limit is a matter of hours.
pub const SUBMIT_TIMEOUT_SECS: u64 = 18000;

/// One request for verification. It is put together once and not changed
/// afterwards; its fields are what goes over the wire.
#[derive(Debug, PartialEq, Eq)]
pub struct VerificationRequest {
    pub repository: String,
    pub commit_hash: Option<String>,
    /// The on-chain program, in the text form of its address.
    pub program_id: String,
    pub lib_name: Option<String>,
    pub bpf_flag: bool,
    /// Mount path relative to the repository root; never an empty text.
    pub mount_path: Option<String>,
    pub base_image: Option<String>,
    pub cargo_args: Vec<String>,
}

/// The wire value of a mount path: an empty path is the same as none.
pub open spec fn mount_path_of(relative_mount_path: String) -> Option<String> {
    if relative_mount_path@.len() == 0 {
        None
    } else {
        Some(relative_mount_path)
    }
}

impl VerificationRequest {
    /// The mount path, where there is one, is not empty.
    pub open spec fn well_formed(&self) -> bool {
        self.mount_path matches Some(path) ==> path@.len() > 0
    }

    /// Puts a request together. An empty mount path and a missing one give
    /// the same request; everything else is taken as it is.
    pub fn new(
        repo_url: String,
        commit_hash: Option<String>,
        program_id: String,
        library_name: Option<String>,
        bpf_flag: bool,
        relative_mount_path: String,
        base_image: Option<String>,
        cargo_args: Vec<String>,
    ) -> (request: VerificationRequest)
        ensures
            request == (VerificationRequest {
                repository: repo_url,
                commit_hash,
                program_id,
                lib_name: library_name,
                bpf_flag,
                mount_path: mount_path_of(relative_mount_path),
                base_image,
                cargo_args,
            }),
            request.well_formed(),
    {
        VerificationRequest {
            repository: repo_url,
            commit_hash,
            program_id,
            lib_name: library_name,
            bpf_flag,
            mount_path: normalize_mount_path(relative_mount_path),
            base_image,
            cargo_args,
        }
    }
}

/// The wire value of a mount path.
pub fn normalize_mount_path(relative_mount_path: String) -> (mount_path: Option<String>)
    ensures
        mount_path == mount_path_of(relative_mount_path),
        mount_path is None <==> relative_mount_path@.len() == 0,
{
    if relative_mount_path.as_str().is_empty() {
        None
    } else {
        Some(relative_mount_path)
    }
}

} // verus!
