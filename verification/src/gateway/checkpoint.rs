use vstd::prelude::*;

use crate::digest::sha256_hex_spec;
use crate::text::{has_prefix, is_lower_hex_digit};

verus! {

/// Metadata the supervisor uploads with a checkpoint bundle.
#[derive(Clone, Debug)]
pub struct CheckpointMetadata {
    pub workspace_id: String,
    pub created_at: String,
    pub head: String,
    pub branch: Option<String>,
    pub status_sha256: String,
    pub state_sha256: String,
    pub bundle_sha256: String,
    pub checkpoint_oid: String,
    pub bundle_ref: String,
    pub head_ref: String,
    pub has_changes: bool,
    pub format_version: u32,
}

/// Why an uploaded checkpoint or a stored bundle is rejected.
#[derive(Clone, Copy, Debug, PartialEq, Eq, Structural)]
pub enum CheckpointError {
    WorkspaceMismatch,
    UnsupportedFormat,
    /// A SHA-256 field is not 64 lowercase hexadecimal characters.
    InvalidSha,
    /// The bundle's SHA-256 differs from the metadata.
    BundleShaMismatch,
    HeadNotFullOid,
    CheckpointOidNotFull,
    BundleRefInvalid,
    HeadRefInvalid,
    /// A stored bundle no longer matches its recorded SHA-256.
    StoredBundleCorrupt,
}

/// 64 lowercase hexadecimal characters.
pub open spec fn valid_sha(value: Seq<char>) -> bool {
    value.len() == 64 && forall|i: int| 0 <= i < value.len() ==> is_lower_hex_digit(#[trigger] value[i])
}

/// Checks a SHA-256 written as 64 lowercase hexadecimal characters.
pub fn validate_sha(value: &str) -> (r: Result<(), CheckpointError>)
    ensures
        r is Ok <==> valid_sha(value@),
        r is Err ==> r == Err::<(), CheckpointError>(CheckpointError::InvalidSha),
{
    let v = crate::text::to_chars(value);
    if v.len() != 64 {
        return Err(CheckpointError::InvalidSha);
    }
    let mut i: usize = 0;
    while i < v.len()
        invariant
            i <= v@.len(),
            v@ == value@,
            forall|k: int| 0 <= k < i ==> is_lower_hex_digit(#[trigger] v@[k]),
        decreases v@.len() - i,
    {
        if !crate::text::char_is_lower_hex_digit(v[i]) {
            return Err(CheckpointError::InvalidSha);
        }
        i = i + 1;
    }
    Ok(())
}

/// Directory name under which a workspace's bundles are stored: the SHA-256
/// of the workspace ID in lowercase hex, whatever characters the ID holds.
pub fn safe_component(value: &str) -> (r: String)
    ensures
        r@ == sha256_hex_spec(vstd::utf8::encode_utf8(value@)),
{
    let h = crate::digest::sha256_hex(value.as_bytes());
    crate::text::from_chars(h.as_slice())
}

/// A full Git object ID is 40 (SHA-1) or 64 (SHA-256) bytes long.
pub open spec fn full_oid(value: Seq<char>) -> bool {
    vstd::utf8::encode_utf8(value).len() == 40 || vstd::utf8::encode_utf8(value).len() == 64
}

/// The first reason an uploaded checkpoint is rejected, in the order checked.
pub open spec fn upload_problem(workspace_id: Seq<char>, m: CheckpointMetadata, bundle: Seq<u8>) -> Option<CheckpointError> {
    if m.workspace_id@ != workspace_id {
        Some(CheckpointError::WorkspaceMismatch)
    } else if m.format_version != 1 {
        Some(CheckpointError::UnsupportedFormat)
    } else if !valid_sha(m.status_sha256@) || !valid_sha(m.state_sha256@) || !valid_sha(
        m.bundle_sha256@,
    ) {
        Some(CheckpointError::InvalidSha)
    } else if sha256_hex_spec(bundle) != m.bundle_sha256@ {
        Some(CheckpointError::BundleShaMismatch)
    } else if !full_oid(m.head@) {
        Some(CheckpointError::HeadNotFullOid)
    } else if !full_oid(m.checkpoint_oid@) {
        Some(CheckpointError::CheckpointOidNotFull)
    } else if !has_prefix(m.bundle_ref@, "refs/opencode/checkpoints/"@) {
        Some(CheckpointError::BundleRefInvalid)
    } else if !has_prefix(m.head_ref@, "refs/opencode/heads/"@) {
        Some(CheckpointError::HeadRefInvalid)
    } else {
        None
    }
}

fn is_full_oid(value: &String) -> (r: bool)
    ensures
        r == full_oid(value@),
{
    let v = crate::text::to_chars(value.as_str());
    crate::text::utf8_len_is(&v, 40) || crate::text::utf8_len_is(&v, 64)
}

fn starts_with_text(value: &String, prefix: &str) -> (r: bool)
    ensures
        r == has_prefix(value@, prefix@),
{
    let v = crate::text::to_chars(value.as_str());
    let p = crate::text::to_chars(prefix);
    crate::text::chars_start_with(&v, &p)
}

/// Validates an uploaded checkpoint for `workspace_id` against its bundle.
pub fn validate_upload(workspace_id: &str, metadata: &CheckpointMetadata, bundle: &[u8]) -> (r: Result<(), CheckpointError>)
    ensures
        match r {
            Ok(()) => upload_problem(workspace_id@, *metadata, bundle@) is None,
            Err(e) => upload_problem(workspace_id@, *metadata, bundle@) == Some(e),
        },
{
    let id = crate::text::to_chars(workspace_id);
    let mid = crate::text::to_chars(metadata.workspace_id.as_str());
    if !crate::text::chars_equal(&mid, &id) {
        return Err(CheckpointError::WorkspaceMismatch);
    }
    if metadata.format_version != 1 {
        return Err(CheckpointError::UnsupportedFormat);
    }
    validate_sha(metadata.status_sha256.as_str())?;
    validate_sha(metadata.state_sha256.as_str())?;
    validate_sha(metadata.bundle_sha256.as_str())?;
    let actual = crate::digest::sha256_hex(bundle);
    let expected = crate::text::to_chars(metadata.bundle_sha256.as_str());
    if !crate::text::chars_equal(&actual, &expected) {
        return Err(CheckpointError::BundleShaMismatch);
    }
    if !is_full_oid(&metadata.head) {
        return Err(CheckpointError::HeadNotFullOid);
    }
    if !is_full_oid(&metadata.checkpoint_oid) {
        return Err(CheckpointError::CheckpointOidNotFull);
    }
    if !starts_with_text(&metadata.bundle_ref, "refs/opencode/checkpoints/") {
        return Err(CheckpointError::BundleRefInvalid);
    }
    if !starts_with_text(&metadata.head_ref, "refs/opencode/heads/") {
        return Err(CheckpointError::HeadRefInvalid);
    }
    Ok(())
}

/// An accepted upload's bundle has exactly the SHA-256 recorded in its
/// metadata, and its SHA fields are well formed.
pub proof fn law_accepted_upload_matches_bundle(workspace_id: Seq<char>, m: CheckpointMetadata, bundle: Seq<u8>)
    ensures
        upload_problem(workspace_id, m, bundle) is None ==> sha256_hex_spec(bundle) == m.bundle_sha256@
            && valid_sha(m.bundle_sha256@) && m.workspace_id@ == workspace_id && m.format_version == 1,
{
}

/// File name of a stored bundle: `<sha256>.bundle`.
pub fn bundle_file_name(bundle_sha256: &str) -> (r: String)
    ensures
        r@ == bundle_sha256@ + ".bundle"@,
{
    let mut out = crate::text::to_chars(bundle_sha256);
    crate::text::append_str(&mut out, ".bundle");
    crate::text::from_chars(out.as_slice())
}

/// Checks that stored bundle bytes still hash to the recorded SHA-256.
pub fn verify_stored_bundle(bytes: &[u8], bundle_sha256: &str) -> (r: Result<(), CheckpointError>)
    ensures
        r is Ok <==> sha256_hex_spec(bytes@) == bundle_sha256@,
        r is Err ==> r == Err::<(), CheckpointError>(CheckpointError::StoredBundleCorrupt),
{
    let actual = crate::digest::sha256_hex(bytes);
    let expected = crate::text::to_chars(bundle_sha256);
    if crate::text::chars_equal(&actual, &expected) {
        Ok(())
    } else {
        Err(CheckpointError::StoredBundleCorrupt)
    }
}

} // verus!

verus! {

impl CheckpointError {
    pub open spec fn spec_message(self) -> Seq<char> {
        match self {
            CheckpointError::WorkspaceMismatch => "checkpoint workspaceId does not match route"@,
            CheckpointError::UnsupportedFormat => "unsupported checkpoint formatVersion"@,
            CheckpointError::InvalidSha => "SHA-256 must be 64 lowercase hexadecimal characters"@,
            CheckpointError::BundleShaMismatch => "checkpoint bundle SHA-256 mismatch"@,
            CheckpointError::HeadNotFullOid => "checkpoint head is not a full object ID"@,
            CheckpointError::CheckpointOidNotFull => "checkpointOid is not a full object ID"@,
            CheckpointError::BundleRefInvalid => "bundleRef is not an OpenCode checkpoint ref"@,
            CheckpointError::HeadRefInvalid => "headRef is not an OpenCode checkpoint HEAD ref"@,
            CheckpointError::StoredBundleCorrupt => "stored checkpoint bundle is corrupt"@,
        }
    }

    /// The message the error is reported with.
    pub fn message(&self) -> (r: &'static str)
        ensures
            r@ == self.spec_message(),
    {
        match self {
            CheckpointError::WorkspaceMismatch => "checkpoint workspaceId does not match route",
            CheckpointError::UnsupportedFormat => "unsupported checkpoint formatVersion",
            CheckpointError::InvalidSha => "SHA-256 must be 64 lowercase hexadecimal characters",
            CheckpointError::BundleShaMismatch => "checkpoint bundle SHA-256 mismatch",
            CheckpointError::HeadNotFullOid => "checkpoint head is not a full object ID",
            CheckpointError::CheckpointOidNotFull => "checkpointOid is not a full object ID",
            CheckpointError::BundleRefInvalid => "bundleRef is not an OpenCode checkpoint ref",
            CheckpointError::HeadRefInvalid => "headRef is not an OpenCode checkpoint HEAD ref",
            CheckpointError::StoredBundleCorrupt => "stored checkpoint bundle is corrupt",
        }
    }
}

} // verus!
