use std::path::PathBuf;
use vstd::prelude::*;

use crate::text::{decimal, is_ascii_alphanumeric, spec_utf8_lossy, split_on, trim};

verus! {

/// What a checkpoint records: the Git state it captured, the fingerprints that
/// a restore must reproduce, and the refs inside the bundle.
#[derive(Clone, Debug)]
pub struct CheckpointMetadata {
    pub workspace_id: String,
    pub created_at: String,
    pub head: String,
    pub branch: Option<String>,
    pub status_sha256: String,
    pub state_sha256: String,
    pub bundle_sha256: String,
    pub checkpoint_oid: String,
    pub bundle_ref: String,
    pub head_ref: String,
    pub has_changes: bool,
    pub format_version: u32,
}

/// A written checkpoint: its metadata and the two files on disk.
#[derive(Debug)]
pub struct CheckpointArtifact {
    pub metadata: CheckpointMetadata,
    pub metadata_path: PathBuf,
    pub bundle_path: PathBuf,
}

/// Why a checkpoint is refused, before or after the Git work.
#[derive(Clone, Copy, Debug, PartialEq, Eq, Structural)]
pub enum CheckpointError {
    EmptyWorkspaceId,
    InvalidWorkspaceId,
    NotWorktree,
    NoNewStash,
    StashNotUnique,
    StatusChanged,
    StateChanged,
    StashChanged,
    UnsupportedFormat,
    BundleMismatch,
    DirtyCheckout,
    CheckpointOidMismatch,
    HeadOidMismatch,
    StatusFingerprintMismatch,
    StateFingerprintMismatch,
    OutputInsideRepository,
    MissingStash,
}

/* Workspace IDs */

pub open spec fn is_id_char(c: char) -> bool {
    is_ascii_alphanumeric(c) || c == '-' || c == '_'
}

/// A workspace ID is non-empty and made of ASCII letters, digits, `-` and `_`.
pub open spec fn spec_validate_workspace_id(s: Seq<char>) -> Result<(), CheckpointError> {
    if s.len() == 0 {
        Err(CheckpointError::EmptyWorkspaceId)
    } else if !(forall|i: int| 0 <= i < s.len() ==> is_id_char(#[trigger] s[i])) {
        Err(CheckpointError::InvalidWorkspaceId)
    } else {
        Ok(())
    }
}

pub fn validate_workspace_id(value: &str) -> (r: Result<(), CheckpointError>)
    ensures
        r == spec_validate_workspace_id(value@),
{
    let chars = crate::text::to_chars(value);
    if chars.len() == 0 {
        return Err(CheckpointError::EmptyWorkspaceId);
    }
    let mut i: usize = 0;
    while i < chars.len()
        invariant
            i <= chars@.len(),
            chars@ == value@,
            forall|k: int| 0 <= k < i ==> is_id_char(#[trigger] chars@[k]),
        decreases chars@.len() - i,
    {
        let c = chars[i];
        if !(crate::text::char_is_ascii_alphanumeric(c) || c == '-' || c == '_') {
            return Err(CheckpointError::InvalidWorkspaceId);
        }
        i = i + 1;
    }
    Ok(())
}

/* Git output as text */

/// Git output as trimmed text (lossy UTF-8).
pub open spec fn spec_text(bytes: Seq<u8>) -> Seq<char> {
    trim(spec_utf8_lossy(bytes))
}

pub fn text(value: &[u8]) -> (r: String)
    ensures
        r@ == spec_text(value@),
{
    let s = crate::text::from_utf8_lossy(value);
    let t = crate::text::trim_str(s.as_str());
    crate::text::from_chars(t.as_slice())
}

/// `git rev-parse --is-inside-work-tree` answered `true`.
pub fn is_worktree_answer(stdout: &[u8]) -> (r: bool)
    ensures
        r == (spec_text(stdout@) == "true"@),
{
    let t = text(stdout);
    let expected = "true".to_owned();
    t == expected
}

/// Checks the answer of `git rev-parse --is-inside-work-tree`.
pub fn ensure_repo(stdout: &[u8]) -> (r: Result<(), CheckpointError>)
    ensures
        r == (if spec_text(stdout@) == "true"@ { Ok(()) } else { Err(CheckpointError::NotWorktree) }),
{
    if is_worktree_answer(stdout) {
        Ok(())
    } else {
        Err(CheckpointError::NotWorktree)
    }
}

/* The stash list */

/// The entries described by the first `k` field pairs of
/// `git stash list --format=%H%x00%gs%x00`: pairs whose OID is empty are
/// skipped, the others become (OID, subject) as text.
pub open spec fn stash_pairs(fields: Seq<Seq<u8>>, k: nat) -> Seq<(Seq<char>, Seq<char>)>
    decreases k,
{
    if k == 0 {
        Seq::empty()
    } else {
        let prev = stash_pairs(fields, (k - 1) as nat);
        let oid = fields[2 * (k - 1)];
        let subject = fields[2 * (k - 1) + 1];
        if oid.len() == 0 {
            prev
        } else {
            prev.push((spec_text(oid), spec_text(subject)))
        }
    }
}

/// The stash entries listed in `output`: its NUL-separated fields taken two
/// at a time (a last unpaired field is ignored).
pub open spec fn spec_stash_list(output: Seq<u8>) -> Seq<(Seq<char>, Seq<char>)> {
    let fields = split_on(output, 0u8);
    stash_pairs(fields, fields.len() / 2)
}

pub open spec fn entries_view(entries: Seq<(String, String)>) -> Seq<(Seq<char>, Seq<char>)> {
    entries.map_values(|e: (String, String)| (e.0@, e.1@))
}

/// Parses the output of `git stash list --format=%H%x00%gs%x00`.
pub fn stash_entries(output: &[u8]) -> (r: Vec<(String, String)>)
    ensures
        entries_view(r@) == spec_stash_list(output@),
{
    let fields = crate::text::split_bytes(output, 0u8);
    let ghost fv = fields@.map_values(|v: Vec<u8>| v@);
    let n = fields.len();
    let pairs = n / 2;
    let mut r: Vec<(String, String)> = Vec::new();
    let mut k: usize = 0;
    while k < pairs
        invariant
            k <= pairs,
            n == fields@.len(),
            pairs == n / 2,
            fv == fields@.map_values(|v: Vec<u8>| v@),
            entries_view(r@) == stash_pairs(fv, k as nat),
        decreases pairs - k,
    {
        assert(2 * k + 1 < fields@.len()) by (nonlinear_arith)
            requires
                k < pairs,
                pairs == n / 2,
                n == fields@.len(),
        ;
        let oid = &fields[2 * k];
        let subject = &fields[2 * k + 1];
        proof {
            assert(fv[2 * k as int] == oid@);
            assert(fv[2 * k + 1] == subject@);
        }
        if oid.len() != 0 {
            let entry = (text(oid.as_slice()), text(subject.as_slice()));
            let ghost before = r@;
            r.push(entry);
            proof {
                assert(entries_view(r@) =~= entries_view(before).push((entry.0@, entry.1@)));
            }
        }
        k = k + 1;
    }
    r
}

/// No entry of the earlier stash list has the OID `oid`.
pub open spec fn spec_is_new_stash(before: Seq<(Seq<char>, Seq<char>)>, oid: Seq<char>) -> bool {
    forall|i: int| 0 <= i < before.len() ==> #[trigger] before[i].0 != oid
}

/// Checks that the stash Git just created is not one that existed before.
pub fn ensure_new_stash(before: &Vec<(String, String)>, oid: &str) -> (r: Result<(), CheckpointError>)
    ensures
        r == (if spec_is_new_stash(entries_view(before@), oid@) {
            Ok(())
        } else {
            Err(CheckpointError::NoNewStash)
        }),
{
    let target = oid.to_owned();
    let mut i: usize = 0;
    while i < before.len()
        invariant
            i <= before@.len(),
            target@ == oid@,
            forall|k: int| 0 <= k < i ==> #[trigger] entries_view(before@)[k].0 != oid@,
        decreases before@.len() - i,
    {
        if before[i].0 == target {
            proof {
                assert(entries_view(before@)[i as int].0 == oid@);
            }
            return Err(CheckpointError::NoNewStash);
        }
        i = i + 1;
    }
    Ok(())
}

/// How many of the first `k` entries have the OID `oid`.
pub open spec fn match_count(entries: Seq<(Seq<char>, Seq<char>)>, oid: Seq<char>, k: nat) -> nat
    decreases k,
{
    if k == 0 {
        0
    } else {
        match_count(entries, oid, (k - 1) as nat) + if entries[k - 1].0 == oid { 1nat } else { 0nat }
    }
}

/// `stash@{i}`.
pub open spec fn stash_ref(i: nat) -> Seq<char> {
    "stash@{"@ + decimal(i) + "}"@
}

/// The argument for `git stash drop` that removes the checkpoint stash: the
/// stash must be listed exactly once.
pub fn stash_drop_target(entries: &Vec<(String, String)>, oid: &str) -> (r: Result<String, CheckpointError>)
    ensures
        r is Ok <==> match_count(entries_view(entries@), oid@, entries@.len()) == 1,
        r is Err ==> r == Err::<String, CheckpointError>(CheckpointError::StashNotUnique),
        r matches Ok(s) ==> forall|i: int|
            0 <= i < entries@.len() && #[trigger] entries_view(entries@)[i].0 == oid@ ==> s@ == stash_ref(i as nat),
{
    let ghost ev = entries_view(entries@);
    let target = oid.to_owned();
    let mut count: usize = 0;
    let mut position: usize = 0;
    let mut i: usize = 0;
    while i < entries.len()
        invariant
            i <= entries@.len(),
            ev == entries_view(entries@),
            target@ == oid@,
            count == match_count(ev, oid@, i as nat),
            count <= i,
            count >= 1 ==> position < i && ev[position as int].0 == oid@,
            count == 0 ==> forall|k: int| 0 <= k < i ==> #[trigger] ev[k].0 != oid@,
            count == 1 ==> forall|k: int| 0 <= k < i && #[trigger] ev[k].0 == oid@ ==> k == position,
        decreases entries@.len() - i,
    {
        if entries[i].0 == target {
            proof {
                assert(ev[i as int].0 == oid@);
            }
            if count == 0 {
                position = i;
            }
            count = count + 1;
        } else {
            proof {
                assert(ev[i as int].0 != oid@);
            }
        }
        i = i + 1;
    }
    if count != 1 {
        return Err(CheckpointError::StashNotUnique);
    }
    let mut chars = crate::text::to_chars("stash@{");
    let digits = crate::text::decimal_chars(position as u64);
    crate::text::append_chars(&mut chars, &digits);
    crate::text::append_str(&mut chars, "}");
    Ok(crate::text::from_chars(chars.as_slice()))
}

/* Names of the refs and files of one checkpoint */

/// `n` in decimal, with a leading `-` when negative (`i64`'s `Display`).
pub open spec fn signed_decimal(n: int) -> Seq<char> {
    if n < 0 {
        "-"@ + decimal((-n) as nat)
    } else {
        decimal(n as nat)
    }
}

/// The unique suffix of a checkpoint's names: `<pid>-<nanoseconds>`.
pub open spec fn spec_nonce(pid: u32, nanos: i64) -> Seq<char> {
    decimal(pid as nat) + "-"@ + signed_decimal(nanos as int)
}

pub fn nonce(pid: u32, nanos: i64) -> (r: String)
    ensures
        r@ == spec_nonce(pid, nanos),
{
    let mut chars = crate::text::decimal_chars(pid as u64);
    crate::text::append_str(&mut chars, "-");
    if nanos < 0 {
        crate::text::append_str(&mut chars, "-");
        let magnitude: u64 = if nanos == i64::MIN {
            9223372036854775808u64
        } else {
            (-nanos) as u64
        };
        let digits = crate::text::decimal_chars(magnitude);
        crate::text::append_chars(&mut chars, &digits);
        proof {
            assert(chars@ =~= decimal(pid as nat) + "-"@ + ("-"@ + decimal((-(nanos as int)) as nat)));
        }
    } else {
        let digits = crate::text::decimal_chars(nanos as u64);
        crate::text::append_chars(&mut chars, &digits);
    }
    crate::text::from_chars(chars.as_slice())
}

/// The refs and file names of one checkpoint.
#[derive(Clone, Debug)]
pub struct CheckpointNames {
    /// `refs/opencode/checkpoints/<id>-<nonce>`: the captured state.
    pub bundle_ref: String,
    /// `refs/opencode/heads/<id>-<nonce>`: the captured `HEAD`.
    pub head_ref: String,
    /// `checkpoint-<nonce>.bundle`
    pub bundle_file: String,
    /// `checkpoint-<nonce>.json`
    pub metadata_file: String,
    /// `opencode checkpoint <id>`: the message of the checkpoint stash.
    pub stash_message: String,
}

pub open spec fn spec_bundle_ref(workspace_id: Seq<char>, nonce: Seq<char>) -> Seq<char> {
    "refs/opencode/checkpoints/"@ + workspace_id + "-"@ + nonce
}

pub open spec fn spec_head_ref(workspace_id: Seq<char>, nonce: Seq<char>) -> Seq<char> {
    "refs/opencode/heads/"@ + workspace_id + "-"@ + nonce
}

pub fn checkpoint_names(workspace_id: &str, nonce: &str) -> (r: CheckpointNames)
    ensures
        r.bundle_ref@ == spec_bundle_ref(workspace_id@, nonce@),
        r.head_ref@ == spec_head_ref(workspace_id@, nonce@),
        r.bundle_file@ == "checkpoint-"@ + nonce@ + ".bundle"@,
        r.metadata_file@ == "checkpoint-"@ + nonce@ + ".json"@,
        r.stash_message@ == "opencode checkpoint "@ + workspace_id@,
{
    let id_dash = crate::text::concat_str(workspace_id, "-");
    let suffix = crate::text::concat_str(id_dash.as_str(), nonce);
    let bundle_ref = crate::text::concat_str("refs/opencode/checkpoints/", suffix.as_str());
    let head_ref = crate::text::concat_str("refs/opencode/heads/", suffix.as_str());
    let stem = crate::text::concat_str("checkpoint-", nonce);
    let bundle_file = crate::text::concat_str(stem.as_str(), ".bundle");
    let metadata_file = crate::text::concat_str(stem.as_str(), ".json");
    let stash_message = crate::text::concat_str("opencode checkpoint ", workspace_id);
    proof {
        assert(bundle_ref@ =~= spec_bundle_ref(workspace_id@, nonce@));
        assert(head_ref@ =~= spec_head_ref(workspace_id@, nonce@));
    }
    CheckpointNames { bundle_ref, head_ref, bundle_file, metadata_file, stash_message }
}

/* The byte encoding of a state snapshot */

/// `n` as 8 big-endian bytes (`u64::to_be_bytes`).
pub open spec fn be64(n: u64) -> Seq<u8> {
    seq![
        (n >> 56u64) as u8,
        (n >> 48u64) as u8,
        (n >> 40u64) as u8,
        (n >> 32u64) as u8,
        (n >> 24u64) as u8,
        (n >> 16u64) as u8,
        (n >> 8u64) as u8,
        n as u8,
    ]
}

/// The number 8 big-endian bytes stand for (`u64::from_be_bytes`).
pub open spec fn be64_value(b: Seq<u8>) -> u64 {
    ((b[0] as u64) << 56u64) | ((b[1] as u64) << 48u64) | ((b[2] as u64) << 40u64) | ((b[3] as u64)
        << 32u64) | ((b[4] as u64) << 24u64) | ((b[5] as u64) << 16u64) | ((b[6] as u64) << 8u64) | (
    b[7] as u64)
}

pub proof fn lemma_be64_round_trip(n: u64)
    ensures
        be64_value(be64(n)) == n,
{
    let b = be64(n);
    let b0 = (n >> 56u64) as u8;
    let b1 = (n >> 48u64) as u8;
    let b2 = (n >> 40u64) as u8;
    let b3 = (n >> 32u64) as u8;
    let b4 = (n >> 24u64) as u8;
    let b5 = (n >> 16u64) as u8;
    let b6 = (n >> 8u64) as u8;
    let b7 = n as u8;
    assert(b[0] == b0 && b[1] == b1 && b[2] == b2 && b[3] == b3);
    assert(b[4] == b4 && b[5] == b5 && b[6] == b6 && b[7] == b7);
    assert(((b0 as u64) << 56u64) | ((b1 as u64) << 48u64) | ((b2 as u64) << 40u64) | ((b3 as u64)
        << 32u64) | ((b4 as u64) << 24u64) | ((b5 as u64) << 16u64) | ((b6 as u64) << 8u64) | (
    b7 as u64) == n) by (bit_vector)
        requires
            b0 == (n >> 56u64) as u8,
            b1 == (n >> 48u64) as u8,
            b2 == (n >> 40u64) as u8,
            b3 == (n >> 32u64) as u8,
            b4 == (n >> 24u64) as u8,
            b5 == (n >> 16u64) as u8,
            b6 == (n >> 8u64) as u8,
            b7 == n as u8,
    ;
}

/// A named, length-prefixed section: the name's length, the name, the
/// value's length and the value, lengths as 8 big-endian bytes.
pub open spec fn section(name: Seq<u8>, value: Seq<u8>) -> Seq<u8> {
    be64(name.len() as u64) + name + be64(value.len() as u64) + value
}

/// Reads one section off the front of `b`: its name, its value and what follows.
pub open spec fn read_section(b: Seq<u8>) -> Option<(Seq<u8>, Seq<u8>, Seq<u8>)> {
    if b.len() < 8 {
        None
    } else {
        let n = be64_value(b.take(8)) as int;
        if b.len() < 16 + n {
            None
        } else {
            let m = be64_value(b.subrange(8 + n, 16 + n)) as int;
            if b.len() < 16 + n + m {
                None
            } else {
                Some((b.subrange(8, 8 + n), b.subrange(16 + n, 16 + n + m), b.skip(16 + n + m)))
            }
        }
    }
}

/// A section reads back as the name and value it was written with, and the
/// bytes after it are left as they were: the snapshot encoding is
/// unambiguous.
pub proof fn law_section_round_trip(name: Seq<u8>, value: Seq<u8>, rest: Seq<u8>)
    requires
        name.len() <= u64::MAX,
        value.len() <= u64::MAX,
    ensures
        read_section(section(name, value) + rest) == Some((name, value, rest)),
{
    let b = section(name, value) + rest;
    let n = name.len() as int;
    let m = value.len() as int;
    lemma_be64_round_trip(name.len() as u64);
    lemma_be64_round_trip(value.len() as u64);
    assert(b.take(8) =~= be64(name.len() as u64));
    assert(b.subrange(8 + n, 16 + n) =~= be64(value.len() as u64));
    assert(b.subrange(8, 8 + n) =~= name);
    assert(b.subrange(16 + n, 16 + n + m) =~= value);
    assert(b.skip(16 + n + m) =~= rest);
}

fn push_be64(target: &mut Vec<u8>, n: u64)
    ensures
        final(target)@ == old(target)@ + be64(n),
{
    target.push((n >> 56u64) as u8);
    target.push((n >> 48u64) as u8);
    target.push((n >> 40u64) as u8);
    target.push((n >> 32u64) as u8);
    target.push((n >> 24u64) as u8);
    target.push((n >> 16u64) as u8);
    target.push((n >> 8u64) as u8);
    target.push(n as u8);
    proof {
        assert(target@ =~= old(target)@ + be64(n));
    }
}

fn push_bytes(target: &mut Vec<u8>, bytes: &[u8])
    ensures
        final(target)@ == old(target)@ + bytes@,
{
    let mut i: usize = 0;
    while i < bytes.len()
        invariant
            i <= bytes@.len(),
            target@ == old(target)@ + bytes@.take(i as int),
        decreases bytes@.len() - i,
    {
        target.push(bytes[i]);
        i = i + 1;
        proof {
            assert(bytes@.take(i as int) =~= bytes@.take(i - 1).push(bytes@[i - 1]));
        }
    }
    proof {
        assert(bytes@.take(i as int) =~= bytes@);
    }
}

/// Appends `section(name, value)` to `target`.
pub fn append_section(target: &mut Vec<u8>, name: &[u8], value: &[u8])
    ensures
        final(target)@ == old(target)@ + section(name@, value@),
{
    push_be64(target, name.len() as u64);
    push_bytes(target, name);
    push_be64(target, value.len() as u64);
    push_bytes(target, value);
    proof {
        assert(target@ =~= old(target)@ + section(name@, value@));
    }
}

/// `n` in octal as ASCII digits (`format!("{:o}", n)`).
pub open spec fn octal(n: nat) -> Seq<u8>
    decreases n,
{
    if n < 8 {
        seq![(48 + n) as u8]
    } else {
        octal(n / 8) + seq![(48 + n % 8) as u8]
    }
}

pub fn octal_bytes(n: u32) -> (r: Vec<u8>)
    ensures
        r@ == octal(n as nat),
    decreases n,
{
    if n < 8 {
        let mut r: Vec<u8> = Vec::new();
        r.push((48 + n) as u8);
        proof {
            assert(r@ =~= seq![(48 + n) as u8]);
        }
        r
    } else {
        let mut r = octal_bytes(n / 8);
        r.push((48 + n % 8) as u8);
        r
    }
}

/// An untracked file as the snapshot sees it: its path relative to the
/// repository, its permission bits and its content (a symlink's target).
#[derive(Clone, Debug)]
pub struct UntrackedFile {
    pub path: Vec<u8>,
    pub mode: u32,
    pub content: Vec<u8>,
}

pub open spec fn file_view(f: UntrackedFile) -> (Seq<u8>, u32, Seq<u8>) {
    (f.path@, f.mode, f.content@)
}

/// The permission bits recorded for a file: `mode & 0o7777` in octal.
pub open spec fn mode_text(mode: u32) -> Seq<u8> {
    octal((mode & 4095u32) as nat)
}

/// The sections of the untracked files: path, mode and content of each.
pub open spec fn file_sections(files: Seq<(Seq<u8>, u32, Seq<u8>)>) -> Seq<u8>
    decreases files.len(),
{
    if files.len() == 0 {
        Seq::empty()
    } else {
        let f = files.last();
        file_sections(files.drop_last()) + section(vstd::utf8::encode_utf8("path"@), f.0) + section(
            vstd::utf8::encode_utf8("mode"@),
            mode_text(f.1),
        ) + section(vstd::utf8::encode_utf8("content"@), f.2)
    }
}

/// The fingerprinted bytes of a repository state: status, staged diff,
/// unstaged diff, then each untracked file.
pub open spec fn spec_snapshot_bytes(
    status: Seq<u8>,
    cached_diff: Seq<u8>,
    worktree_diff: Seq<u8>,
    files: Seq<(Seq<u8>, u32, Seq<u8>)>,
) -> Seq<u8> {
    section(vstd::utf8::encode_utf8("status"@), status) + section(
        vstd::utf8::encode_utf8("cached-diff"@),
        cached_diff,
    ) + section(vstd::utf8::encode_utf8("worktree-diff"@), worktree_diff) + file_sections(files)
}

/// A repository state: the raw `git status` output and the snapshot bytes.
#[derive(Clone, Debug)]
pub struct StateSnapshot {
    pub status: Vec<u8>,
    pub bytes: Vec<u8>,
}

/// Assembles the snapshot of a repository state from Git's outputs and the
/// untracked files, in the order Git listed them.
pub fn snapshot_state(
    status: Vec<u8>,
    cached_diff: &[u8],
    worktree_diff: &[u8],
    files: &Vec<UntrackedFile>,
) -> (r: StateSnapshot)
    ensures
        r.status@ == status@,
        r.bytes@ == spec_snapshot_bytes(status@, cached_diff@, worktree_diff@, files@.map_values(|f: UntrackedFile| file_view(f))),
{
    let mut bytes: Vec<u8> = Vec::new();
    append_section(&mut bytes, "status".as_bytes(), status.as_slice());
    append_section(&mut bytes, "cached-diff".as_bytes(), cached_diff);
    append_section(&mut bytes, "worktree-diff".as_bytes(), worktree_diff);
    let ghost head = bytes@;
    let ghost fv = files@.map_values(|f: UntrackedFile| file_view(f));
    proof {
        assert(fv.take(0) =~= Seq::<(Seq<u8>, u32, Seq<u8>)>::empty());
        assert(bytes@ =~= head + file_sections(fv.take(0)));
    }
    let mut i: usize = 0;
    while i < files.len()
        invariant
            i <= files@.len(),
            fv == files@.map_values(|f: UntrackedFile| file_view(f)),
            bytes@ == head + file_sections(fv.take(i as int)),
        decreases files@.len() - i,
    {
        let f = &files[i];
        let mode = octal_bytes(f.mode & 4095u32);
        append_section(&mut bytes, "path".as_bytes(), f.path.as_slice());
        append_section(&mut bytes, "mode".as_bytes(), mode.as_slice());
        append_section(&mut bytes, "content".as_bytes(), f.content.as_slice());
        proof {
            let t = fv.take(i + 1);
            assert(t.drop_last() =~= fv.take(i as int));
            assert(t.last() == file_view(*f));
        }
        i = i + 1;
    }
    proof {
        assert(fv.take(i as int) =~= fv);
    }
    StateSnapshot { status, bytes }
}

/// The untracked paths listed by `git ls-files --others -z`: the
/// NUL-separated pieces that are not empty.
pub open spec fn spec_untracked_paths(output: Seq<u8>) -> Seq<Seq<u8>> {
    split_on(output, 0u8).filter(|p: Seq<u8>| p.len() > 0)
}

pub fn untracked_paths(output: &[u8]) -> (r: Vec<Vec<u8>>)
    ensures
        r@.map_values(|v: Vec<u8>| v@) == spec_untracked_paths(output@),
{
    let fields = crate::text::split_bytes(output, 0u8);
    let ghost fv = fields@.map_values(|v: Vec<u8>| v@);
    let mut r: Vec<Vec<u8>> = Vec::new();
    let mut i: usize = 0;
    proof {
        assert(fv.take(0) =~= Seq::<Seq<u8>>::empty());
        assert(Seq::<Seq<u8>>::empty().filter(|p: Seq<u8>| p.len() > 0) =~= Seq::<Seq<u8>>::empty());
    }
    while i < fields.len()
        invariant
            i <= fields@.len(),
            fv == fields@.map_values(|v: Vec<u8>| v@),
            r@.map_values(|v: Vec<u8>| v@) == fv.take(i as int).filter(|p: Seq<u8>| p.len() > 0),
        decreases fields@.len() - i,
    {
        let ghost before = r@.map_values(|v: Vec<u8>| v@);
        proof {
            assert(fv.take(i + 1) =~= fv.take(i as int).push(fv[i as int]));
            fv.take(i as int).lemma_filter_push(fv[i as int], |p: Seq<u8>| p.len() > 0);
        }
        if fields[i].len() > 0 {
            r.push(fields[i].clone());
            proof {
                assert(r@.map_values(|v: Vec<u8>| v@) =~= before.push(fv[i as int]));
            }
        }
        i = i + 1;
    }
    proof {
        assert(fv.take(i as int) =~= fv);
    }
    r
}

/* Capture */

fn entries_equal(a: &Vec<(String, String)>, b: &Vec<(String, String)>) -> (r: bool)
    ensures
        r == (entries_view(a@) == entries_view(b@)),
{
    if a.len() != b.len() {
        proof {
            assert(entries_view(a@).len() != entries_view(b@).len());
        }
        return false;
    }
    let mut i: usize = 0;
    while i < a.len()
        invariant
            i <= a@.len(),
            a@.len() == b@.len(),
            forall|k: int| 0 <= k < i ==> #[trigger] entries_view(a@)[k] == entries_view(b@)[k],
        decreases a@.len() - i,
    {
        if !(a[i].0 == b[i].0 && a[i].1 == b[i].1) {
            proof {
                assert(entries_view(a@)[i as int] != entries_view(b@)[i as int]);
            }
            return false;
        }
        i = i + 1;
    }
    proof {
        assert(entries_view(a@) =~= entries_view(b@));
    }
    true
}

/// The verdict on a capture: it must leave the status output, the state
/// bytes and the unrelated stash entries exactly as they were.
pub open spec fn spec_capture_consistency(
    before_status: Seq<u8>,
    before_bytes: Seq<u8>,
    after_status: Seq<u8>,
    after_bytes: Seq<u8>,
    stash_before: Seq<(Seq<char>, Seq<char>)>,
    stash_after: Seq<(Seq<char>, Seq<char>)>,
) -> Result<(), CheckpointError> {
    if before_status != after_status {
        Err(CheckpointError::StatusChanged)
    } else if before_bytes != after_bytes {
        Err(CheckpointError::StateChanged)
    } else if stash_before != stash_after {
        Err(CheckpointError::StashChanged)
    } else {
        Ok(())
    }
}

pub fn check_capture_consistency(
    before: &StateSnapshot,
    after: &StateSnapshot,
    stash_before: &Vec<(String, String)>,
    stash_after: &Vec<(String, String)>,
) -> (r: Result<(), CheckpointError>)
    ensures
        r == spec_capture_consistency(
            before.status@,
            before.bytes@,
            after.status@,
            after.bytes@,
            entries_view(stash_before@),
            entries_view(stash_after@),
        ),
{
    if !crate::text::bytes_equal(before.status.as_slice(), after.status.as_slice()) {
        return Err(CheckpointError::StatusChanged);
    }
    if !crate::text::bytes_equal(before.bytes.as_slice(), after.bytes.as_slice()) {
        return Err(CheckpointError::StateChanged);
    }
    if !entries_equal(stash_before, stash_after) {
        return Err(CheckpointError::StashChanged);
    }
    Ok(())
}

/// Whether the state has anything to stash: `git status` printed something.
pub fn has_changes(before: &StateSnapshot) -> (r: bool)
    ensures
        r == (before.status@.len() > 0),
{
    before.status.len() > 0
}

fn hex_string(data: &[u8]) -> (r: String)
    ensures
        r@ == crate::digest::sha256_hex_spec(data@),
{
    let hex = crate::digest::sha256_hex(data);
    crate::text::from_chars(hex.as_slice())
}

/// The OID a checkpoint records: the stash made of the changes when the state
/// has changes (`None` if no stash was made), else `HEAD` itself.
pub open spec fn spec_checkpoint_oid(status: Seq<u8>, stash_oid: Option<String>, head: String) -> Option<String> {
    if status.len() > 0 {
        stash_oid
    } else {
        Some(head)
    }
}

pub fn checkpoint_oid(before: &StateSnapshot, stash_oid: Option<String>, head: &String) -> (r: Option<String>)
    ensures
        r == spec_checkpoint_oid(before.status@, stash_oid, *head),
{
    if has_changes(before) {
        stash_oid
    } else {
        Some(head.clone())
    }
}

/// The metadata of a captured checkpoint; `MissingStash` when the state had
/// changes but no stash OID is given.
pub fn checkpoint_metadata(
    workspace_id: &str,
    created_at: String,
    head: String,
    branch: Option<String>,
    before: &StateSnapshot,
    bundle: &[u8],
    stash_oid: Option<String>,
    names: &CheckpointNames,
) -> (r: Result<CheckpointMetadata, CheckpointError>)
    ensures
        match spec_checkpoint_oid(before.status@, stash_oid, head) {
            None => r == Err::<CheckpointMetadata, CheckpointError>(CheckpointError::MissingStash),
            Some(oid) => r matches Ok(m) && m.checkpoint_oid == oid
                && m.workspace_id@ == workspace_id@
                && m.created_at == created_at
                && m.head == head
                && m.branch == branch
                && m.status_sha256@ == crate::digest::sha256_hex_spec(before.status@)
                && m.state_sha256@ == crate::digest::sha256_hex_spec(before.bytes@)
                && m.bundle_sha256@ == crate::digest::sha256_hex_spec(bundle@)
                && m.bundle_ref == names.bundle_ref
                && m.head_ref == names.head_ref
                && m.has_changes == (before.status@.len() > 0)
                && m.format_version == 1,
        },
{
    let oid = match checkpoint_oid(before, stash_oid, &head) {
        Some(oid) => oid,
        None => return Err(CheckpointError::MissingStash),
    };
    Ok(CheckpointMetadata {
        workspace_id: workspace_id.to_owned(),
        created_at,
        head,
        branch,
        status_sha256: hex_string(before.status.as_slice()),
        state_sha256: hex_string(before.bytes.as_slice()),
        bundle_sha256: hex_string(bundle),
        checkpoint_oid: oid,
        bundle_ref: names.bundle_ref.clone(),
        head_ref: names.head_ref.clone(),
        has_changes: has_changes(before),
        format_version: 1,
    })
}

/// A clean capture records `HEAD` as its checkpoint OID, whatever stash OID
/// is passed; a capture with changes records its stash.
pub proof fn law_clean_capture_records_head(status: Seq<u8>, stash_oid: Option<String>, head: String)
    ensures
        status.len() == 0 ==> spec_checkpoint_oid(status, stash_oid, head) == Some(head),
        status.len() > 0 ==> spec_checkpoint_oid(status, stash_oid, head) == stash_oid,
{
}

/// Whether the path given by `components` lies at or below the path given by
/// `base`: `base`'s components are a prefix of it, compared one by one.
pub open spec fn spec_path_within(components: Seq<Seq<u8>>, base: Seq<Seq<u8>>) -> bool {
    base.len() <= components.len() && forall|i: int| 0 <= i < base.len() ==> #[trigger] components[i] == base[i]
}

pub open spec fn bytes_view(v: Seq<Vec<u8>>) -> Seq<Seq<u8>> {
    v.map_values(|b: Vec<u8>| b@)
}

/// The checkpoint output directory must lie outside the repository: given
/// the components of both canonical paths, `OutputInsideRepository` when the
/// output's components start with all of the repository's.
pub fn ensure_output_outside(output: &Vec<Vec<u8>>, repo: &Vec<Vec<u8>>) -> (r: Result<(), CheckpointError>)
    ensures
        r == (if spec_path_within(bytes_view(output@), bytes_view(repo@)) {
            Err::<(), CheckpointError>(CheckpointError::OutputInsideRepository)
        } else {
            Ok(())
        }),
{
    if repo.len() > output.len() {
        return Ok(());
    }
    let mut i: usize = 0;
    while i < repo.len()
        invariant
            i <= repo@.len(),
            repo@.len() <= output@.len(),
            forall|k: int| 0 <= k < i ==> #[trigger] bytes_view(output@)[k] == bytes_view(repo@)[k],
        decreases repo@.len() - i,
    {
        if !crate::text::bytes_equal(output[i].as_slice(), repo[i].as_slice()) {
            proof {
                assert(bytes_view(output@)[i as int] != bytes_view(repo@)[i as int]);
            }
            return Ok(());
        }
        i = i + 1;
    }
    Err(CheckpointError::OutputInsideRepository)
}

/* The Git steps of a capture */

/// Where a capture stands. With changes, the stages after the checkpoint
/// stash exists pin it and `HEAD` under temporary refs, bundle them, put
/// the worktree back, drop the stash entry and remove the refs; a failure
/// there rolls back. Without changes, `HEAD` is pinned under both refs,
/// bundled, and the refs are removed whatever happened.
#[derive(Clone, Copy, Debug, PartialEq, Eq, Structural)]
pub enum CaptureStage {
    PinState,
    PinHead,
    WriteBundle,
    RestoreWorktree,
    FindStash,
    DropStash,
    UnpinState,
    UnpinHead,
    PinCleanState,
    PinCleanHead,
    WriteCleanBundle,
    UnpinCleanState,
    UnpinCleanHead,
    /// The bundle is written and the repository is as it was.
    Done,
    /// A step failed after the stash was made: remove both refs and put the
    /// stash back if the state changed.
    RolledBack,
    /// A step failed without changes.
    Failed,
}

/// What the caller runs next.
#[derive(Clone, Debug)]
pub enum CaptureAction {
    /// Run `git` with these arguments and report whether it succeeded.
    Git { args: Vec<String> },
    /// Run `git stash list --format=%H%x00%gs%x00` and report its output.
    ListStash,
    /// Stop: the capture's Git work is over (see the stage).
    Stop,
}

/// The Git transaction of one capture.
#[derive(Clone, Debug)]
pub struct CaptureTransaction {
    pub stage: CaptureStage,
    /// A clean-path step failed; the refs are still removed.
    pub failed: bool,
    pub bundle_ref: String,
    pub head_ref: String,
    /// The stash OID (with changes) or `HEAD` (without).
    pub checkpoint_oid: String,
    pub head: String,
    pub bundle_path: String,
    /// `stash@{i}` of the checkpoint stash, once found.
    pub drop_target: String,
}

/// The stage after `stage` when its step succeeded (`ok`), and, for the
/// stash lookup, whether the stash is listed exactly once (`unique`).
pub open spec fn spec_next_stage(stage: CaptureStage, ok: bool, unique: bool, failed: bool) -> (CaptureStage, bool) {
    match stage {
        CaptureStage::PinState => if ok { (CaptureStage::PinHead, failed) } else { (CaptureStage::RolledBack, failed) },
        CaptureStage::PinHead => if ok { (CaptureStage::WriteBundle, failed) } else { (CaptureStage::RolledBack, failed) },
        CaptureStage::WriteBundle => if ok { (CaptureStage::RestoreWorktree, failed) } else { (CaptureStage::RolledBack, failed) },
        CaptureStage::RestoreWorktree => if ok { (CaptureStage::FindStash, failed) } else { (CaptureStage::RolledBack, failed) },
        CaptureStage::FindStash => if ok && unique { (CaptureStage::DropStash, failed) } else { (CaptureStage::RolledBack, failed) },
        CaptureStage::DropStash => if ok { (CaptureStage::UnpinState, failed) } else { (CaptureStage::RolledBack, failed) },
        CaptureStage::UnpinState => if ok { (CaptureStage::UnpinHead, failed) } else { (CaptureStage::RolledBack, failed) },
        CaptureStage::UnpinHead => if ok { (CaptureStage::Done, failed) } else { (CaptureStage::RolledBack, failed) },
        CaptureStage::PinCleanState => if ok { (CaptureStage::PinCleanHead, failed) } else { (CaptureStage::Failed, true) },
        CaptureStage::PinCleanHead => if ok { (CaptureStage::WriteCleanBundle, failed) } else { (CaptureStage::Failed, true) },
        CaptureStage::WriteCleanBundle => (CaptureStage::UnpinCleanState, failed || !ok),
        CaptureStage::UnpinCleanState => (CaptureStage::UnpinCleanHead, failed || !ok),
        CaptureStage::UnpinCleanHead => if failed || !ok { (CaptureStage::Failed, true) } else { (CaptureStage::Done, false) },
        _ => (stage, failed),
    }
}

pub open spec fn strings_view(v: Seq<String>) -> Seq<Seq<char>> {
    v.map_values(|s: String| s@)
}

/// The command of each stage.
pub open spec fn spec_capture_args(t: CaptureTransaction) -> Option<Seq<Seq<char>>> {
    match t.stage {
        CaptureStage::PinState => Some(seq!["update-ref"@, t.bundle_ref@, t.checkpoint_oid@]),
        CaptureStage::PinHead => Some(seq!["update-ref"@, t.head_ref@, t.head@]),
        CaptureStage::WriteBundle => Some(seq!["bundle"@, "create"@, t.bundle_path@, t.bundle_ref@, t.head_ref@]),
        CaptureStage::RestoreWorktree => Some(seq!["stash"@, "apply"@, "--index"@, t.checkpoint_oid@]),
        CaptureStage::DropStash => Some(seq!["stash"@, "drop"@, t.drop_target@]),
        CaptureStage::UnpinState => Some(seq!["update-ref"@, "-d"@, t.bundle_ref@]),
        CaptureStage::UnpinHead => Some(seq!["update-ref"@, "-d"@, t.head_ref@]),
        CaptureStage::PinCleanState => Some(seq!["update-ref"@, t.bundle_ref@, t.head@]),
        CaptureStage::PinCleanHead => Some(seq!["update-ref"@, t.head_ref@, t.head@]),
        CaptureStage::WriteCleanBundle => Some(seq!["bundle"@, "create"@, t.bundle_path@, t.bundle_ref@, t.head_ref@]),
        CaptureStage::UnpinCleanState => Some(seq!["update-ref"@, "-d"@, t.bundle_ref@]),
        CaptureStage::UnpinCleanHead => Some(seq!["update-ref"@, "-d"@, t.head_ref@]),
        _ => None,
    }
}

fn strings(parts: &[&str]) -> (r: Vec<String>)
    ensures
        r@.len() == parts@.len(),
        forall|i: int| 0 <= i < parts@.len() ==> #[trigger] r@[i]@ == parts@[i]@,
{
    let mut r: Vec<String> = Vec::new();
    let mut i: usize = 0;
    while i < parts.len()
        invariant
            i <= parts@.len(),
            r@.len() == i,
            forall|k: int| 0 <= k < i ==> #[trigger] r@[k]@ == parts@[k]@,
        decreases parts@.len() - i,
    {
        r.push(parts[i].to_owned());
        i = i + 1;
    }
    r
}

impl CaptureTransaction {
    /// The transaction of a capture of the state `before`: with changes it
    /// starts by pinning the stash `stash_oid` (`None` when none was made),
    /// else by pinning `HEAD`, which it then records as the checkpoint OID.
    pub fn new(names: &CheckpointNames, before: &StateSnapshot, stash_oid: Option<String>, head: String, bundle_path: String) -> (r: Option<CaptureTransaction>)
        ensures
            match spec_checkpoint_oid(before.status@, stash_oid, head) {
                None => r is None,
                Some(oid) => r matches Some(t) && t.checkpoint_oid == oid
                    && t.stage == (if before.status@.len() > 0 { CaptureStage::PinState } else { CaptureStage::PinCleanState })
                    && !t.failed
                    && t.bundle_ref == names.bundle_ref
                    && t.head_ref == names.head_ref
                    && t.head == head
                    && t.bundle_path == bundle_path,
            },
    {
        let with_changes = has_changes(before);
        let oid = match checkpoint_oid(before, stash_oid, &head) {
            Some(oid) => oid,
            None => return None,
        };
        Some(CaptureTransaction {
            stage: if with_changes { CaptureStage::PinState } else { CaptureStage::PinCleanState },
            failed: false,
            bundle_ref: names.bundle_ref.clone(),
            head_ref: names.head_ref.clone(),
            checkpoint_oid: oid,
            head,
            bundle_path,
            drop_target: String::new(),
        })
    }

    /// What to run at the current stage.
    pub fn action(&self) -> (r: CaptureAction)
        ensures
            self.stage == CaptureStage::FindStash ==> r is ListStash,
            spec_capture_args(*self) matches Some(a) ==> r matches CaptureAction::Git { args } && strings_view(args@) == a,
            spec_capture_args(*self) is None && self.stage != CaptureStage::FindStash ==> r is Stop,
    {
        let args: Vec<String> = match self.stage {
            CaptureStage::PinState => {
                let mut v = strings(&["update-ref"]);
                v.push(self.bundle_ref.clone());
                v.push(self.checkpoint_oid.clone());
                v
            },
            CaptureStage::PinHead | CaptureStage::PinCleanHead => {
                let mut v = strings(&["update-ref"]);
                v.push(self.head_ref.clone());
                v.push(self.head.clone());
                v
            },
            CaptureStage::WriteBundle | CaptureStage::WriteCleanBundle => {
                let mut v = strings(&["bundle", "create"]);
                v.push(self.bundle_path.clone());
                v.push(self.bundle_ref.clone());
                v.push(self.head_ref.clone());
                v
            },
            CaptureStage::RestoreWorktree => {
                let mut v = strings(&["stash", "apply", "--index"]);
                v.push(self.checkpoint_oid.clone());
                v
            },
            CaptureStage::FindStash => return CaptureAction::ListStash,
            CaptureStage::DropStash => {
                let mut v = strings(&["stash", "drop"]);
                v.push(self.drop_target.clone());
                v
            },
            CaptureStage::UnpinState | CaptureStage::UnpinCleanState => {
                let mut v = strings(&["update-ref", "-d"]);
                v.push(self.bundle_ref.clone());
                v
            },
            CaptureStage::UnpinHead | CaptureStage::UnpinCleanHead => {
                let mut v = strings(&["update-ref", "-d"]);
                v.push(self.head_ref.clone());
                v
            },
            CaptureStage::PinCleanState => {
                let mut v = strings(&["update-ref"]);
                v.push(self.bundle_ref.clone());
                v.push(self.head.clone());
                v
            },
            _ => return CaptureAction::Stop,
        };
        proof {
            assert(strings_view(args@) =~= spec_capture_args(*self)->0);
        }
        CaptureAction::Git { args }
    }

    /// Records the outcome of the current step: whether it succeeded and,
    /// for the stash lookup, the listing it printed.
    pub fn advance(&mut self, succeeded: bool, stash_list: &[u8])
        ensures
            ({
                let unique = match_count(spec_stash_list(stash_list@), old(self).checkpoint_oid@, spec_stash_list(stash_list@).len()) == 1;
                (final(self).stage, final(self).failed) == spec_next_stage(old(self).stage, succeeded, unique, old(self).failed)
            }),
            final(self).bundle_ref == old(self).bundle_ref,
            final(self).head_ref == old(self).head_ref,
            final(self).checkpoint_oid == old(self).checkpoint_oid,
            final(self).head == old(self).head,
            final(self).bundle_path == old(self).bundle_path,
            old(self).stage == CaptureStage::FindStash && final(self).stage == CaptureStage::DropStash ==> forall|i: int|
                0 <= i < spec_stash_list(stash_list@).len() && #[trigger] spec_stash_list(stash_list@)[i].0
                    == old(self).checkpoint_oid@ ==> final(self).drop_target@ == stash_ref(i as nat),
    {
        let ghost unique = match_count(spec_stash_list(stash_list@), self.checkpoint_oid@, spec_stash_list(stash_list@).len()) == 1;
        match self.stage {
            CaptureStage::FindStash => {
                if !succeeded {
                    self.stage = CaptureStage::RolledBack;
                    return;
                }
                let entries = stash_entries(stash_list);
                proof {
                    assert(entries_view(entries@).len() == entries@.len());
                }
                match stash_drop_target(&entries, self.checkpoint_oid.as_str()) {
                    Ok(target) => {
                        self.drop_target = target;
                        self.stage = CaptureStage::DropStash;
                    },
                    Err(_) => {
                        self.stage = CaptureStage::RolledBack;
                    },
                }
            },
            CaptureStage::PinState => self.stage = if succeeded { CaptureStage::PinHead } else { CaptureStage::RolledBack },
            CaptureStage::PinHead => self.stage = if succeeded { CaptureStage::WriteBundle } else { CaptureStage::RolledBack },
            CaptureStage::WriteBundle => self.stage = if succeeded { CaptureStage::RestoreWorktree } else { CaptureStage::RolledBack },
            CaptureStage::RestoreWorktree => self.stage = if succeeded { CaptureStage::FindStash } else { CaptureStage::RolledBack },
            CaptureStage::DropStash => self.stage = if succeeded { CaptureStage::UnpinState } else { CaptureStage::RolledBack },
            CaptureStage::UnpinState => self.stage = if succeeded { CaptureStage::UnpinHead } else { CaptureStage::RolledBack },
            CaptureStage::UnpinHead => self.stage = if succeeded { CaptureStage::Done } else { CaptureStage::RolledBack },
            CaptureStage::PinCleanState => if succeeded {
                self.stage = CaptureStage::PinCleanHead;
            } else {
                self.stage = CaptureStage::Failed;
                self.failed = true;
            },
            CaptureStage::PinCleanHead => if succeeded {
                self.stage = CaptureStage::WriteCleanBundle;
            } else {
                self.stage = CaptureStage::Failed;
                self.failed = true;
            },
            CaptureStage::WriteCleanBundle => {
                self.stage = CaptureStage::UnpinCleanState;
                self.failed = self.failed || !succeeded;
            },
            CaptureStage::UnpinCleanState => {
                self.stage = CaptureStage::UnpinCleanHead;
                self.failed = self.failed || !succeeded;
            },
            CaptureStage::UnpinCleanHead => if self.failed || !succeeded {
                self.stage = CaptureStage::Failed;
                self.failed = true;
            } else {
                self.stage = CaptureStage::Done;
            },
            _ => {},
        }
    }
}

/// The refs and the stash of a rolled-back capture: delete both refs, and
/// (when the state changed) re-apply the stash.
pub fn rollback_commands(t: &CaptureTransaction) -> (r: (Vec<String>, Vec<String>, Vec<String>))
    ensures
        strings_view(r.0@) == seq!["update-ref"@, "-d"@, t.bundle_ref@],
        strings_view(r.1@) == seq!["update-ref"@, "-d"@, t.head_ref@],
        strings_view(r.2@) == seq!["stash"@, "apply"@, "--index"@, t.checkpoint_oid@],
{
    let mut a = strings(&["update-ref", "-d"]);
    a.push(t.bundle_ref.clone());
    let mut b = strings(&["update-ref", "-d"]);
    b.push(t.head_ref.clone());
    let mut c = strings(&["stash", "apply", "--index"]);
    c.push(t.checkpoint_oid.clone());
    proof {
        assert(strings_view(a@) =~= seq!["update-ref"@, "-d"@, t.bundle_ref@]);
        assert(strings_view(b@) =~= seq!["update-ref"@, "-d"@, t.head_ref@]);
        assert(strings_view(c@) =~= seq!["stash"@, "apply"@, "--index"@, t.checkpoint_oid@]);
    }
    (a, b, c)
}

/// A capture with changes whose steps all succeed, with the stash listed
/// once, runs the eight steps in order and ends `Done`.
pub proof fn law_capture_with_changes_in_order(failed: bool)
    ensures
        spec_next_stage(CaptureStage::PinState, true, true, failed) == (CaptureStage::PinHead, failed),
        spec_next_stage(CaptureStage::PinHead, true, true, failed) == (CaptureStage::WriteBundle, failed),
        spec_next_stage(CaptureStage::WriteBundle, true, true, failed) == (CaptureStage::RestoreWorktree, failed),
        spec_next_stage(CaptureStage::RestoreWorktree, true, true, failed) == (CaptureStage::FindStash, failed),
        spec_next_stage(CaptureStage::FindStash, true, true, failed) == (CaptureStage::DropStash, failed),
        spec_next_stage(CaptureStage::DropStash, true, true, failed) == (CaptureStage::UnpinState, failed),
        spec_next_stage(CaptureStage::UnpinState, true, true, failed) == (CaptureStage::UnpinHead, failed),
        spec_next_stage(CaptureStage::UnpinHead, true, true, failed) == (CaptureStage::Done, failed),
{
}

/// Once the checkpoint stash exists, any failed step (or a stash that is
/// not listed exactly once) rolls the capture back.
pub proof fn law_capture_failure_rolls_back(stage: CaptureStage, ok: bool, unique: bool, failed: bool)
    requires
        stage == CaptureStage::PinState || stage == CaptureStage::PinHead || stage == CaptureStage::WriteBundle
            || stage == CaptureStage::RestoreWorktree || stage == CaptureStage::FindStash || stage
            == CaptureStage::DropStash || stage == CaptureStage::UnpinState || stage == CaptureStage::UnpinHead,
        !ok || (stage == CaptureStage::FindStash && !unique),
    ensures
        spec_next_stage(stage, ok, unique, failed).0 == CaptureStage::RolledBack,
{
}

/// Without changes, once the bundle step has run the temporary refs are
/// removed whatever the outcomes, and the capture is `Done` exactly when
/// the bundle and both removals succeeded.
pub proof fn law_clean_capture_always_unpins(bundle_ok: bool, unpin_state_ok: bool, unpin_head_ok: bool, u: bool)
    ensures
        ({
            let (s1, f1) = spec_next_stage(CaptureStage::WriteCleanBundle, bundle_ok, u, false);
            let (s2, f2) = spec_next_stage(s1, unpin_state_ok, u, f1);
            let (s3, f3) = spec_next_stage(s2, unpin_head_ok, u, f2);
            &&& s1 == CaptureStage::UnpinCleanState
            &&& s2 == CaptureStage::UnpinCleanHead
            &&& (s3 == CaptureStage::Done) == (bundle_ok && unpin_state_ok && unpin_head_ok)
            &&& (s3 == CaptureStage::Failed) == !(bundle_ok && unpin_state_ok && unpin_head_ok)
        }),
{
}

/* Restore */

/// The checks made before a restore touches the checkout: a known format, a
/// valid workspace ID, the bundle the metadata fingerprints, and a clean
/// checkout (`git status` printed nothing).
pub open spec fn spec_check_restore_inputs(
    format_version: u32,
    workspace_id: Seq<char>,
    bundle_sha256: Seq<char>,
    bundle: Seq<u8>,
    status: Seq<u8>,
) -> Result<(), CheckpointError> {
    if format_version != 1 {
        Err(CheckpointError::UnsupportedFormat)
    } else if spec_validate_workspace_id(workspace_id) is Err {
        spec_validate_workspace_id(workspace_id)
    } else if crate::digest::sha256_hex_spec(bundle) != bundle_sha256 {
        Err(CheckpointError::BundleMismatch)
    } else if status.len() > 0 {
        Err(CheckpointError::DirtyCheckout)
    } else {
        Ok(())
    }
}

pub fn check_restore_inputs(metadata: &CheckpointMetadata, bundle: &[u8], status: &[u8]) -> (r: Result<(), CheckpointError>)
    ensures
        r == spec_check_restore_inputs(
            metadata.format_version,
            metadata.workspace_id@,
            metadata.bundle_sha256@,
            bundle@,
            status@,
        ),
{
    if metadata.format_version != 1 {
        return Err(CheckpointError::UnsupportedFormat);
    }
    match validate_workspace_id(metadata.workspace_id.as_str()) {
        Err(e) => return Err(e),
        Ok(()) => {},
    }
    let digest = hex_string(bundle);
    if !(digest == metadata.bundle_sha256) {
        return Err(CheckpointError::BundleMismatch);
    }
    if status.len() > 0 {
        return Err(CheckpointError::DirtyCheckout);
    }
    Ok(())
}

/// The temporary refs a restore fetches the bundle's refs into.
#[derive(Clone, Debug)]
pub struct RestoreNames {
    /// `refs/opencode/restore/checkpoint-<restore id>`
    pub checkpoint_ref: String,
    /// `refs/opencode/restore/head-<restore id>`
    pub head_ref: String,
    /// `<bundle ref>:<checkpoint_ref>`
    pub checkpoint_refspec: String,
    /// `<head ref>:<head_ref>`
    pub head_refspec: String,
}

pub fn restore_names(metadata: &CheckpointMetadata, restore_id: &str) -> (r: RestoreNames)
    ensures
        r.checkpoint_ref@ == "refs/opencode/restore/checkpoint-"@ + restore_id@,
        r.head_ref@ == "refs/opencode/restore/head-"@ + restore_id@,
        r.checkpoint_refspec@ == metadata.bundle_ref@ + ":"@ + r.checkpoint_ref@,
        r.head_refspec@ == metadata.head_ref@ + ":"@ + r.head_ref@,
{
    let checkpoint_ref = crate::text::concat_str("refs/opencode/restore/checkpoint-", restore_id);
    let head_ref = crate::text::concat_str("refs/opencode/restore/head-", restore_id);
    let a = crate::text::concat_str(metadata.bundle_ref.as_str(), ":");
    let checkpoint_refspec = crate::text::concat_str(a.as_str(), checkpoint_ref.as_str());
    let b = crate::text::concat_str(metadata.head_ref.as_str(), ":");
    let head_refspec = crate::text::concat_str(b.as_str(), head_ref.as_str());
    RestoreNames { checkpoint_ref, head_ref, checkpoint_refspec, head_refspec }
}

/// The `git checkout` arguments that put the checkout at the recorded
/// `HEAD`: on the recorded branch, or detached when there was none.
pub fn checkout_args(metadata: &CheckpointMetadata) -> (r: Vec<String>)
    ensures
        match metadata.branch {
            Some(b) => r@.map_values(|s: String| s@) == seq!["checkout"@, "-B"@, b@, metadata.head@],
            None => r@.map_values(|s: String| s@) == seq!["checkout"@, "--detach"@, metadata.head@],
        },
{
    let mut r: Vec<String> = Vec::new();
    r.push("checkout".to_owned());
    match &metadata.branch {
        Some(b) => {
            r.push("-B".to_owned());
            r.push(b.clone());
        },
        None => {
            r.push("--detach".to_owned());
        },
    }
    r.push(metadata.head.clone());
    proof {
        if metadata.branch is Some {
            assert(r@.map_values(|s: String| s@) =~= seq!["checkout"@, "-B"@, metadata.branch->0@, metadata.head@]);
        } else {
            assert(r@.map_values(|s: String| s@) =~= seq!["checkout"@, "--detach"@, metadata.head@]);
        }
    }
    r
}

/// The fetched refs must name the recorded checkpoint and `HEAD` commits.
pub open spec fn spec_check_fetched_refs(
    checkpoint_oid: Seq<char>,
    head: Seq<char>,
    checkpoint_rev: Seq<u8>,
    head_rev: Seq<u8>,
) -> Result<(), CheckpointError> {
    if spec_text(checkpoint_rev) != checkpoint_oid {
        Err(CheckpointError::CheckpointOidMismatch)
    } else if spec_text(head_rev) != head {
        Err(CheckpointError::HeadOidMismatch)
    } else {
        Ok(())
    }
}

pub fn check_fetched_refs(metadata: &CheckpointMetadata, checkpoint_rev: &[u8], head_rev: &[u8]) -> (r: Result<(), CheckpointError>)
    ensures
        r == spec_check_fetched_refs(metadata.checkpoint_oid@, metadata.head@, checkpoint_rev@, head_rev@),
{
    if !(text(checkpoint_rev) == metadata.checkpoint_oid) {
        return Err(CheckpointError::CheckpointOidMismatch);
    }
    if !(text(head_rev) == metadata.head) {
        return Err(CheckpointError::HeadOidMismatch);
    }
    Ok(())
}

/// The restored state must have the fingerprints the checkpoint recorded.
pub open spec fn spec_check_restored_state(
    status_sha256: Seq<char>,
    state_sha256: Seq<char>,
    status: Seq<u8>,
    bytes: Seq<u8>,
) -> Result<(), CheckpointError> {
    if crate::digest::sha256_hex_spec(status) != status_sha256 {
        Err(CheckpointError::StatusFingerprintMismatch)
    } else if crate::digest::sha256_hex_spec(bytes) != state_sha256 {
        Err(CheckpointError::StateFingerprintMismatch)
    } else {
        Ok(())
    }
}

pub fn check_restored_state(metadata: &CheckpointMetadata, restored: &StateSnapshot) -> (r: Result<(), CheckpointError>)
    ensures
        r == spec_check_restored_state(
            metadata.status_sha256@,
            metadata.state_sha256@,
            restored.status@,
            restored.bytes@,
        ),
{
    if !(hex_string(restored.status.as_slice()) == metadata.status_sha256) {
        return Err(CheckpointError::StatusFingerprintMismatch);
    }
    if !(hex_string(restored.bytes.as_slice()) == metadata.state_sha256) {
        return Err(CheckpointError::StateFingerprintMismatch);
    }
    Ok(())
}

/* Laws */

proof fn lemma_section_name_lens()
    ensures
        vstd::utf8::encode_utf8("status"@).len() == 6,
        vstd::utf8::encode_utf8("cached-diff"@).len() == 11,
        vstd::utf8::encode_utf8("worktree-diff"@).len() == 13,
{
    reveal_strlit("status");
    reveal_strlit("cached-diff");
    reveal_strlit("worktree-diff");
    vstd::utf8::is_ascii_chars_encode_utf8("status"@);
    vstd::utf8::is_ascii_chars_encode_utf8("cached-diff"@);
    vstd::utf8::is_ascii_chars_encode_utf8("worktree-diff"@);
}

/// The snapshot bytes give back, section by section, the status output and
/// the staged and unstaged diffs they were made from, followed by the
/// untracked files' sections; so two snapshots with equal bytes have equal
/// statuses and diffs.
pub proof fn law_snapshot_sections_read_back(
    status: Seq<u8>,
    cached_diff: Seq<u8>,
    worktree_diff: Seq<u8>,
    files: Seq<(Seq<u8>, u32, Seq<u8>)>,
)
    requires
        status.len() <= u64::MAX,
        cached_diff.len() <= u64::MAX,
        worktree_diff.len() <= u64::MAX,
    ensures
        ({
            let b = spec_snapshot_bytes(status, cached_diff, worktree_diff, files);
            let s1 = section(vstd::utf8::encode_utf8("cached-diff"@), cached_diff);
            let s2 = section(vstd::utf8::encode_utf8("worktree-diff"@), worktree_diff);
            let r2 = file_sections(files);
            let r1 = s2 + r2;
            let r0 = s1 + r1;
            &&& read_section(b) == Some((vstd::utf8::encode_utf8("status"@), status, r0))
            &&& read_section(r0) == Some((vstd::utf8::encode_utf8("cached-diff"@), cached_diff, r1))
            &&& read_section(r1) == Some((vstd::utf8::encode_utf8("worktree-diff"@), worktree_diff, r2))
        }),
{
    lemma_section_name_lens();
    let n0 = vstd::utf8::encode_utf8("status"@);
    let n1 = vstd::utf8::encode_utf8("cached-diff"@);
    let n2 = vstd::utf8::encode_utf8("worktree-diff"@);
    let s0 = section(n0, status);
    let s1 = section(n1, cached_diff);
    let s2 = section(n2, worktree_diff);
    let r2 = file_sections(files);
    law_section_round_trip(n0, status, s1 + (s2 + r2));
    law_section_round_trip(n1, cached_diff, s2 + r2);
    law_section_round_trip(n2, worktree_diff, r2);
    lemma_concat_assoc4(s0, s1, s2, r2);
}

proof fn lemma_concat_assoc4(a: Seq<u8>, b: Seq<u8>, c: Seq<u8>, d: Seq<u8>)
    ensures
        a + b + c + d == a + (b + (c + d)),
{
    assert(a + b + c + d =~= a + (b + (c + d)));
}

/// A repository left exactly as it was passes the capture check.
pub proof fn law_unchanged_capture_passes(
    status: Seq<u8>,
    bytes: Seq<u8>,
    stash: Seq<(Seq<char>, Seq<char>)>,
)
    ensures
        spec_capture_consistency(status, bytes, status, bytes, stash, stash) == Ok::<(), CheckpointError>(()),
{
}

/// A restore that reproduces the captured state passes the fingerprint check
/// against the metadata recorded at capture (`checkpoint_metadata` records
/// exactly these fingerprints); any other status or state bytes with other
/// fingerprints is refused.
pub proof fn law_restore_accepts_captured_state(status: Seq<u8>, bytes: Seq<u8>, restored_status: Seq<u8>, restored_bytes: Seq<u8>)
    ensures
        spec_check_restored_state(
            crate::digest::sha256_hex_spec(status),
            crate::digest::sha256_hex_spec(bytes),
            status,
            bytes,
        ) == Ok::<(), CheckpointError>(()),
        spec_check_restored_state(
            crate::digest::sha256_hex_spec(status),
            crate::digest::sha256_hex_spec(bytes),
            restored_status,
            restored_bytes,
        ) is Ok ==> crate::digest::sha256_hex_spec(restored_status) == crate::digest::sha256_hex_spec(status)
            && crate::digest::sha256_hex_spec(restored_bytes) == crate::digest::sha256_hex_spec(bytes),
{
}

/// The bundle a checkpoint was captured with, restored into a clean
/// checkout, passes the checks made before a restore.
pub proof fn law_restore_accepts_captured_bundle(workspace_id: Seq<char>, bundle: Seq<u8>, status: Seq<u8>)
    requires
        spec_validate_workspace_id(workspace_id) is Ok,
        status.len() == 0,
    ensures
        spec_check_restore_inputs(1, workspace_id, crate::digest::sha256_hex_spec(bundle), bundle, status)
            == Ok::<(), CheckpointError>(()),
{
}

} // verus!

verus! {

impl CheckpointError {
    pub open spec fn spec_message(self) -> Seq<char> {
        match self {
            CheckpointError::EmptyWorkspaceId => "workspace ID must not be empty"@,
            CheckpointError::InvalidWorkspaceId => "workspace ID contains invalid characters"@,
            CheckpointError::NotWorktree => "path is not a Git worktree"@,
            CheckpointError::NoNewStash => "git did not create a new checkpoint stash"@,
            CheckpointError::StashNotUnique => "cannot uniquely identify checkpoint stash"@,
            CheckpointError::StatusChanged => "checkpoint changed git status byte output"@,
            CheckpointError::StateChanged => "checkpoint changed index, worktree, or untracked file bytes"@,
            CheckpointError::StashChanged => "checkpoint changed unrelated stash entries"@,
            CheckpointError::UnsupportedFormat => "unsupported checkpoint format"@,
            CheckpointError::BundleMismatch => "checkpoint bundle SHA-256 mismatch"@,
            CheckpointError::DirtyCheckout => "restore requires a clean checkout"@,
            CheckpointError::CheckpointOidMismatch => "bundle checkpoint OID mismatch"@,
            CheckpointError::HeadOidMismatch => "bundle HEAD OID mismatch"@,
            CheckpointError::StatusFingerprintMismatch => "restored git status fingerprint mismatch"@,
            CheckpointError::StateFingerprintMismatch => "restored worktree fingerprint mismatch"@,
            CheckpointError::OutputInsideRepository => "checkpoint output directory must be outside the repository"@,
            CheckpointError::MissingStash => "git did not create a new checkpoint stash"@,
        }
    }

    /// The message the error is reported with.
    pub fn message(&self) -> (r: &'static str)
        ensures
            r@ == self.spec_message(),
    {
        match self {
            CheckpointError::EmptyWorkspaceId => "workspace ID must not be empty",
            CheckpointError::InvalidWorkspaceId => "workspace ID contains invalid characters",
            CheckpointError::NotWorktree => "path is not a Git worktree",
            CheckpointError::NoNewStash => "git did not create a new checkpoint stash",
            CheckpointError::StashNotUnique => "cannot uniquely identify checkpoint stash",
            CheckpointError::StatusChanged => "checkpoint changed git status byte output",
            CheckpointError::StateChanged => "checkpoint changed index, worktree, or untracked file bytes",
            CheckpointError::StashChanged => "checkpoint changed unrelated stash entries",
            CheckpointError::UnsupportedFormat => "unsupported checkpoint format",
            CheckpointError::BundleMismatch => "checkpoint bundle SHA-256 mismatch",
            CheckpointError::DirtyCheckout => "restore requires a clean checkout",
            CheckpointError::CheckpointOidMismatch => "bundle checkpoint OID mismatch",
            CheckpointError::HeadOidMismatch => "bundle HEAD OID mismatch",
            CheckpointError::StatusFingerprintMismatch => "restored git status fingerprint mismatch",
            CheckpointError::StateFingerprintMismatch => "restored worktree fingerprint mismatch",
            CheckpointError::OutputInsideRepository => "checkpoint output directory must be outside the repository",
            CheckpointError::MissingStash => "git did not create a new checkpoint stash",
        }
    }
}

/// A workspace ID never holds a path separator, a dot or whitespace, so it
/// cannot leave the directories and ref namespaces it names; every ID made
/// only of ASCII letters, digits, `-` and `_` is accepted.
pub proof fn law_workspace_id_is_path_safe(s: Seq<char>, i: int)
    ensures
        (0 <= i < s.len() && (s[i] == '/' || s[i] == '.' || s[i] == ' ' || s[i] == '\\' || s[i] == ':'))
            ==> spec_validate_workspace_id(s) is Err,
        s.len() == 0 ==> spec_validate_workspace_id(s) == Err::<(), CheckpointError>(CheckpointError::EmptyWorkspaceId),
        (s.len() > 0 && forall|k: int| 0 <= k < s.len() ==> ('a' <= #[trigger] s[k] <= 'z' || 'A' <= s[k] <= 'Z'
            || '0' <= s[k] <= '9' || s[k] == '-' || s[k] == '_')) ==> spec_validate_workspace_id(s) is Ok,
{
    if 0 <= i < s.len() && (s[i] == '/' || s[i] == '.' || s[i] == ' ' || s[i] == '\\' || s[i] == ':') {
        assert(!is_id_char(s[i]));
    }
}

} // verus!
