//! Resuming an interrupted transfer.
//!
//! A transfer may continue where an earlier one stopped only if what is
//! already at the destination equals the start of the source. That is
//! checked by digest: the remote side names the digest of its bytes, the
//! strongest it can compute, and the same digest is taken of as many
//! bytes of the local copy. On a match the transfer continues from the
//! length that exists; otherwise it starts over. Sizes alone decide
//! nothing but that a copy longer than the source is written anew.

use crate::text::chars_of;
use crate::text::decimal;
use crate::text::join3;
use crate::text::lemma_hex_len;
use crate::text::same_text;
use crate::text::spec_decimal;
use crate::text::spec_hex;
use crate::text::spec_words;
use crate::text::string_of;
use crate::text::words;
use vstd::prelude::*;
use vstd::slice::slice_subrange;

verus! {

/// A SHA-256 computation in progress, as `sha2` holds it.
#[verifier::external_body]
pub struct Sha256Stream {
    inner: sha2::Sha256,
}

/// An MD5 computation in progress, as `md5` holds it.
#[verifier::external_body]
pub struct Md5Stream {
    inner: md5::Md5,
}

/// The bytes fed to a SHA-256 computation so far, in order.
pub uninterp spec fn sha256_fed(stream: Sha256Stream) -> Seq<u8>;

/// The bytes fed to an MD5 computation so far, in order.
pub uninterp spec fn md5_fed(stream: Md5Stream) -> Seq<u8>;

/// The SHA-256 digest of `data`.
pub uninterp spec fn sha256_of(data: Seq<u8>) -> Seq<u8>;

/// The MD5 digest of `data`.
pub uninterp spec fn md5_of(data: Seq<u8>) -> Seq<u8>;

/// `Digest::new` for `sha2::Sha256`: a computation that was fed nothing.
#[verifier::external_body]
fn sha256_start() -> (stream: Sha256Stream)
    ensures
        sha256_fed(stream) == Seq::<u8>::empty(),
{
    Sha256Stream { inner: sha2::Digest::new() }
}

/// `Digest::update` for `sha2::Sha256`: the data is fed after what was
/// fed before.
#[verifier::external_body]
fn sha256_feed(stream: &mut Sha256Stream, data: &[u8])
    ensures
        sha256_fed(*final(stream)) == sha256_fed(*old(stream)) + data@,
{
    sha2::Digest::update(&mut stream.inner, data);
}

/// `Digest::finalize` for `sha2::Sha256`: the digest of all that was
/// fed, which has 32 bytes.
#[verifier::external_body]
fn sha256_finish(stream: Sha256Stream) -> (digest: Vec<u8>)
    ensures
        digest@ == sha256_of(sha256_fed(stream)),
        digest@.len() == 32,
{
    sha2::Digest::finalize(stream.inner).to_vec()
}

/// `Digest::new` for `md5::Md5`: a computation that was fed nothing.
#[verifier::external_body]
fn md5_start() -> (stream: Md5Stream)
    ensures
        md5_fed(stream) == Seq::<u8>::empty(),
{
    Md5Stream { inner: md5::Digest::new() }
}

/// `Digest::update` for `md5::Md5`: the data is fed after what was fed
/// before.
#[verifier::external_body]
fn md5_feed(stream: &mut Md5Stream, data: &[u8])
    ensures
        md5_fed(*final(stream)) == md5_fed(*old(stream)) + data@,
{
    md5::Digest::update(&mut stream.inner, data);
}

/// `Digest::finalize` for `md5::Md5`: the digest of all that was fed,
/// which has 16 bytes.
#[verifier::external_body]
fn md5_finish(stream: Md5Stream) -> (digest: Vec<u8>)
    ensures
        digest@ == md5_of(md5_fed(stream)),
        digest@.len() == 16,
{
    md5::Digest::finalize(stream.inner).to_vec()
}

/// `hex::encode`: two lower-case hexadecimal digits for each byte.
#[verifier::external_body]
fn hex_encode(bytes: &Vec<u8>) -> (text: String)
    ensures
        text@ == spec_hex(bytes@, bytes@.len() as int),
{
    hex::encode(bytes)
}

/// The digests that a remote host may offer, strongest first.
#[derive(Clone, Copy, Debug, PartialEq, Eq, Structural)]
pub enum DigestKind {
    Sha256,
    Md5,
}

/// The digest of `data` under `kind`.
pub open spec fn spec_digest(kind: DigestKind, data: Seq<u8>) -> Seq<u8> {
    match kind {
        DigestKind::Sha256 => sha256_of(data),
        DigestKind::Md5 => md5_of(data),
    }
}

/// The digest of `data` as the text that the command-line tools print.
pub open spec fn spec_digest_text(kind: DigestKind, data: Seq<u8>) -> Seq<char> {
    let digest = spec_digest(kind, data);
    spec_hex(digest, digest.len() as int)
}

/// The first `limit` bytes of `data`, or all of it where it is shorter.
pub open spec fn spec_prefix(data: Seq<u8>, limit: nat) -> Seq<u8> {
    if limit < data.len() {
        data.take(limit as int)
    } else {
        data
    }
}

/// The running digest of one of the two kinds.
enum Stream {
    Sha256(Sha256Stream),
    Md5(Md5Stream),
}

/// The digest of the first bytes of a stream, taken chunk by chunk.
pub struct PrefixHasher {
    stream: Stream,
    read: u64,
    limit: u64,
}

/// A prefix digest in progress as a mathematical value.
pub ghost struct PrefixModel {
    pub kind: DigestKind,
    /// The bytes that entered the digest so far.
    pub fed: Seq<u8>,
    /// How many bytes are to enter it at most.
    pub limit: nat,
}

impl View for PrefixHasher {
    type V = PrefixModel;

    closed spec fn view(&self) -> PrefixModel {
        match self.stream {
            Stream::Sha256(s) => PrefixModel {
                kind: DigestKind::Sha256,
                fed: sha256_fed(s),
                limit: self.limit as nat,
            },
            Stream::Md5(s) => PrefixModel {
                kind: DigestKind::Md5,
                fed: md5_fed(s),
                limit: self.limit as nat,
            },
        }
    }
}

impl PrefixHasher {
    /// The invariant: no more than the limit has entered the digest.
    pub closed spec fn wf(&self) -> bool {
        self.read <= self.limit && self@.fed.len() == self.read
    }

    /// A digest of kind `kind` over at most `limit` bytes.
    pub fn new(kind: DigestKind, limit: u64) -> (hasher: Self)
        ensures
            hasher.wf(),
            hasher@ == (PrefixModel { kind, fed: Seq::<u8>::empty(), limit: limit as nat }),
    {
        match kind {
            DigestKind::Sha256 => PrefixHasher {
                stream: Stream::Sha256(sha256_start()),
                read: 0,
                limit,
            },
            DigestKind::Md5 => PrefixHasher { stream: Stream::Md5(md5_start()), read: 0, limit },
        }
    }

    /// Feeds the next chunk of the stream: as much of it as the limit
    /// still admits. Returns whether the limit admits more.
    pub fn feed(&mut self, chunk: &[u8]) -> (more: bool)
        requires
            old(self).wf(),
        ensures
            final(self).wf(),
            final(self)@.kind == old(self)@.kind,
            final(self)@.limit == old(self)@.limit,
            final(self)@.fed == old(self)@.fed + spec_prefix(
                chunk@,
                (old(self)@.limit - old(self)@.fed.len()) as nat,
            ),
            more == (final(self)@.fed.len() < final(self)@.limit),
    {
        let room = self.limit - self.read;
        let take: usize = if (chunk.len() as u64) > room {
            room as usize
        } else {
            chunk.len()
        };
        let part = slice_subrange(chunk, 0, take);
        assert(part@ =~= spec_prefix(chunk@, room as nat));
        match &mut self.stream {
            Stream::Sha256(s) => {
                sha256_feed(s, part);
            },
            Stream::Md5(s) => {
                md5_feed(s, part);
            },
        }
        self.read = self.read + take as u64;
        self.read < self.limit
    }

    /// The digest of what was fed, in lower-case hexadecimal: a text of
    /// the length by which `kind_of` tells the kind.
    pub fn finish(self) -> (text: String)
        ensures
            text@ == spec_digest_text(self@.kind, self@.fed),
            spec_kind_of(text@) == Some(self@.kind),
    {
        let digest = match self.stream {
            Stream::Sha256(s) => sha256_finish(s),
            Stream::Md5(s) => md5_finish(s),
        };
        proof {
            lemma_hex_len(digest@, digest@.len() as int);
        }
        hex_encode(&digest)
    }
}

/// The digest of the first `limit` bytes of `data`, in lower-case
/// hexadecimal.
pub fn digest_prefix(kind: DigestKind, data: &[u8], limit: u64) -> (text: String)
    ensures
        text@ == spec_digest_text(kind, spec_prefix(data@, limit as nat)),
        spec_kind_of(text@) == Some(kind),
{
    let mut hasher = PrefixHasher::new(kind, limit);
    hasher.feed(data);
    assert(hasher@.fed =~= spec_prefix(data@, limit as nat));
    hasher.finish()
}

/// The SHA-256 digest of the first `limit` bytes of a local file's
/// content, in lower-case hexadecimal.
pub fn compute_local_file_hash(content: &[u8], limit: u64) -> (text: String)
    ensures
        text@ == spec_digest_text(DigestKind::Sha256, spec_prefix(content@, limit as nat)),
        text@.len() == 64,
{
    digest_prefix(DigestKind::Sha256, content, limit)
}

/// The kind of digest that a text of this length spells: 64 digits for
/// SHA-256, 32 for MD5.
pub open spec fn spec_kind_of(hash: Seq<char>) -> Option<DigestKind> {
    if hash.len() == 64 {
        Some(DigestKind::Sha256)
    } else if hash.len() == 32 {
        Some(DigestKind::Md5)
    } else {
        None
    }
}

/// Tells by its length which digest the remote side computed.
pub fn kind_of(hash: &str) -> (kind: Option<DigestKind>)
    ensures
        kind == spec_kind_of(hash@),
{
    let n = hash.unicode_len();
    if n == 64 {
        Some(DigestKind::Sha256)
    } else if n == 32 {
        Some(DigestKind::Md5)
    } else {
        None
    }
}

/// The command that makes the remote host print the digest of a file.
pub open spec fn spec_hash_command(kind: DigestKind, path: Seq<char>) -> Seq<char> {
    match kind {
        DigestKind::Sha256 => "sha256sum '"@ + path + "'"@,
        DigestKind::Md5 => "md5sum '"@ + path + "'"@,
    }
}

/// The command that prints the digest of a remote file.
pub fn hash_command(kind: DigestKind, path: &str) -> (command: String)
    ensures
        command@ == spec_hash_command(kind, path@),
{
    match kind {
        DigestKind::Sha256 => join3("sha256sum '", path, "'"),
        DigestKind::Md5 => join3("md5sum '", path, "'"),
    }
}

/// The name of the tool that prints a digest of this kind.
pub open spec fn spec_digest_tool(kind: DigestKind) -> Seq<char> {
    match kind {
        DigestKind::Sha256 => "sha256sum"@,
        DigestKind::Md5 => "md5sum"@,
    }
}

/// The command that makes the remote host print the digest of the first
/// `length` bytes of a file.
pub open spec fn spec_prefix_hash_command(kind: DigestKind, path: Seq<char>, length: u64) -> Seq<
    char,
> {
    "head -c "@ + spec_decimal(length as nat) + " '"@ + path + "' | "@ + spec_digest_tool(kind)
}

/// The command that prints the digest of the first `length` bytes of a
/// remote file: what a download compares with the copy it already has.
pub fn prefix_hash_command(kind: DigestKind, path: &str, length: u64) -> (command: String)
    ensures
        command@ == spec_prefix_hash_command(kind, path@, length),
{
    let number = decimal(length);
    let mut command = String::new();
    command.append("head -c ");
    command.append(number.as_str());
    command.append(" '");
    command.append(path);
    command.append("' | ");
    match kind {
        DigestKind::Sha256 => {
            command.append("sha256sum");
        },
        DigestKind::Md5 => {
            command.append("md5sum");
        },
    }
    assert(command@ =~= spec_prefix_hash_command(kind, path@, length));
    command
}

/// The digest that a run of the digest tool printed: the first word of
/// its output, where the tool exited with status zero and printed
/// anything.
pub open spec fn spec_hash_from_output(exit_status: i32, output: Seq<char>) -> Option<Seq<char>> {
    if exit_status == 0 && spec_words(output).len() > 0 {
        Some(spec_words(output)[0])
    } else {
        None
    }
}

/// The digest in what the command printed: its first word, where the command
/// succeeded and printed one.
pub fn hash_from_output(exit_status: i32, output: &str) -> (hash: Option<String>)
    ensures
        match spec_hash_from_output(exit_status, output@) {
            Some(text) => hash matches Some(h) && h@ == text,
            None => hash is None,
        },
{
    if exit_status != 0 {
        return None;
    }
    let chars = chars_of(output);
    let w = words(&chars);
    if w.len() == 0 {
        return None;
    }
    Some(string_of(&w[0]))
}

/// The digest tool to try after `kind` failed: the next weaker one.
pub fn weaker_digest(kind: DigestKind) -> (next: Option<DigestKind>)
    ensures
        next == (match kind {
            DigestKind::Sha256 => Some(DigestKind::Md5),
            DigestKind::Md5 => None,
        }),
{
    match kind {
        DigestKind::Sha256 => Some(DigestKind::Md5),
        DigestKind::Md5 => None,
    }
}

/// What to do about the copy that exists at the destination.
#[derive(Clone, Copy, Debug, PartialEq, Eq, Structural)]
pub enum ResumeCheck {
    /// Nothing usable exists, or resuming was not asked for: start over.
    Restart,
    /// The destination holds `existing` bytes, no more than the source:
    /// compare the digests of that many bytes of both copies.
    Verify { existing: u64 },
}

/// What the sizes allow. `existing` is the size of the copy at the
/// destination, where there is one. A copy that is longer than the
/// source cannot be the start of it, so the transfer starts over. Any
/// other copy is compared first, also one of the source's own length:
/// sizes alone never show that a transfer is complete.
pub open spec fn spec_resume_check(resume: bool, existing: Option<u64>, source: u64) -> ResumeCheck {
    if !resume {
        ResumeCheck::Restart
    } else {
        match existing {
            None => ResumeCheck::Restart,
            Some(size) => if size > source {
                ResumeCheck::Restart
            } else {
                ResumeCheck::Verify { existing: size }
            },
        }
    }
}

/// What has to be compared before a transfer continues where it stopped.
pub fn resume_check(resume: bool, existing: Option<u64>, source: u64) -> (check: ResumeCheck)
    ensures
        check == spec_resume_check(resume, existing, source),
{
    if !resume {
        return ResumeCheck::Restart;
    }
    match existing {
        None => ResumeCheck::Restart,
        Some(size) => if size > source {
            ResumeCheck::Restart
        } else {
            ResumeCheck::Verify { existing: size }
        },
    }
}

/// The offset from which a transfer continues: the existing length
/// where the remote digest is of a known kind and equals the local
/// digest of that kind, zero otherwise. `local` is the local digest of
/// the kind that the remote digest has.
pub open spec fn spec_resume_offset(
    existing: u64,
    remote: Option<Seq<char>>,
    local: Option<Seq<char>>,
) -> u64 {
    match (remote, local) {
        (Some(r), Some(l)) => if spec_kind_of(r) is Some && r == l {
            existing
        } else {
            0
        },
        _ => 0,
    }
}

/// Decides from the two digests where the transfer continues. `remote`
/// is what the remote tool printed, if it printed anything; `local` is
/// the digest of as many bytes of the local copy, of the kind that
/// `kind_of` tells for the remote digest.
pub fn resume_offset(existing: u64, remote: Option<&str>, local: Option<&str>) -> (offset: u64)
    ensures
        offset == spec_resume_offset(
            existing,
            match remote {
                Some(r) => Some(r@),
                None => None,
            },
            match local {
                Some(l) => Some(l@),
                None => None,
            },
        ),
{
    match (remote, local) {
        (Some(r), Some(l)) => {
            let known = kind_of(r);
            if known.is_some() && same_text(r, l) {
                existing
            } else {
                0
            }
        },
        _ => 0,
    }
}

/// What the destination holds once a transfer that starts at `offset`
/// has written the rest of the source behind what was there.
pub open spec fn spec_transferred(existing: Seq<u8>, source: Seq<u8>, offset: nat) -> Seq<u8> {
    existing.take(offset as int) + source.skip(offset as int)
}

/// A resumed transfer never leaves a wrong file behind. A copy that is
/// longer than the source is written anew. Any other copy is compared by
/// digest with as many bytes of the source: where the digests match, the
/// transfer continues from the existing length, and the destination ends
/// up equal to the source, provided that equal digests mean equal data
/// for the two prefixes at hand; where they differ, the transfer starts
/// from offset zero, and the destination ends up equal to the source
/// whatever was there. Nothing is left to move exactly where the offset
/// is the length of the source.
pub proof fn lemma_resume_is_faithful(kind: DigestKind, existing: Seq<u8>, source: Seq<u8>)
    requires
        existing.len() <= u64::MAX,
        source.len() <= u64::MAX,
        spec_kind_of(spec_digest_text(kind, existing)) == Some(kind),
        spec_digest_text(kind, existing) == spec_digest_text(
            kind,
            spec_prefix(source, existing.len()),
        ) ==> existing == spec_prefix(source, existing.len()),
    ensures
        existing.len() > source.len() ==> {
            &&& spec_resume_check(true, Some(existing.len() as u64), source.len() as u64)
                == ResumeCheck::Restart
            &&& spec_transferred(existing, source, 0) == source
        },
        existing.len() <= source.len() ==> {
            let remote = spec_digest_text(kind, existing);
            let local = spec_digest_text(kind, spec_prefix(source, existing.len()));
            let offset = spec_resume_offset(existing.len() as u64, Some(remote), Some(local));
            &&& spec_resume_check(true, Some(existing.len() as u64), source.len() as u64) == (
            ResumeCheck::Verify { existing: existing.len() as u64 })
            &&& remote == local ==> offset == existing.len()
            &&& remote != local ==> offset == 0
            &&& spec_transferred(existing, source, offset as nat) == source
            &&& offset == source.len() ==> existing == source
        },
{
    assert(existing.take(0) + source.skip(0) =~= source);
    if existing.len() <= source.len() {
        let remote = spec_digest_text(kind, existing);
        let local = spec_digest_text(kind, spec_prefix(source, existing.len()));
        if remote == local {
            assert(existing.take(existing.len() as int) =~= existing);
            assert(spec_prefix(source, existing.len()) =~= source.take(existing.len() as int));
            assert(source.take(existing.len() as int) + source.skip(existing.len() as int)
                =~= source);
            if existing.len() == source.len() {
                assert(source.take(source.len() as int) =~= source);
            }
        }
    }
}

} // verus!
