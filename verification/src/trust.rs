//! Host identity: the trust store and trust on first use.
//!
//! The trust store is a text file of known hosts, one entry per line, in
//! the usual `host key-type base64-key` format. Reading entries, checking
//! a key and rendering a new entry are the work of `ssh2`'s `KnownHosts`;
//! this module decides what a verdict means: a known key lets the
//! connection proceed, an unknown host is trusted and recorded, a changed
//! key refuses the connection and leaves the store alone.

use crate::establish::EstablishError;
use crate::establish::FailureKind;
use crate::establish::Stage;
use crate::text::decimal;
use crate::text::hex_colon;
use crate::text::join2;
use crate::text::lemma_begins_with_head;
use crate::text::occurs_at;
use crate::text::spec_decimal;
use crate::text::spec_hex_colon;
use vstd::prelude::*;

verus! {

/// `ssh2`'s collection of known hosts.
#[verifier::external_type_specification]
#[verifier::external_body]
pub struct ExKnownHosts(ssh2::KnownHosts);

/// What the check of a host key against the known hosts gave.
#[derive(Clone, Copy, Debug, PartialEq, Eq, Structural)]
pub enum HostKeyCheck {
    /// The host is known and the key is the recorded one.
    Match,
    /// The host is not known.
    NotFound,
    /// The host is known with another key.
    Mismatch,
    /// The check could not be made.
    Failure,
}

/// The algorithm of a host key.
#[derive(Clone, Copy, Debug, PartialEq, Eq, Structural)]
pub enum HostKeyKind {
    Unknown,
    Rsa,
    Dss,
    Ecdsa256,
    Ecdsa384,
    Ecdsa521,
    Ed25519,
}

/// The lines that were read into a collection of known hosts, in order.
pub uninterp spec fn known_lines(known: ssh2::KnownHosts) -> Seq<Seq<char>>;

/// The hosts that were added to a collection of known hosts by name, key
/// and algorithm, in order.
pub uninterp spec fn known_added(known: ssh2::KnownHosts) -> Seq<(Seq<char>, Seq<u8>, HostKeyKind)>;

/// The verdict on `key` for `host` at `port` in a collection into which
/// the lines `lines` were read and nothing else was put.
pub uninterp spec fn known_host_verdict(
    lines: Seq<Seq<char>>,
    host: Seq<char>,
    port: u16,
    key: Seq<u8>,
) -> HostKeyCheck;

/// The line that renders the entry of `host` with `key` of algorithm
/// `kind`, with an empty comment.
pub uninterp spec fn known_host_line(host: Seq<char>, key: Seq<u8>, kind: HostKeyKind) -> Seq<char>;

/// `ssh2::Session::new` followed by `Session::known_hosts`: a collection
/// of known hosts that holds nothing yet. Neither call touches the
/// network or the disk. The error is the text of `ssh2`'s error.
#[verifier::external_body]
fn open_known_hosts() -> (opened: Result<ssh2::KnownHosts, String>)
    ensures
        opened matches Ok(known) ==> known_lines(known).len() == 0 && known_added(known).len()
            == 0,
{
    let session = match ssh2::Session::new() {
        Ok(session) => session,
        Err(e) => return Err(e.to_string()),
    };
    match session.known_hosts() {
        Ok(known) => Ok(known),
        Err(e) => Err(e.to_string()),
    }
}

/// `KnownHosts::read_str` with the OpenSSH file kind: on success the line
/// has been read into the collection. Nothing is claimed of a failure,
/// whose error is the text of `ssh2`'s error.
#[verifier::external_body]
fn read_known_line(known: &mut ssh2::KnownHosts, line: &str) -> (read: Result<(), String>)
    ensures
        read is Ok ==> known_lines(*final(known)) == known_lines(*old(known)).push(line@)
            && known_added(*final(known)) == known_added(*old(known)),
{
    match known.read_str(line, ssh2::KnownHostFileKind::OpenSSH) {
        Ok(()) => Ok(()),
        Err(e) => Err(e.to_string()),
    }
}

/// `KnownHosts::check_port`: the verdict depends on what the collection
/// holds and on the arguments alone. The host must hold no NUL
/// character, on which `ssh2` panics.
#[verifier::external_body]
fn check_known_host(known: &ssh2::KnownHosts, host: &str, port: u16, key: &[u8]) -> (verdict:
    HostKeyCheck)
    requires
        !host@.contains('\0'),
        known_added(*known).len() == 0,
    ensures
        verdict == known_host_verdict(known_lines(*known), host@, port, key@),
{
    match known.check_port(host, port, key) {
        ssh2::CheckResult::Match => HostKeyCheck::Match,
        ssh2::CheckResult::NotFound => HostKeyCheck::NotFound,
        ssh2::CheckResult::Mismatch => HostKeyCheck::Mismatch,
        ssh2::CheckResult::Failure => HostKeyCheck::Failure,
    }
}

/// `KnownHosts::add` with an empty comment: on success the host has been
/// added under its plain name with the raw key and the key format of its
/// algorithm. The error is the text of `ssh2`'s error.
#[verifier::external_body]
fn add_known_host(known: &mut ssh2::KnownHosts, host: &str, key: &[u8], kind: HostKeyKind) -> (added:
    Result<(), String>)
    ensures
        added is Ok ==> known_added(*final(known)) == known_added(*old(known)).push(
            (host@, key@, kind),
        ) && known_lines(*final(known)) == known_lines(*old(known)),
{
    let format = match kind {
        HostKeyKind::Unknown => ssh2::KnownHostKeyFormat::Unknown,
        HostKeyKind::Rsa => ssh2::KnownHostKeyFormat::SshRsa,
        HostKeyKind::Dss => ssh2::KnownHostKeyFormat::SshDss,
        HostKeyKind::Ecdsa256 => ssh2::KnownHostKeyFormat::Ecdsa256,
        HostKeyKind::Ecdsa384 => ssh2::KnownHostKeyFormat::Ecdsa384,
        HostKeyKind::Ecdsa521 => ssh2::KnownHostKeyFormat::Ecdsa521,
        HostKeyKind::Ed25519 => ssh2::KnownHostKeyFormat::Ed25519,
    };
    match known.add(host, key, "", format) {
        Ok(()) => Ok(()),
        Err(e) => Err(e.to_string()),
    }
}

/// `KnownHosts::hosts` followed by `KnownHosts::write_string` on its
/// first entry, with the OpenSSH file kind: in a collection that holds
/// one added host and nothing else, the line that renders that host.
#[verifier::external_body]
fn first_host_line(known: &ssh2::KnownHosts) -> (line: Result<String, String>)
    requires
        known_lines(*known).len() == 0,
        known_added(*known).len() == 1,
    ensures
        line matches Ok(text) ==> text@ == known_host_line(
            known_added(*known)[0].0,
            known_added(*known)[0].1,
            known_added(*known)[0].2,
        ),
{
    let hosts = match known.hosts() {
        Ok(hosts) => hosts,
        Err(e) => return Err(e.to_string()),
    };
    match known.write_string(&hosts[0], ssh2::KnownHostFileKind::OpenSSH) {
        Ok(line) => Ok(line),
        Err(e) => Err(e.to_string()),
    }
}

/// The views of the first `n` lines.
pub open spec fn spec_line_views(lines: Seq<String>, n: int) -> Seq<Seq<char>>
    decreases n,
{
    if n <= 0 {
        Seq::<Seq<char>>::empty()
    } else {
        spec_line_views(lines, n - 1).push(lines[n - 1]@)
    }
}

/// The texts of all lines of a store.
pub open spec fn spec_store_text(lines: Seq<String>) -> Seq<Seq<char>> {
    spec_line_views(lines, lines.len() as int)
}

/// Whether `message` tells that the known hosts could not be consulted:
/// it names the step that failed, setting the collection up or, where
/// there are lines, reading one, and the transport's own words follow.
pub open spec fn spec_check_failure(message: Seq<char>, lines: nat) -> bool {
    occurs_at(message, "Failed to init known hosts: "@, 0) || (lines > 0 && occurs_at(
        message,
        "Failed to read known_hosts file: "@,
        0,
    ))
}

/// Whether `message` tells that a new entry could not be rendered: it
/// names the step that failed, setting a collection up, adding the host
/// or writing the entry, and the transport's own words follow.
pub open spec fn spec_render_failure(message: Seq<char>) -> bool {
    occurs_at(message, "Failed to init known hosts: "@, 0) || occurs_at(
        message,
        "Failed to add host key: "@,
        0,
    ) || occurs_at(message, "Failed to write known_hosts file: "@, 0)
}

/// The verdict of the known hosts in `lines` on `key` for `host` at
/// `port`. Fails where the transport cannot set the collection up or
/// cannot read a line; the message names which of the two it was, and the
/// transport's own words follow.
pub fn check_host_key(lines: &Vec<String>, host: &str, port: u16, key: &[u8]) -> (verdict: Result<
    HostKeyCheck,
    String,
>)
    requires
        !host@.contains('\0'),
    ensures
        verdict matches Ok(v) ==> v == known_host_verdict(spec_store_text(lines@), host@, port, key@),
        verdict matches Err(message) ==> spec_check_failure(message@, lines@.len()),
{
    let mut known = match open_known_hosts() {
        Ok(known) => known,
        Err(e) => {
            proof {
                lemma_begins_with_head("Failed to init known hosts: "@, e@);
            }
            return Err(join2("Failed to init known hosts: ", e.as_str()));
        },
    };
    assert(known_lines(known) =~= spec_line_views(lines@, 0));
    let mut i: usize = 0;
    while i < lines.len()
        invariant
            i <= lines.len(),
            known_lines(known) == spec_line_views(lines@, i as int),
            known_added(known).len() == 0,
        decreases lines.len() - i,
    {
        match read_known_line(&mut known, lines[i].as_str()) {
            Ok(()) => {},
            Err(e) => {
                proof {
                    lemma_begins_with_head("Failed to read known_hosts file: "@, e@);
                }
                return Err(join2("Failed to read known_hosts file: ", e.as_str()));
            },
        }
        i += 1;
    }
    Ok(check_known_host(&known, host, port, key))
}

/// The line under which a trust store records `key` of algorithm `kind`
/// for `host`. Fails where the transport cannot set a collection up, add
/// the host to it or render the entry; the message names which of the
/// three it was, and the transport's own words follow.
pub fn render_host_entry(host: &str, key: &[u8], kind: HostKeyKind) -> (line: Result<String, String>)
    ensures
        line matches Ok(text) ==> text@ == known_host_line(host@, key@, kind),
        line matches Err(message) ==> spec_render_failure(message@),
{
    let mut fresh = match open_known_hosts() {
        Ok(known) => known,
        Err(e) => {
            proof {
                lemma_begins_with_head("Failed to init known hosts: "@, e@);
            }
            return Err(join2("Failed to init known hosts: ", e.as_str()));
        },
    };
    match add_known_host(&mut fresh, host, key, kind) {
        Ok(()) => {},
        Err(e) => {
            proof {
                lemma_begins_with_head("Failed to add host key: "@, e@);
            }
            return Err(join2("Failed to add host key: ", e.as_str()));
        },
    }
    match first_host_line(&fresh) {
        Ok(text) => Ok(text),
        Err(e) => {
            proof {
                lemma_begins_with_head("Failed to write known_hosts file: "@, e@);
            }
            Err(join2("Failed to write known_hosts file: ", e.as_str()))
        },
    }
}

/// What a successful verification asks of the trust store.
pub ghost enum TrustUpdate {
    /// Leave the store as it is.
    Keep,
    /// Append this line.
    Append { line: Seq<char> },
}

/// The text of a fingerprint: its bytes in hexadecimal with colons, or
/// `unknown` where the transport gave none.
pub open spec fn spec_fingerprint_text(fingerprint: Option<Vec<u8>>) -> Seq<char> {
    match fingerprint {
        Some(bytes) => spec_hex_colon(bytes@, bytes@.len() as int),
        None => "unknown"@,
    }
}

/// The message that refuses a host whose key has changed.
pub open spec fn spec_mismatch_message(host: Seq<char>, port: u16, fingerprint: Seq<char>) -> Seq<
    char,
> {
    "Host key verification failed! The remote host identification has changed. This could mean that someone is eavesdropping on you (Man-in-the-Middle attack), or that the host key has legitimately changed. Host: "@
        + host + ":"@ + spec_decimal(port as nat) + " Fingerprint: "@ + fingerprint
        + " Please verify the host key."@
}

/// The outcome of a verification: what to do to the store, or the text
/// of the refusal. `entry` is the rendering of the new entry, or the text
/// of the error that prevented it.
pub open spec fn spec_trust_decision(
    verdict: HostKeyCheck,
    entry: Result<Seq<char>, Seq<char>>,
    host: Seq<char>,
    port: u16,
    fingerprint: Seq<char>,
) -> Result<TrustUpdate, Seq<char>> {
    match verdict {
        HostKeyCheck::Match => Ok(TrustUpdate::Keep),
        HostKeyCheck::NotFound => match entry {
            Ok(line) => Ok(TrustUpdate::Append { line }),
            Err(e) => Err(e),
        },
        HostKeyCheck::Mismatch => Err(spec_mismatch_message(host, port, fingerprint)),
        HostKeyCheck::Failure => Err("Host key verification failed with internal error"@),
    }
}

/// The store after a verification: one line more where the host was
/// trusted on first use, the same lines otherwise.
pub open spec fn spec_store_after(
    store: Seq<Seq<char>>,
    decision: Result<TrustUpdate, Seq<char>>,
) -> Seq<Seq<char>> {
    match decision {
        Ok(TrustUpdate::Append { line }) => store.push(line),
        _ => store,
    }
}

/// A host-key failure with this message.
fn refusal(message: String) -> (e: EstablishError)
    ensures
        e.kind == FailureKind::HostKey,
        e.stage == Stage::VerifyHostKey,
        e.message@ == message@,
{
    EstablishError { kind: FailureKind::HostKey, stage: Stage::VerifyHostKey, message }
}

/// The fingerprint as it is shown; the word `unknown` where there is none.
fn fingerprint_text(fingerprint: &Option<Vec<u8>>) -> (text: String)
    ensures
        text@ == spec_fingerprint_text(*fingerprint),
{
    match fingerprint {
        Some(bytes) => hex_colon(bytes),
        None => {
            let mut text = String::new();
            text.append("unknown");
            assert(text@ =~= "unknown"@);
            text
        },
    }
}

/// The message for a host whose key differs from the stored one.
fn mismatch_message(host: &str, port: u16, fingerprint: &str) -> (message: String)
    ensures
        message@ == spec_mismatch_message(host@, port, fingerprint@),
{
    let mut message = String::new();
    message.append(
        "Host key verification failed! The remote host identification has changed. This could mean that someone is eavesdropping on you (Man-in-the-Middle attack), or that the host key has legitimately changed. Host: ",
    );
    message.append(host);
    message.append(":");
    let port_text = decimal(port as u64);
    message.append(port_text.as_str());
    message.append(" Fingerprint: ");
    message.append(fingerprint);
    message.append(" Please verify the host key.");
    assert(message@ =~= spec_mismatch_message(host@, port, fingerprint@));
    message
}

/// Decides on a host from the verdict of the known hosts. `entry` is the
/// rendering of the host's new entry, asked for only where the host is
/// not known. Returns the line to append to the store, if any.
///
/// A known key gives `Ok(None)`. An unknown host gives the new line, or
/// the error that prevented its rendering. A changed key is refused with
/// a message that names the host, its port and the key's fingerprint.
pub fn trust_decision(
    verdict: HostKeyCheck,
    entry: Result<String, String>,
    host: &str,
    port: u16,
    fingerprint: &Option<Vec<u8>>,
) -> (decision: Result<Option<String>, EstablishError>)
    ensures
        match spec_trust_decision(
            verdict,
            match entry {
                Ok(l) => Ok(l@),
                Err(e) => Err(e@),
            },
            host@,
            port,
            spec_fingerprint_text(*fingerprint),
        ) {
            Ok(TrustUpdate::Keep) => decision matches Ok(None),
            Ok(TrustUpdate::Append { line }) => decision matches Ok(Some(l)) && l@ == line,
            Err(message) => decision matches Err(e) && e.kind == FailureKind::HostKey && e.stage
                == Stage::VerifyHostKey && e.message@ == message,
        },
{
    match verdict {
        HostKeyCheck::Match => Ok(None),
        HostKeyCheck::NotFound => match entry {
            Ok(line) => Ok(Some(line)),
            Err(e) => Err(refusal(e)),
        },
        HostKeyCheck::Mismatch => {
            let print = fingerprint_text(fingerprint);
            Err(refusal(mismatch_message(host, port, print.as_str())))
        },
        HostKeyCheck::Failure => {
            let mut message = String::new();
            message.append("Host key verification failed with internal error");
            assert(message@ =~= "Host key verification failed with internal error"@);
            Err(refusal(message))
        },
    }
}

/// The lines of a trust store.
pub struct TrustStore {
    pub lines: Vec<String>,
}

impl TrustStore {
    /// A store with the given lines.
    pub fn new(lines: Vec<String>) -> (store: Self)
        ensures
            store.lines == lines,
    {
        TrustStore { lines }
    }

    /// Verifies the identity a host presented, trusting it on first use.
    ///
    /// Returns whether a line was appended to the store; the caller then
    /// appends that line, the last of `lines`, to the file. On a known key
    /// nothing is appended. A changed key, or a check that cannot be
    /// made, is an error of the host-key class and leaves the store as it
    /// was. The message of a changed key names the host, its port and
    /// the key's fingerprint; any other message names the step that
    /// failed.
    pub fn verify_host_key(
        &mut self,
        host: &str,
        port: u16,
        key: &[u8],
        kind: HostKeyKind,
        fingerprint: &Option<Vec<u8>>,
    ) -> (verified: Result<bool, EstablishError>)
        requires
            !host@.contains('\0'),
        ensures
            verified matches Ok(false) ==> {
                &&& known_host_verdict(spec_store_text(old(self).lines@), host@, port, key@)
                    == HostKeyCheck::Match
                &&& final(self).lines@ == old(self).lines@
            },
            verified matches Ok(true) ==> {
                &&& known_host_verdict(spec_store_text(old(self).lines@), host@, port, key@)
                    == HostKeyCheck::NotFound
                &&& final(self).lines@.len() == old(self).lines@.len() + 1
                &&& final(self).lines@.drop_last() == old(self).lines@
                &&& final(self).lines@.last()@ == known_host_line(host@, key@, kind)
            },
            verified matches Err(e) ==> {
                let verdict = known_host_verdict(
                    spec_store_text(old(self).lines@),
                    host@,
                    port,
                    key@,
                );
                &&& final(self).lines@ == old(self).lines@
                &&& e.kind == FailureKind::HostKey
                &&& e.stage == Stage::VerifyHostKey
                &&& ({
                    ||| spec_check_failure(e.message@, old(self).lines@.len())
                    ||| verdict == HostKeyCheck::NotFound && spec_render_failure(e.message@)
                    ||| verdict == HostKeyCheck::Mismatch && e.message@ == spec_mismatch_message(
                        host@,
                        port,
                        spec_fingerprint_text(*fingerprint),
                    )
                    ||| verdict == HostKeyCheck::Failure && e.message@
                        == "Host key verification failed with internal error"@
                })
            },
            known_host_verdict(spec_store_text(old(self).lines@), host@, port, key@)
                == HostKeyCheck::Mismatch ==> verified is Err,
            known_host_verdict(spec_store_text(old(self).lines@), host@, port, key@)
                == HostKeyCheck::Failure ==> verified is Err,
    {
        let verdict = match check_host_key(&self.lines, host, port, key) {
            Ok(v) => v,
            Err(e) => return Err(refusal(e)),
        };
        let entry = match verdict {
            HostKeyCheck::NotFound => render_host_entry(host, key, kind),
            _ => Err(String::new()),
        };
        match trust_decision(verdict, entry, host, port, fingerprint) {
            Ok(Some(line)) => {
                self.lines.push(line);
                assert(self.lines@.drop_last() =~= old(self).lines@);
                Ok(true)
            },
            Ok(None) => Ok(false),
            Err(e) => Err(e),
        }
    }
}

/// First contact appends exactly one entry and leaves every earlier line
/// as it was; a known key appends nothing and succeeds; a changed key is
/// refused and appends nothing.
pub proof fn lemma_trust_on_first_use(
    store: Seq<Seq<char>>,
    verdict: HostKeyCheck,
    line: Seq<char>,
    host: Seq<char>,
    port: u16,
    fingerprint: Seq<char>,
)
    ensures
        verdict == HostKeyCheck::NotFound ==> {
            let after = spec_store_after(
                store,
                spec_trust_decision(verdict, Ok(line), host, port, fingerprint),
            );
            &&& spec_trust_decision(verdict, Ok(line), host, port, fingerprint) is Ok
            &&& after.len() == store.len() + 1
            &&& after.drop_last() == store
            &&& after.last() == line
        },
        verdict == HostKeyCheck::Match ==> {
            &&& spec_trust_decision(verdict, Ok(line), host, port, fingerprint) is Ok
            &&& spec_store_after(
                store,
                spec_trust_decision(verdict, Ok(line), host, port, fingerprint),
            ) == store
        },
        verdict == HostKeyCheck::Mismatch ==> {
            &&& spec_trust_decision(verdict, Ok(line), host, port, fingerprint) is Err
            &&& spec_store_after(
                store,
                spec_trust_decision(verdict, Ok(line), host, port, fingerprint),
            ) == store
        },
{
    if verdict == HostKeyCheck::NotFound {
        assert(store.push(line).drop_last() =~= store);
    }
}

} // verus!
