//! Choosing how to authenticate to the target.
//!
//! A configuration asks for a password or for a key. Key authentication
//! needs the public key beside the private one; it is derived from the
//! private key by `ssh_key`. Both keys are handed to the transport in
//! transient files, which are removed whatever the outcome.

use crate::establish::text_or_empty;
use crate::establish::EstablishError;
use crate::establish::FailureKind;
use crate::establish::Stage;
use crate::models::Connection;
use crate::text::contains;
use crate::text::has_substring;
use crate::text::join2;
use crate::text::join3;
use crate::text::same_text;
use vstd::prelude::*;

verus! {

/// The public key, in OpenSSH format, of the private key that `private`
/// spells in OpenSSH format, or the text of the error that `ssh_key`
/// gives for it.
pub uninterp spec fn derived_public_key(private: Seq<char>) -> Result<Seq<char>, Seq<char>>;

/// `ssh_key::PrivateKey::from_openssh`, then `PrivateKey::public_key`
/// and `PublicKey::to_openssh`: the result depends on the text of the
/// private key alone. The error is the text of `ssh_key`'s error.
#[verifier::external_body]
fn derive_public_key(private: &str) -> (derived: Result<String, String>)
    ensures
        match derived {
            Ok(public) => derived_public_key(private@) == Ok::<Seq<char>, Seq<char>>(public@),
            Err(e) => derived_public_key(private@) == Err::<Seq<char>, Seq<char>>(e@),
        },
{
    let key = match ssh_key::PrivateKey::from_openssh(private) {
        Ok(key) => key,
        Err(e) => return Err(e.to_string()),
    };
    match key.public_key().to_openssh() {
        Ok(public) => Ok(public),
        Err(e) => Err(e.to_string()),
    }
}

/// `uuid::Uuid::new_v4` in its hyphenated text form: a random tag, of
/// which only the length is known, 36 characters.
#[verifier::external_body]
fn random_tag() -> (tag: String)
    ensures
        tag@.len() == 36,
{
    uuid::Uuid::new_v4().to_string()
}

/// How to authenticate.
#[derive(Debug, Clone)]
pub enum AuthPlan {
    Password { username: String, password: String },
    PublicKey { username: String, private_key: String, public_key: String, passphrase: Option<String> },
}

/// An authentication plan as a mathematical value.
pub ghost enum AuthModel {
    Password { username: Seq<char>, password: Seq<char> },
    PublicKey {
        username: Seq<char>,
        private_key: Seq<char>,
        public_key: Seq<char>,
        passphrase: Option<Seq<char>>,
    },
}

impl View for AuthPlan {
    type V = AuthModel;

    open spec fn view(&self) -> AuthModel {
        match *self {
            AuthPlan::Password { username, password } => AuthModel::Password {
                username: username@,
                password: password@,
            },
            AuthPlan::PublicKey { username, private_key, public_key, passphrase } =>
                AuthModel::PublicKey {
                username: username@,
                private_key: private_key@,
                public_key: public_key@,
                passphrase: match passphrase {
                    Some(p) => Some(p@),
                    None => None,
                },
            },
        }
    }
}

/// Whether the configuration asks for key authentication.
pub open spec fn spec_wants_key(config: Connection) -> bool {
    config.auth_type matches Some(t) && t@ == "key"@
}

/// What is said of a key in the PuTTY format, which is not accepted.
pub open spec fn spec_ppk_message() -> Seq<char> {
    "Putty (PPK) format is not supported. Please convert your private key to OpenSSH format (PEM) using PuTTYgen or ssh-keygen."@
}

/// The plan for a configuration, or the message of the refusal.
/// `derived` is what the derivation of the public key gave.
pub open spec fn spec_auth(config: Connection, derived: Result<Seq<char>, Seq<char>>) -> Result<
    AuthModel,
    Seq<char>,
> {
    if !spec_wants_key(config) {
        Ok(
            AuthModel::Password {
                username: config.username@,
                password: match config.password {
                    Some(p) => p@,
                    None => Seq::<char>::empty(),
                },
            },
        )
    } else {
        match config.key_content {
            None => Err("Auth type is 'key' but no key content provided"@),
            Some(key) => if has_substring(key@, "PuTTY-User-Key-File"@) {
                Err(spec_ppk_message())
            } else {
                match derived {
                    Err(e) => Err(
                        "Failed to parse private key. Ensure it is in OpenSSH format. Details: "@
                            + e,
                    ),
                    Ok(public) => Ok(
                        AuthModel::PublicKey {
                            username: config.username@,
                            private_key: key@,
                            public_key: public,
                            passphrase: match config.key_passphrase {
                                Some(p) => Some(p@),
                                None => None,
                            },
                        },
                    ),
                }
            },
        }
    }
}

/// An authentication failure with this message.
fn refusal(message: String) -> (e: EstablishError)
    ensures
        e.kind == FailureKind::Authentication,
        e.stage == Stage::Authenticate,
        e.message@ == message@,
{
    EstablishError { kind: FailureKind::Authentication, stage: Stage::Authenticate, message }
}

/// The text as an owned string.
fn literal(text: &str) -> (out: String)
    ensures
        out@ == text@,
{
    let mut out = String::new();
    out.append(text);
    assert(out@ =~= text@);
    out
}

/// Whether the configuration asks for key authentication.
pub fn wants_key(config: &Connection) -> (yes: bool)
    ensures
        yes == spec_wants_key(*config),
{
    match &config.auth_type {
        Some(t) => same_text(t.as_str(), "key"),
        None => false,
    }
}

/// The plan for a configuration, given what the derivation of the
/// public key gave. The derivation matters only where the
/// configuration asks for a key, holds one, and the key is not in PPK
/// format.
pub fn plan_auth_with(config: &Connection, derived: Result<String, String>) -> (plan: Result<
    AuthPlan,
    EstablishError,
>)
    ensures
        match spec_auth(
            *config,
            match derived {
                Ok(p) => Ok(p@),
                Err(e) => Err(e@),
            },
        ) {
            Ok(model) => plan matches Ok(p) && p@ == model,
            Err(message) => plan matches Err(e) && e.kind == FailureKind::Authentication
                && e.stage == Stage::Authenticate && e.message@ == message,
        },
{
    if !wants_key(config) {
        return Ok(
            AuthPlan::Password {
                username: config.username.clone(),
                password: text_or_empty(&config.password),
            },
        );
    }
    match &config.key_content {
        None => Err(refusal(literal("Auth type is 'key' but no key content provided"))),
        Some(key) => {
            if contains(key.as_str(), "PuTTY-User-Key-File") {
                return Err(
                    refusal(
                        literal(
                            "Putty (PPK) format is not supported. Please convert your private key to OpenSSH format (PEM) using PuTTYgen or ssh-keygen.",
                        ),
                    ),
                );
            }
            match derived {
                Err(e) => Err(
                    refusal(
                        join2(
                            "Failed to parse private key. Ensure it is in OpenSSH format. Details: ",
                            e.as_str(),
                        ),
                    ),
                ),
                Ok(public) => Ok(
                    AuthPlan::PublicKey {
                        username: config.username.clone(),
                        private_key: key.clone(),
                        public_key: public,
                        passphrase: match &config.key_passphrase {
                            Some(p) => Some(p.clone()),
                            None => None,
                        },
                    },
                ),
            }
        },
    }
}

/// The plan for a configuration: a password, or the key with the public
/// key derived from it.
pub fn plan_auth(config: &Connection) -> (plan: Result<AuthPlan, EstablishError>)
    ensures
        match spec_auth(
            *config,
            match config.key_content {
                Some(key) => derived_public_key(key@),
                None => Err(Seq::<char>::empty()),
            },
        ) {
            Ok(model) => plan matches Ok(p) && p@ == model,
            Err(message) => plan matches Err(e) && e.kind == FailureKind::Authentication
                && e.stage == Stage::Authenticate && e.message@ == message,
        },
{
    let derived = match &config.key_content {
        Some(key) => derive_public_key(key.as_str()),
        None => Err(String::new()),
    };
    plan_auth_with(config, derived)
}

/// The message of a refused authentication: which method failed, what
/// the transport said, and for a key what to check.
pub open spec fn spec_auth_failure(plan: AuthModel, detail: Seq<char>) -> Seq<char> {
    match plan {
        AuthModel::Password { .. } => "Password authentication failed: "@ + detail,
        AuthModel::PublicKey { passphrase, .. } => if passphrase is Some {
            "Key authentication failed: "@ + detail
                + ". Hint: Verify your passphrase is correct."@
        } else {
            "Key authentication failed: "@ + detail
                + ". Hint: Ensure the public key is added to the server's ~/.ssh/authorized_keys."@
        },
    }
}

/// The message for a refusal by the host under this plan: the detail, with a
/// hint where a hint helps.
pub fn auth_failure_message(plan: &AuthPlan, detail: &str) -> (message: String)
    ensures
        message@ == spec_auth_failure(plan@, detail@),
{
    match plan {
        AuthPlan::Password { .. } => join2("Password authentication failed: ", detail),
        AuthPlan::PublicKey { passphrase, .. } => match passphrase {
            Some(_) => join3(
                "Key authentication failed: ",
                detail,
                ". Hint: Verify your passphrase is correct.",
            ),
            None => join3(
                "Key authentication failed: ",
                detail,
                ". Hint: Ensure the public key is added to the server's ~/.ssh/authorized_keys.",
            ),
        },
    }
}

/// The names of the transient files of a key under `tag`: the private
/// key and the public key.
pub fn key_file_names_for(tag: &str) -> (names: (String, String))
    ensures
        names.0@ == "ssh_key_"@ + tag@,
        names.1@ == "ssh_key_"@ + tag@ + ".pub"@,
{
    (join2("ssh_key_", tag), join3("ssh_key_", tag, ".pub"))
}

/// Fresh names for the transient files of a key: a private and a public
/// file that share a random tag of 36 characters.
pub fn key_file_names() -> (names: (String, String))
    ensures
        names.1@ == names.0@ + ".pub"@,
        names.0@.len() == 8 + 36,
        names.0@.subrange(0, 8) == "ssh_key_"@,
{
    let tag = random_tag();
    let names = key_file_names_for(tag.as_str());
    proof {
        reveal_strlit("ssh_key_");
        assert(names.0@.subrange(0, 8) =~= "ssh_key_"@);
    }
    names
}

/// How far key authentication got with its transient files.
#[derive(Clone, Copy, Debug, PartialEq, Eq, Structural)]
pub enum KeyFilesState {
    /// Nothing was written.
    Nothing,
    /// The private key file was written.
    PrivateWritten,
    /// Both files were written; authentication may have been tried.
    BothWritten,
}

/// Which transient files are to be removed, private first, before key
/// authentication returns, with success or without: every file that was
/// written.
pub fn key_files_to_remove(state: KeyFilesState) -> (remove: (bool, bool))
    ensures
        remove.0 == (state != KeyFilesState::Nothing),
        remove.1 == (state == KeyFilesState::BothWritten),
{
    match state {
        KeyFilesState::Nothing => (false, false),
        KeyFilesState::PrivateWritten => (true, false),
        KeyFilesState::BothWritten => (true, true),
    }
}

} // verus!
