//! Deciding what a request to connect amounts to.

use crate::models::Connection;
use crate::models::SshKey;
use crate::text::decimal_signed;
use crate::text::join2;
use crate::text::join3;
use crate::text::occurs_at;
use crate::text::same_text;
use crate::text::spec_decimal_signed;
use crate::text::spec_strip_prefixes;
use crate::text::starts_with;
use crate::text::strip_prefixes;
use vstd::prelude::*;

verus! {

/// What kind of target a host names.
#[derive(Debug, Clone)]
pub enum ClientType {
    /// A remote host, reached through the dispatcher of its connection.
    Ssh,
    /// A local Linux distribution, by its name.
    Wsl(String),
}

/// The kind of target: a host that begins with `wsl://` names the
/// local distribution behind that prefix, any other a remote host.
pub fn client_type(host: &str) -> (kind: ClientType)
    ensures
        occurs_at(host@, "wsl://"@, 0) ==> (kind matches ClientType::Wsl(distro) && distro@
            == spec_strip_prefixes(host@, "wsl://"@)),
        !occurs_at(host@, "wsl://"@, 0) ==> kind is Ssh,
{
    if starts_with(host, "wsl://") {
        ClientType::Wsl(strip_prefixes(host, "wsl://"))
    } else {
        ClientType::Ssh
    }
}

/// The operating system to assume for a target: the one the
/// configuration names, or Linux.
pub fn os_info(config: &Connection) -> (os: String)
    ensures
        os@ == (match config.os_type {
            Some(os) => os@,
            None => "Linux"@,
        }),
{
    match &config.os_type {
        Some(os) => os.clone(),
        None => {
            let mut os = String::new();
            os.append("Linux");
            assert(os@ =~= "Linux"@);
            os
        },
    }
}

/// The operating system to report for a connection: the one recorded,
/// or `Unknown`.
pub fn get_os_info(recorded: &Option<String>) -> (os: String)
    ensures
        os@ == (match *recorded {
            Some(os) => os@,
            None => "Unknown"@,
        }),
{
    match recorded {
        Some(os) => os.clone(),
        None => {
            let mut os = String::new();
            os.append("Unknown");
            assert(os@ =~= "Unknown"@);
            os
        },
    }
}

/// What looking a key up in the store gave.
#[derive(Debug, Clone)]
pub enum KeyLookup {
    /// The configuration names no key, so none was looked up.
    NotAsked,
    Found(SshKey),
    Missing,
    /// The store failed, with the text of its error.
    Failed(String),
}

/// The key that is to be looked up before a connection is made: the one
/// the configuration names, where it asks for key authentication.
pub fn key_to_look_up(config: &Connection) -> (id: Option<i64>)
    ensures
        id == (if config.auth_type matches Some(t) && t@ == "key"@ {
            config.ssh_key_id
        } else {
            None
        }),
{
    let wants = match &config.auth_type {
        Some(t) => same_text(t.as_str(), "key"),
        None => false,
    };
    if wants {
        config.ssh_key_id
    } else {
        None
    }
}

/// Why a key could not be filled in, if it could not.
pub open spec fn spec_key_refusal(
    config: Connection,
    lookup: KeyLookup,
    strict: bool,
) -> Option<Seq<char>> {
    if !(config.auth_type matches Some(t) && t@ == "key"@) {
        None
    } else {
        match config.ssh_key_id {
            None => if strict {
                Some("SSH Key ID is missing needed for key authentication"@)
            } else {
                None
            },
            Some(id) => match lookup {
                KeyLookup::Found(_) => None,
                KeyLookup::Failed(e) => Some("Failed to fetch SSH Key: "@ + e@),
                _ => Some(
                    "SSH Key with ID "@ + spec_decimal_signed(id as int) + (if strict {
                        " not found"@
                    } else {
                        " not found in database"@
                    }),
                ),
            },
        }
    }
}

/// Fills the stored key into a configuration that asks for key
/// authentication. A test of a connection is strict: it refuses a
/// configuration that names no key. A configuration that asks for a
/// password is left as it is.
pub fn populate_key(config: &mut Connection, lookup: KeyLookup, strict: bool) -> (filled: Result<
    (),
    String,
>)
    ensures
        match spec_key_refusal(*old(config), lookup, strict) {
            Some(message) => (filled matches Err(e) && e@ == message) && *final(config) == *old(
                config,
            ),
            None => filled is Ok && (if (old(config).auth_type matches Some(t) && t@ == "key"@)
                && old(config).ssh_key_id is Some {
                lookup matches KeyLookup::Found(key) && *final(config) == (Connection {
                    key_content: Some(key.content),
                    key_passphrase: key.passphrase,
                    ..*old(config)
                })
            } else {
                *final(config) == *old(config)
            }),
        },
{
    let id = match key_to_look_up(config) {
        Some(id) => id,
        None => {
            let wants = match &config.auth_type {
                Some(t) => same_text(t.as_str(), "key"),
                None => false,
            };
            if wants && strict {
                let mut m = String::new();
                m.append("SSH Key ID is missing needed for key authentication");
                assert(m@ =~= "SSH Key ID is missing needed for key authentication"@);
                return Err(m);
            }
            return Ok(());
        },
    };
    match lookup {
        KeyLookup::Found(key) => {
            config.key_content = Some(key.content);
            config.key_passphrase = key.passphrase;
            Ok(())
        },
        KeyLookup::Failed(e) => Err(join2("Failed to fetch SSH Key: ", e.as_str())),
        _ => {
            let number = decimal_signed(id);
            if strict {
                Err(join3("SSH Key with ID ", number.as_str(), " not found"))
            } else {
                Err(join3("SSH Key with ID ", number.as_str(), " not found in database"))
            }
        },
    }
}

/// The greeting for a name.
pub fn greet(name: &str) -> (greeting: String)
    ensures
        greeting@ == "Hello, "@ + name@ + "! You've been greeted from Rust!"@,
{
    join3("Hello, ", name, "! You've been greeted from Rust!")
}

} // verus!
