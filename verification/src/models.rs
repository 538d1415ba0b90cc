//! Plain records exchanged with the persistence layer and the user
//! interface.

use vstd::prelude::*;

verus! {

/// A stored private key.
#[derive(Debug, Clone)]
pub struct SshKey {
    pub id: Option<i64>,
    pub name: String,
    pub content: String,
    pub passphrase: Option<String>,
    pub created_at: i64,
}

/// The description of one target host: where it is, who logs in and how,
/// and the optional bastion in front of it.
#[derive(Debug, Clone)]
pub struct Connection {
    pub id: Option<i64>,
    pub name: String,
    pub host: String,
    pub port: u16,
    pub username: String,
    pub password: Option<String>,
    /// `"password"` or `"key"`; absent means password.
    pub auth_type: Option<String>,
    pub ssh_key_id: Option<i64>,
    pub jump_host: Option<String>,
    pub jump_port: Option<u16>,
    pub jump_username: Option<String>,
    pub jump_password: Option<String>,
    pub group_id: Option<i64>,
    /// Operating system of the target; absent means Linux.
    pub os_type: Option<String>,
    /// Private key material, filled in just before a connection is made.
    pub key_content: Option<String>,
    pub key_passphrase: Option<String>,
}

#[derive(Debug, Clone)]
pub struct ConnectionGroup {
    pub id: Option<i64>,
    pub name: String,
    pub parent_id: Option<i64>,
}

/// One entry of a remote directory listing.
#[derive(Debug, Clone)]
pub struct FileEntry {
    pub name: String,
    pub is_dir: bool,
    pub size: u64,
    /// Seconds since the Unix epoch.
    pub mtime: i64,
    pub permissions: u32,
    pub uid: u32,
    pub owner: String,
}

#[derive(Debug, Clone)]
pub struct AIConfig {
    pub api_url: String,
    pub api_key: String,
    pub model_name: String,
}

#[derive(Debug, Clone)]
pub struct FileManagerSettings {
    pub view_mode: String,
    /// Transfer buffer size in KiB.
    pub sftp_buffer_size: i32,
}

#[derive(Debug, Clone)]
pub struct SshPoolSettings {
    pub max_background_sessions: i32,
    pub enable_auto_cleanup: bool,
    pub cleanup_interval_minutes: i32,
}

/// The record of one file transfer.
#[derive(Debug, Clone)]
pub struct Transfer {
    pub id: String,
    pub session_id: String,
    pub name: String,
    pub local_path: String,
    pub remote_path: String,
    /// `"upload"` or `"download"`.
    pub transfer_type: String,
    /// `"pending"`, `"running"`, `"completed"`, `"error"` or `"cancelled"`.
    pub status: String,
    pub total_size: u64,
    pub transferred: u64,
    /// Milliseconds since the Unix epoch.
    pub created_at: i64,
    pub error: Option<String>,
}

/// A message to or from the interactive shell.
#[derive(Debug, Clone)]
pub enum ShellMsg {
    Data(Vec<u8>),
    Resize { rows: u16, cols: u16 },
    Exit,
}

/// One progress event of a transfer.
#[derive(Debug, Clone)]
pub struct ProgressPayload {
    pub id: String,
    pub transferred: u64,
    pub total: u64,
}

#[derive(Debug, Clone)]
pub struct DiskInfo {
    pub size: String,
    pub used: String,
    pub avail: String,
    pub percent: String,
    pub mount: String,
    pub filesystem: String,
}

#[derive(Debug, Clone)]
pub struct ProcessInfo {
    pub pid: String,
    pub command: String,
    pub cpu: String,
    pub memory: String,
    pub memory_percent: String,
}

#[derive(Debug, Clone)]
pub struct CpuInfo {
    pub usage: String,
    pub top_processes: Vec<ProcessInfo>,
}

#[derive(Debug, Clone)]
pub struct MemoryInfo {
    pub usage: String,
    pub total: String,
    pub used: String,
    pub available: String,
    pub top_processes: Vec<ProcessInfo>,
}

#[derive(Debug, Clone)]
pub struct SessionStats {
    pub uptime: String,
    pub disk: Option<DiskInfo>,
    pub mounts: Vec<DiskInfo>,
    pub ip: String,
    pub cpu: Option<CpuInfo>,
    pub memory: Option<MemoryInfo>,
}

/// Number of background sessions a pool may hold when the settings give
/// no usable value.
pub const DEFAULT_MAX_BACKGROUND_SESSIONS: usize = 3;

/// Transfer buffer size in bytes when the settings give no value.
pub const DEFAULT_SFTP_BUFFER_BYTES: usize = 524288;

/// The capacity a pool gets: the configured value, or the fallback where
/// no settings could be read or the value is negative.
pub open spec fn spec_pool_capacity(settings: Option<SshPoolSettings>) -> nat {
    match settings {
        Some(s) => if s.max_background_sessions >= 0 {
            s.max_background_sessions as nat
        } else {
            DEFAULT_MAX_BACKGROUND_SESSIONS as nat
        },
        None => DEFAULT_MAX_BACKGROUND_SESSIONS as nat,
    }
}

/// The number of background sessions that the settings allow.
pub fn pool_capacity(settings: Option<&SshPoolSettings>) -> (capacity: usize)
    ensures
        capacity == spec_pool_capacity(
            match settings {
                Some(s) => Some(*s),
                None => None,
            },
        ),
{
    match settings {
        Some(s) => if s.max_background_sessions >= 0 {
            s.max_background_sessions as usize
        } else {
            DEFAULT_MAX_BACKGROUND_SESSIONS
        },
        None => DEFAULT_MAX_BACKGROUND_SESSIONS,
    }
}

/// Whether the configured buffer size can be turned into a byte count.
pub open spec fn spec_buffer_size_usable(settings: FileManagerSettings) -> bool {
    0 <= settings.sftp_buffer_size <= 2097151
}

/// The transfer buffer size in bytes: the configured number of KiB, or
/// 512 KiB where no settings could be read.
pub fn get_sftp_buffer_size(settings: Option<&FileManagerSettings>) -> (bytes: usize)
    requires
        settings matches Some(s) ==> spec_buffer_size_usable(*s),
    ensures
        settings matches Some(s) ==> bytes == s.sftp_buffer_size * 1024,
        settings is None ==> bytes == DEFAULT_SFTP_BUFFER_BYTES,
{
    match settings {
        Some(s) => (s.sftp_buffer_size * 1024) as usize,
        None => DEFAULT_SFTP_BUFFER_BYTES,
    }
}

} // verus!
