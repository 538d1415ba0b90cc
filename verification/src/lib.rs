pub mod auth;
pub mod client;
pub mod establish;
pub mod listing;
pub mod manager;
pub mod models;
pub mod pool;
pub mod records;
pub mod remote;
pub mod resume;
pub mod retry;
pub mod session;
pub mod system;
pub mod text;
pub mod transfer;
pub mod tree;
pub mod trust;
pub mod tunnel;
pub mod wsl;
