pub mod engine;
pub mod exit;
pub mod instance;
pub mod lease;
pub mod lifecycle;
pub mod notify;
pub mod rootdir;
