pub mod init;
pub mod insert;
pub mod show;
