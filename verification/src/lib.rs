//! The verified core of a password store whose secrets live in a remote
//! secret manager and whose calls are signed with short-lived, MFA-gated
//! session credentials.
//!
//! Nothing here reaches the network, the terminal or the file system.
//! Every exchange with the secret manager, the token service, the operator
//! or a file is split into the value that is sent and a function that
//! takes what came back, so that each decision of the store has a
//! contract. The program around the library performs the exchanges.

pub mod client;
pub mod creds;
pub mod dao;
pub mod store;
pub mod subcommands;
pub mod util;
