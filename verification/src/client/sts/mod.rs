pub mod default_sts_client;
pub mod sts_client;
