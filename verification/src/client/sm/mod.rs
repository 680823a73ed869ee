pub mod default_sm_client;
pub mod sm_client;
