pub mod local_pass_dao;
pub mod pass_dao;
pub mod sm_pass_dao;
