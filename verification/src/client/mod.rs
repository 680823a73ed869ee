pub mod sm;
pub mod sts;
