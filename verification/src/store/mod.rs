pub mod default_pass_store;
