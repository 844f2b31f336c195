pub mod config;
pub mod validator;
pub mod state;
pub mod laws;
pub mod stats;
