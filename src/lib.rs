pub mod config;
pub mod jwt;
pub mod laws;
pub mod session;
pub mod store;
pub mod text;
pub mod token;
