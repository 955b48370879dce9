pub mod config;
pub mod flows;
pub mod fresh;
pub mod laws;
pub mod login;
pub mod secret;
pub mod store;
pub mod text;
pub mod tokens;
