//! JWT authentication for the RustBasic framework: token claims, signing and
//! validation settings, the blacklist decisions behind logout and refresh, the
//! bearer-token check of the request middleware, the schema migrations the
//! package installs, and the scaffolding it writes into a project.

pub mod text;
pub mod config;
pub mod json;
pub mod claims;
pub mod token;
pub mod service;
pub mod middleware;
pub mod migrations;
pub mod scaffold;

pub use claims::Claims;
pub use service::JwtService;
