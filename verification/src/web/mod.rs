//! Web-layer rules: the request context extracted from cookies and paths,
//! and the mapping of server errors to client errors.

pub mod error;
pub mod login;
pub mod mw_auth;
pub mod routes_login;
