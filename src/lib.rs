//! Authentication and authorization core of a small user-account service:
//! the error taxonomy, the response envelope, signed session tokens, the
//! request gates and the login / registration decisions.

pub mod error;
pub mod http;
pub mod text;
pub mod claims;
pub mod encoding;
pub mod jwt;
pub mod authentication;
pub mod permission;
pub mod response;
pub mod user;
pub mod auth_service;
pub mod user_service;
pub mod validate;
