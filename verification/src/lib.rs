//! Stateless token authentication: password hashing, signed access and
//! refresh tokens, and the decisions of the request middleware.

pub mod error;
pub mod claims;
pub mod handlers;
pub mod hash;
pub mod ident;
pub mod issuer;
pub mod jwt;
pub mod middleware;
pub mod payload;
pub mod schema;
pub mod text;
