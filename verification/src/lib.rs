//! Request handling rules of an audio hosting service: input validation,
//! access decisions, object naming, identity-provider exchanges and token
//! checks, stated over plain values so that the transport layer only moves
//! bytes in and out.

pub mod audio;
pub mod auth;
pub mod error;
pub mod keycloak;
pub mod oauth;
pub mod storage;
pub mod text;
pub mod upload;
