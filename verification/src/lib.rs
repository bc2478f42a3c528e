//! A multi-tenant document store core: password-based authentication issuing
//! signed, time-bounded session tokens; a request-time token-validation check;
//! ownership-scoped file and folder metadata; and the path derivation that
//! keys the content store.

pub mod api;
pub mod auth_service;
pub mod db;
pub mod dto;
pub mod error;
pub mod file_store;
pub mod files_service;
pub mod folders_service;
pub mod ids;
pub mod numeral;
pub mod password;
pub mod path;
pub mod token;
