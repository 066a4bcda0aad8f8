//! Core logic of the Rainbeam social network: account models, permissions,
//! token scopes, relationship and market rules, profile layouts, metadata
//! sanitising, the Citrus federation identifiers and the CarpGraph drawing
//! format.
pub mod text;
pub mod permissions;
pub mod kv;
pub mod layout;
pub mod model;
pub mod carp;
pub mod citrus;
pub mod pages;
pub mod circles;
pub mod blog;
pub mod tokens;
pub mod database;
pub mod general;
pub mod profile_view;
pub mod access;
pub mod session;
pub mod images;
