//! Core of a small quotation service: password hashing, JWT issuance and
//! verification, role-based authorization, and the registration and login
//! flows over a credential store.
//!
//! Everything here is verified; calls into the outside crates (bcrypt,
//! jsonwebtoken) stand behind trusted wrappers whose contracts name what
//! those crates compute.

pub mod errors;
pub mod models;
pub mod service;
pub mod store;
pub mod token;
pub mod numbers;
pub mod password;
pub mod text;
