//! User accounts: field validation, credential hashing and the planning of
//! storage statements for a user entity.

pub mod credentials;
pub mod identity;
pub mod persistence;
pub mod profile;
pub mod text;
pub mod users;
pub mod validation;
