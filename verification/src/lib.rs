//! Credential validation and password authentication for a small web backend.
//!
//! A submission is validated field by field (`rules`, `email`, `models`), its
//! email is held against what the user store answers (`store`), and its
//! password is hashed or verified (`hasher`). The two processors, `registration`
//! and `login`, lead a submission through these gates one step at a time; the
//! caller asks the store and hands the answers back. `errors` and `messages`
//! say what went wrong, `forms`, `responses` and `routes` what the caller is
//! shown, and `laws` what holds of all of it together.

pub mod email;
pub mod errors;
pub mod forms;
pub mod hasher;
pub mod laws;
pub mod login;
pub mod messages;
pub mod models;
pub mod registration;
pub mod responses;
pub mod routes;
pub mod rules;
pub mod store;
