//! Verified core of the school back end: user roles, response envelopes,
//! configuration, bearer-token checks, password and token handling, and the
//! decision logic of the login, registration, profile and avatar flows.
//! The HTTP server, the database and the outbound HTTP calls live outside
//! this crate and drive the flows defined here.

pub mod text;
pub mod role;
pub mod decimal;
pub mod api_response;
pub mod config;
pub mod clock;
pub mod ids;
pub mod entity;
pub mod models;
pub mod password;
pub mod jwt;
pub mod auth;
pub mod store;
pub mod login;
pub mod register;
pub mod profile;
pub mod avatar;
pub mod face;
pub mod cloudinary;
