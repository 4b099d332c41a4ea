//! Verified core of the Crowdfund web application: configuration, errors,
//! sessions, the Google sign-in requests and the choice of a unique username.
pub mod text;
pub mod user;
pub mod error;
pub mod config;
pub mod session;
pub mod pages;
pub mod google;
