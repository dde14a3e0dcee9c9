//! Sign-in through a messaging platform's login widget: verification of the
//! provider's signed identity assertion, and issue and validation of signed,
//! time-bounded session tokens.
pub mod canonical;
pub mod config;
pub mod decimal;
pub mod dto;
pub mod errors;
pub mod files;
pub mod jwt;
pub mod login;
pub mod telegram;
pub mod users;
