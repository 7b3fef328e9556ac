//! Authentication core: credential verification, session-token minting,
//! authorization-code issuance, redirect validation, and the login
//! orchestration state machine.
//!
//! Storage access, HTTP plumbing and e-mail dispatch are collaborators that
//! live outside this library; the functions here take the values those
//! collaborators produce (a fetched account row, a rows-affected count) and
//! decide everything else under verified contracts.

pub mod account;
pub mod config;
pub mod create_user;
pub mod email;
pub mod errors;
pub mod login;
pub mod password;
pub mod random;
pub mod redirect;
pub mod status;
pub mod strutil;
pub mod token;
