//! Verified core of a small bearer-token authenticated store of per-address
//! gallery documents: problem+json error values, address normalisation,
//! bearer-token checks, the decisions of the gallery handlers, and the pieces
//! of the log line format.
pub mod address;
pub mod auth;
pub mod gallery;
pub mod logging;
pub mod problem;
pub mod startup;
