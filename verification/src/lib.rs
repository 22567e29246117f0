//! Token issuing and caching for a workload-identity credential.
//!
//! A workload exchanges a federated token, handed to it by its platform
//! either as a fixed value or through a file that the platform rotates, for a
//! short-lived access token. This crate holds the decisions of that flow:
//! when a cached access token may still be served, when the federated token
//! has to be read again, which caller performs a refresh while the others
//! wait for it, and how an expiry instant is read out of a signed token
//! without checking its signature.
//!
//! The crate performs no input or output. Every function that depends on the
//! clock, on a file or on the network takes what was read as an argument and
//! answers with the next thing to do.

pub mod cache;
pub mod credential;
pub mod error;
pub mod expiry;
pub mod res_type;
pub mod source;
pub mod timestamp;
pub mod token;
