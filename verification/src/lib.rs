//! Core of a newsletter subscription service.
//!
//! The library holds the verified logic of the service: domain validation of
//! subscriber names and e-mail addresses, confirmation-token generation, the
//! transactional subscription workflow, the newsletter fan-out publisher, and
//! the error taxonomy that maps internal failures to client-facing statuses.
//! The relational store and the outbound e-mail transport are outside
//! collaborators; the workflow is verified against an explicit model of them,
//! and the surrounding binary performs the actual I/O.

pub mod domain;
pub mod email_client;
pub mod errors;
pub mod newsletter;
pub mod store;
pub mod subscriptions;
pub mod token;
