//! Newsletter subscription ingestion: validated domain types for subscriber
//! emails and names, the decision logic of the `POST /subscriptions`
//! handler, and the assembly of outbound confirmation-email requests. The
//! surrounding HTTP server, database and email transport consume this
//! library and perform the I/O it decides on.

pub mod configuration;
pub mod domain;
pub mod email_client;
pub mod routes;
