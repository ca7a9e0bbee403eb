//! A mock payment-authorization core in the style of ISO 8583 messaging.
//!
//! Two operations exist: authorization (MTI 0100 answered with 0110) and
//! reversal (MTI 0400 answered with 0410). An authorization is approved
//! exactly when the PAN starts with the character '4'; approved
//! authorizations are recorded in a [`store::TransactionStore`] keyed by
//! STAN, and a reversal succeeds exactly when the referenced STAN is
//! present in that store. Every response echoes the request fields
//! verbatim and carries a two-digit response code with a human-readable
//! message.

pub mod handlers;
pub mod messages;
pub mod store;
