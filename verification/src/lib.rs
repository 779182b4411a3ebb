//! Core of a vehicle-signal data broker: a reconnectable client connection
//! manager that injects bearer-token credentials per call and publishes
//! connection-state transitions, and the server-side handlers that register
//! entries and ingest streamed datapoint updates against an external store.

pub mod auth;
pub mod client;
pub mod collector;
pub mod endpoint;
pub mod hub;
pub mod registration;
pub mod store;
pub mod types;
