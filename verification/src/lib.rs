//! Power-metering telemetry for TP-Link HS110 smart plugs.
//!
//! The crate holds the device protocol (the XOR stream cipher, the length-prefixed
//! frames of the TCP path, the discovery round and the query to one plug), the
//! assembly of a measurement from the device replies, and the sanitizing of
//! counters against the previous measurement. Beside them stand the settings of
//! the exporter's clients, as the environment gives them.
//!
//! Sockets, files, the cluster and the warehouse are left to the caller: it does
//! what `discovery`, `query` and `bigquery_client` tell it to do, and reports
//! what came of it.

pub mod assembler;
pub mod bigquery_client;
pub mod cipher;
pub mod config_client;
pub mod decimal;
pub mod device;
pub mod discovery;
pub mod error;
pub mod frame;
pub mod hs110_client;
pub mod model;
pub mod query;
pub mod sanitizer;
pub mod state_client;
