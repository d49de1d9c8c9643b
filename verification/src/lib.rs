//! Core of a two-tier log pipeline: an edge shipper that normalizes syslog, GELF and
//! tailed-file records into wire log lines, and a central collector that turns them
//! into index documents, batches them and decides how to retry, split or drop them
//! when the indexing backend pushes back.
//!
//! Everything here is pure decision logic over plain values. Sockets, timers, the RPC
//! transport and the HTTP client live in the application around this library.

pub mod batcher;
pub mod collector_config;
pub mod config;
pub mod config_store;
pub mod entry;
pub mod forward_loop;
pub mod eqregex;
pub mod gelf;
pub mod generic_log;
pub mod grpc_out;
pub mod grpc_server;
pub mod helper;
pub mod indexer;
pub mod json;
pub mod log_file;
pub mod metrics;
pub mod queue;
pub mod severity;
pub mod syslog;
pub mod text;
pub mod timestamp;
pub mod wire;
