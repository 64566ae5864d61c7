//! Sensor-side ingestion agent for intrusion-detection alerts.
//!
//! The library is the verified data plane of the agent: the normalizer that
//! turns one parsed Suricata alert into one canonical `SensorEvent` with one
//! `Metric` row, the coalescing batch queue that deduplicates events by their
//! content hash and merges per-packet metrics, and the per-second counters of
//! the socket listener. Socket I/O, JSON deserialization and the streaming
//! RPC client live outside the library, in the surrounding binary.

pub mod config;
pub mod hashing;
pub mod listener;
pub mod processor;
pub mod queue;
pub mod strutil;
pub mod timestamp;
pub mod types;
pub mod uploader;
