//! Core of a read-only aggregator that sits in front of a container image
//! registry: it lists repositories with summary metadata and lists tags with
//! per-tag detail, reconciling partial upstream failures into best-effort
//! results and caching per-repository summaries.
//!
//! The verified library holds the data model, the error taxonomy, the
//! summary cache, and every decision the pipelines make; the unverified
//! binary around it only performs the HTTP calls and hands the outcomes in
//! as plain values.

pub mod cache;
pub mod decimal;
pub mod errors;
pub mod models;
pub mod pagination;
pub mod registry_client;
pub mod summary;
pub mod tags;
