//! Tuck — a hard real-time security guard for CI-144 frames.
//!
//! Tuck reads the 4-byte PFP header of a frame and decides, from a
//! configurable policy, whether the frame passes, is rejected, needs human
//! confirmation, or passes under a catastrophic hard override.

pub mod pfp;
pub mod text;
pub mod frame;
pub mod sap;
pub mod digest;
pub mod audit;
pub mod audit_query;
pub mod prometheus;
pub mod metrics;
pub mod config;
pub mod policy;
pub mod hitl;
pub mod catastrophic;
pub mod hot_reload;
pub mod tamper;
pub mod credential;
pub mod base64;
pub mod strmap;
pub mod json;
pub mod injection;
pub mod anaphase;
pub mod tentacle;
pub mod ed25519;
pub mod ledger;
pub mod proxy;
pub mod audit_store;
pub mod mind_bridge;
pub mod hsm;
pub mod health;
pub mod status;
pub mod outbound;
pub mod file_store;
