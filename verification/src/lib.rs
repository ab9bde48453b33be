//! Verified core of the PDOS command-line runtime: bottleneck labels, the
//! rule-based decision engine, the hill-climbing auto-tuner, transfer-mode
//! switching, syscall accounting, pairing, and the text parsers and
//! request handling behind the telemetry, dashboard and command layers.

pub mod bottleneck;
pub mod config;
pub mod text;
pub mod decision;
pub mod tuner;
pub mod mode;
pub mod profiler;
pub mod pairing;
pub mod transfer;
pub mod feedback;
pub mod active;
pub mod p2p;
pub mod telemetry;
pub mod procfs;
pub mod http;
pub mod dashboard;
pub mod cli;
