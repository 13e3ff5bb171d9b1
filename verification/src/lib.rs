//! Verified core of the sys_stats telemetry agent: configuration handling,
//! init-system service plans, collector aggregation, local buffer queries,
//! backend request decisions, the telemetry and alerting loops, and dashboard
//! view logic.

pub mod text;
pub mod service;
pub mod config;
pub mod collector;
pub mod local_db;
pub mod auth;
pub mod backend;
pub mod dashboard;
pub mod status;
pub mod alerts;
pub mod telemetry;
