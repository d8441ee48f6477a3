//! Core of a fronting-state synchronisation service.
//!
//! The library models the supervision and delivery layer of the service:
//! a per-user change processor drains a coalescing, latest-value-wins
//! channel of fronter snapshots, fans each snapshot out to the enabled
//! platform adapters while isolating their failures from one another,
//! and records a deduplicated, size- and age-bounded history of the
//! published status texts.  An updater manager registers one processor
//! per user and caches the latest per-platform statuses for queries.

pub mod auth;
pub mod channel;
pub mod config;
pub mod decisions;
pub mod fronting;
pub mod history;
pub mod manager;
pub mod platform;
pub mod processor;
pub mod secrets;
pub mod text;
pub mod users;
pub mod vrchat;
