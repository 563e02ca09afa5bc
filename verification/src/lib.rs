//! Monitoring and record-keeping for a blockchain validator.
//!
//! The crate has two independent halves. `monitor` derives health metrics
//! (uptime, stake, commission, rewards, APR) from a vote-account snapshot and
//! decides when an alert is due. `dashboard` is the persistent record of the
//! latest reported metrics, with an authority check on every mutation and an
//! alert notification when a reported uptime falls below the stored threshold.
//! `identity` holds the 32-byte account identity type shared by both halves.

pub mod dashboard;
pub mod identity;
pub mod monitor;
