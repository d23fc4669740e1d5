//! Verified core of threadstat, a per-thread hardware counter sampler.

pub mod non_empty;
pub mod perf_config;
pub mod group_read;
pub mod text;
pub mod event_spec;
pub mod poll_logic;
pub mod poll_round;
pub mod source_table;
pub mod decimal;
pub mod csv_rows;
pub mod message;
pub mod timer;
pub mod read_outcome;
pub mod mqueue_logic;
pub mod signal;
pub mod session;
pub mod args;
pub mod pfm;
