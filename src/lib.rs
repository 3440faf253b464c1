//! Builds a structured snapshot of a computer's hardware and operating
//! system: category probes, identifier resolution, unit normalisation,
//! machine identity and report assembly.
//!
//! Reading the platform's data sources (pseudo-files, management records,
//! driver calls) happens outside this crate; everything here works on the
//! plain values those sources yield.

pub mod bus;
pub mod cli;
pub mod components;
pub mod cpu;
pub mod error;
pub mod gpu;
pub mod ids;
pub mod log;
pub mod machine;
pub mod nic;
pub mod os;
pub mod path;
pub mod psu;
pub mod ram;
pub mod record;
pub mod report;
pub mod sleep;
pub mod source;
pub mod storage;
pub mod text;
pub mod units;
