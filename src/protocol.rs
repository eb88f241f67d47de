//! The messages exchanged between the metrics service and its clients.
//!
//! Usages are given in hundredths of a percent (0 to 10000) and temperatures
//! in thousandths of a degree Celsius, so that every value is an integer.

use vstd::prelude::*;

verus! {

/// Per-core usage and the mean temperature of the host's sensors, if any.
#[derive(Clone, Debug, PartialEq)]
pub struct CpuResponse {
    pub usage: Vec<u32>,
    pub temperature: Option<i64>,
}

/// Cumulative counters of one network interface.
#[derive(Clone, Debug, PartialEq)]
pub struct NetworkInterface {
    pub name: String,
    pub bytes_in: u64,
    pub bytes_out: u64,
}

#[derive(Clone, Debug, PartialEq)]
pub struct NetworkResponse {
    pub interfaces: Vec<NetworkInterface>,
}

#[derive(Clone, Copy, Debug, PartialEq, Eq)]
pub struct Swap {
    pub free: u64,
    pub total: u64,
    pub used: u64,
}

#[derive(Clone, Copy, Debug, PartialEq, Eq)]
pub struct MemoryResponse {
    pub free: u64,
    pub total: u64,
    pub available: u64,
    pub used: u64,
    pub swap: Swap,
}

/// One reading of every category, gathered together.
#[derive(Clone, Debug, PartialEq)]
pub struct Pack {
    pub cpu: CpuResponse,
    pub network: NetworkResponse,
    pub memory: MemoryResponse,
}

} // verus!
