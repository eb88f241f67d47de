//! Point-in-time readings of one metric category, built from what the
//! operating system reported.

use crate::window::{lemma_sum_bound, seq_sum};
use std::time::Instant;
use vstd::prelude::*;

verus! {

/// A moment of a monotonic clock.
#[verifier::external_type_specification]
#[verifier::external_body]
pub struct ExInstant(Instant);

/// Why a category could not be read.
#[derive(Clone, Copy, Debug, PartialEq, Eq)]
pub enum SamplingError {
    /// The category is not available on this host.
    Unsupported,
    /// The query to the operating system failed.
    IoFailure,
}

/// The mean of the sensor temperatures, rounded down; none without sensors.
pub open spec fn mean_temperature(temps: Seq<i64>) -> Option<i64> {
    if temps.len() == 0 {
        None
    } else {
        Some((seq_sum(temps) / (temps.len() as int)) as i64)
    }
}

/// A processor reading. Usages are in hundredths of a percent, temperatures
/// in thousandths of a degree Celsius, frequencies in MHz.
#[derive(Debug)]
pub struct Cpu {
    pub time: Instant,
    pub freq: Vec<u64>,
    pub temperature: Option<i64>,
    pub usage: Vec<u32>,
}

impl Cpu {
    /// The mean of the temperatures that the sensors report, rounded down.
    /// A host without sensors has no temperature; that is no failure.
    pub fn read_temp(temps: &Vec<i64>) -> (r: Option<i64>)
        ensures
            r == mean_temperature(temps@),
    {
        let n = temps.len();
        if n == 0 {
            return None;
        }
        let mut sum: i128 = 0;
        let mut i: usize = 0;
        while i < n
            invariant
                n == temps@.len(),
                i <= n,
                sum == seq_sum(temps@.subrange(0, i as int)),
            decreases n - i,
        {
            proof {
                let s = temps@.subrange(0, i as int + 1);
                assert(s.drop_last() =~= temps@.subrange(0, i as int));
                lemma_sum_bound(s);
            }
            sum = sum + temps[i] as i128;
            i = i + 1;
        }
        assert(temps@.subrange(0, n as int) =~= temps@);
        proof {
            lemma_sum_bound(temps@);
        }
        let count = n as i128;
        let mean = if sum >= 0 {
            sum / count
        } else {
            let q = (-(sum + 1)) / count;
            proof {
                lemma_floor_of_negative(sum as int, count as int);
            }
            -q - 1
        };
        proof {
            assert(-0x8000_0000_0000_0000 * (n as int) <= sum <= 0x7fff_ffff_ffff_ffff * (n as int));
            lemma_mean_bounds(sum as int, n as int);
        }
        Some(mean as i64)
    }

    /// A reading taken at `time`, from the per-core frequencies and usages and
    /// the temperatures of all sensors.
    pub fn new(time: Instant, freq: Vec<u64>, sensor_temps: &Vec<i64>, usage: Vec<u32>) -> (r: Cpu)
        ensures
            r.time == time,
            r.freq == freq,
            r.temperature == mean_temperature(sensor_temps@),
            r.usage == usage,
    {
        let temperature = Cpu::read_temp(sensor_temps);
        Cpu { time, freq, temperature, usage }
    }
}

proof fn lemma_floor_of_negative(sum: int, count: int)
    requires
        sum < 0,
        count > 0,
    ensures
        -((-(sum + 1)) / count) - 1 == sum / count,
{
    let q = sum / count;
    let r = sum % count;
    assert(sum == q * count + r && 0 <= r < count) by {
        vstd::arithmetic::div_mod::lemma_fundamental_div_mod(sum, count);
    }
    assert(-(sum + 1) == (-q - 1) * count + (count - 1 - r)) by (nonlinear_arith)
        requires
            sum == q * count + r,
    ;
    vstd::arithmetic::div_mod::lemma_fundamental_div_mod_converse(
        -(sum + 1),
        count,
        -q - 1,
        count - 1 - r,
    );
}

proof fn lemma_mean_bounds(sum: int, n: int)
    requires
        n > 0,
        -0x8000_0000_0000_0000 * n <= sum <= 0x7fff_ffff_ffff_ffff * n,
    ensures
        -0x8000_0000_0000_0000 <= sum / n <= 0x7fff_ffff_ffff_ffff,
{
    vstd::arithmetic::div_mod::lemma_div_is_ordered(-0x8000_0000_0000_0000 * n, sum, n);
    vstd::arithmetic::div_mod::lemma_div_is_ordered(sum, 0x7fff_ffff_ffff_ffff * n, n);
    vstd::arithmetic::div_mod::lemma_fundamental_div_mod_converse(
        -0x8000_0000_0000_0000 * n,
        n,
        -0x8000_0000_0000_0000,
        0,
    );
    vstd::arithmetic::div_mod::lemma_fundamental_div_mod_converse(
        0x7fff_ffff_ffff_ffff * n,
        n,
        0x7fff_ffff_ffff_ffff,
        0,
    );
}

/// The counters of every network interface, from one sampling instant:
/// `bytes_in[i]` and `bytes_out[i]` belong to `names[i]`.
#[derive(Debug)]
pub struct Network {
    pub names: Vec<String>,
    pub bytes_in: Vec<u64>,
    pub bytes_out: Vec<u64>,
}

impl Network {
    /// The names form a set, and every interface named has both of its
    /// counters.
    pub open spec fn wf(&self) -> bool {
        &&& self.bytes_in@.len() == self.names@.len()
        &&& self.bytes_out@.len() == self.names@.len()
        &&& forall|i: int, j: int|
            0 <= i < j < self.names@.len() ==> #[trigger] self.names@[i]@
                != #[trigger] self.names@[j]@
    }

    /// A reading from `(name, bytes received, bytes sent)` for each interface;
    /// no two interfaces share a name.
    pub fn new(interfaces: Vec<(String, u64, u64)>) -> (r: Network)
        requires
            forall|i: int, j: int|
                0 <= i < j < interfaces@.len() ==> #[trigger] interfaces@[i].0@
                    != #[trigger] interfaces@[j].0@,
        ensures
            r.wf(),
            r.names@.len() == interfaces@.len(),
            forall|i: int|
                0 <= i < interfaces@.len() ==> {
                    &&& #[trigger] r.names@[i] == interfaces@[i].0
                    &&& r.bytes_in@[i] == interfaces@[i].1
                    &&& r.bytes_out@[i] == interfaces@[i].2
                },
    {
        let ghost all = interfaces@;
        let mut names: Vec<String> = Vec::new();
        let mut bytes_in: Vec<u64> = Vec::new();
        let mut bytes_out: Vec<u64> = Vec::new();
        let mut rest = interfaces;
        let n = rest.len();
        let mut i: usize = 0;
        while i < n
            invariant
                n == all.len(),
                i <= n,
                rest@ == all.subrange(i as int, n as int),
                names@.len() == i,
                bytes_in@.len() == i,
                bytes_out@.len() == i,
                forall|k: int|
                    0 <= k < i ==> {
                        &&& #[trigger] names@[k] == all[k].0
                        &&& bytes_in@[k] == all[k].1
                        &&& bytes_out@[k] == all[k].2
                    },
            decreases n - i,
        {
            let (name, received, sent) = rest.remove(0);
            names.push(name);
            bytes_in.push(received);
            bytes_out.push(sent);
            i = i + 1;
            assert(rest@ =~= all.subrange(i as int, n as int));
        }
        Network { names, bytes_in, bytes_out }
    }
}

/// Swap counters, in bytes.
#[derive(Clone, Copy, Debug, PartialEq, Eq)]
pub struct SwapMemory {
    pub free: u64,
    pub total: u64,
    pub used: u64,
}

/// Memory counters, in bytes.
#[derive(Clone, Copy, Debug, PartialEq, Eq)]
pub struct Memory {
    pub free: u64,
    pub total: u64,
    pub available: u64,
    pub used: u64,
    pub swap: SwapMemory,
}

impl Memory {
    /// Nothing in use or available exceeds the total.
    pub open spec fn wf(&self) -> bool {
        &&& self.used <= self.total
        &&& self.available <= self.total
        &&& self.free <= self.total
        &&& self.swap.used <= self.swap.total
        &&& self.swap.free <= self.swap.total
    }

    /// A reading from the counters reported; counters that contradict each
    /// other mean the query went wrong.
    pub fn new(free: u64, total: u64, available: u64, used: u64, swap: SwapMemory) -> (r: Result<
        Memory,
        SamplingError,
    >)
        ensures
            ({
                let m = Memory { free, total, available, used, swap };
                if m.wf() {
                    r == Ok::<Memory, SamplingError>(m)
                } else {
                    r == Err::<Memory, SamplingError>(SamplingError::IoFailure)
                }
            }),
    {
        let m = Memory { free, total, available, used, swap };
        if used <= total && available <= total && free <= total && swap.used <= swap.total
            && swap.free <= swap.total {
            Ok(m)
        } else {
            Err(SamplingError::IoFailure)
        }
    }
}

/// A reading of one category, or of a tuple of them.
#[derive(Debug)]
pub struct MonitoringData<T> {
    data: T,
}

impl<T> MonitoringData<T> {
    pub closed spec fn data(self) -> T {
        self.data
    }

    pub fn new(data: T) -> (r: MonitoringData<T>)
        ensures
            r.data() == data,
    {
        MonitoringData { data }
    }

    pub fn into_data(self) -> (r: T)
        ensures
            r == self.data(),
    {
        self.data
    }
}

} // verus!
