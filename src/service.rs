//! What the metrics service answers, from the readings taken under its lock,
//! and how the three readings of a combined request are joined.

use crate::protocol::{CpuResponse, MemoryResponse, NetworkInterface, NetworkResponse, Pack, Swap};
use crate::sample::{Cpu, Memory, MonitoringData, Network, SamplingError};
use vstd::prelude::*;

verus! {

/// The answer to a processor request.
pub open spec fn cpu_answer(data: Result<MonitoringData<Cpu>, SamplingError>) -> Result<
    CpuResponse,
    SamplingError,
> {
    match data {
        Ok(d) => Ok(CpuResponse { usage: d.data().usage, temperature: d.data().temperature }),
        Err(e) => Err(e),
    }
}

/// The answer to a processor request: the usages and the temperature of the
/// reading, or its error unchanged.
pub fn monitor_cpu(data: Result<MonitoringData<Cpu>, SamplingError>) -> (r: Result<
    CpuResponse,
    SamplingError,
>)
    ensures
        r == cpu_answer(data),
{
    match data {
        Ok(d) => {
            let cpu = d.into_data();
            Ok(CpuResponse { usage: cpu.usage, temperature: cpu.temperature })
        },
        Err(e) => Err(e),
    }
}

/// The counter at `i`, or 0 where the reading has none.
pub open spec fn counter_at(counters: Seq<u64>, i: int) -> u64 {
    if 0 <= i < counters.len() {
        counters[i]
    } else {
        0
    }
}

/// `interfaces` lists each interface of `n`, in order, with its counters.
pub open spec fn lists_interfaces(n: Network, interfaces: Seq<NetworkInterface>) -> bool {
    &&& interfaces.len() == n.names@.len()
    &&& forall|i: int|
        0 <= i < interfaces.len() ==> {
            &&& (#[trigger] interfaces[i]).name == n.names@[i]
            &&& interfaces[i].bytes_in == counter_at(n.bytes_in@, i)
            &&& interfaces[i].bytes_out == counter_at(n.bytes_out@, i)
        }
}

/// The answer to a network request: one entry per interface named in the
/// reading, in its order, with its counters (0 for a counter it lacks); or
/// the reading's error unchanged.
pub fn monitor_network(data: Result<MonitoringData<Network>, SamplingError>) -> (r: Result<
    NetworkResponse,
    SamplingError,
>)
    ensures
        match data {
            Ok(d) => match r {
                Ok(resp) => lists_interfaces(d.data(), resp.interfaces@),
                Err(_) => false,
            },
            Err(e) => r == Err::<NetworkResponse, SamplingError>(e),
        },
{
    match data {
        Ok(d) => {
            let network = d.into_data();
            let n = network.names.len();
            let mut interfaces: Vec<NetworkInterface> = Vec::new();
            let mut i: usize = 0;
            while i < n
                invariant
                    n == network.names@.len(),
                    i <= n,
                    interfaces@.len() == i,
                    forall|k: int|
                        0 <= k < i ==> {
                            &&& (#[trigger] interfaces@[k]).name == network.names@[k]
                            &&& interfaces@[k].bytes_in == counter_at(network.bytes_in@, k)
                            &&& interfaces@[k].bytes_out == counter_at(network.bytes_out@, k)
                        },
                decreases n - i,
            {
                let bytes_in = if i < network.bytes_in.len() {
                    network.bytes_in[i]
                } else {
                    0
                };
                let bytes_out = if i < network.bytes_out.len() {
                    network.bytes_out[i]
                } else {
                    0
                };
                interfaces.push(
                    NetworkInterface { name: network.names[i].clone(), bytes_in, bytes_out },
                );
                i = i + 1;
            }
            Ok(NetworkResponse { interfaces })
        },
        Err(e) => Err(e),
    }
}

/// The wire form of a memory reading.
pub open spec fn memory_answer(m: Memory) -> MemoryResponse {
    MemoryResponse {
        free: m.free,
        total: m.total,
        available: m.available,
        used: m.used,
        swap: Swap { free: m.swap.free, total: m.swap.total, used: m.swap.used },
    }
}

/// The answer to a memory request: the counters of the reading, or its
/// error unchanged.
pub fn monitor_memory(data: Result<MonitoringData<Memory>, SamplingError>) -> (r: Result<
    MemoryResponse,
    SamplingError,
>)
    ensures
        r == match data {
            Ok(d) => Ok(memory_answer(d.data())),
            Err(e) => Err(e),
        },
{
    match data {
        Ok(d) => {
            let x = d.into_data();
            Ok(
                MemoryResponse {
                    free: x.free,
                    total: x.total,
                    used: x.used,
                    available: x.available,
                    swap: Swap { free: x.swap.free, total: x.swap.total, used: x.swap.used },
                },
            )
        },
        Err(e) => Err(e),
    }
}

/// The outcome of one of the three fetches of a combined request.
pub enum Part {
    Cpu(Result<CpuResponse, SamplingError>),
    Network(Result<NetworkResponse, SamplingError>),
    Memory(Result<MemoryResponse, SamplingError>),
}

/// What a join has gathered so far.
pub struct JoinState {
    pub cpu: Option<CpuResponse>,
    pub network: Option<NetworkResponse>,
    pub memory: Option<MemoryResponse>,
    pub done: bool,
}

/// A join that has gathered nothing.
pub open spec fn join_start() -> JoinState {
    JoinState { cpu: None, network: None, memory: None, done: false }
}

/// A join that has given its outcome and holds nothing more.
pub open spec fn join_finished() -> JoinState {
    JoinState { cpu: None, network: None, memory: None, done: true }
}

/// Gives the combined reading once all three parts are there.
pub open spec fn join_complete(s: JoinState) -> (JoinState, Option<Result<Pack, SamplingError>>) {
    match (s.cpu, s.network, s.memory) {
        (Some(cpu), Some(network), Some(memory)) => (
            join_finished(),
            Some(Ok(Pack { cpu, network, memory })),
        ),
        _ => (s, None),
    }
}

/// One arrival: after the outcome, every arrival is dropped; the first
/// failure is the outcome, and what was gathered is dropped with it; a
/// success is kept until all three are there.
pub open spec fn join_step(s: JoinState, p: Part) -> (JoinState, Option<Result<Pack, SamplingError>>) {
    if s.done {
        (s, None)
    } else {
        match p {
            Part::Cpu(Err(e)) => (join_finished(), Some(Err(e))),
            Part::Network(Err(e)) => (join_finished(), Some(Err(e))),
            Part::Memory(Err(e)) => (join_finished(), Some(Err(e))),
            Part::Cpu(Ok(c)) => join_complete(JoinState { cpu: Some(c), ..s }),
            Part::Network(Ok(n)) => join_complete(JoinState { network: Some(n), ..s }),
            Part::Memory(Ok(m)) => join_complete(JoinState { memory: Some(m), ..s }),
        }
    }
}

/// Joins the three fetches of a combined request in the order in which they
/// finish, failing on the first failure.
pub struct FetchAll {
    cpu: Option<CpuResponse>,
    network: Option<NetworkResponse>,
    memory: Option<MemoryResponse>,
    done: bool,
}

impl View for FetchAll {
    type V = JoinState;

    closed spec fn view(&self) -> JoinState {
        JoinState { cpu: self.cpu, network: self.network, memory: self.memory, done: self.done }
    }
}

impl FetchAll {
    pub fn new() -> (r: FetchAll)
        ensures
            r@ == join_start(),
    {
        FetchAll { cpu: None, network: None, memory: None, done: false }
    }

    /// Whether the outcome has been given.
    pub fn is_done(&self) -> (r: bool)
        ensures
            r == self@.done,
    {
        self.done
    }

    /// Takes the part that finished; returns the outcome when this part
    /// decides it, and nothing otherwise.
    pub fn deliver(&mut self, part: Part) -> (r: Option<Result<Pack, SamplingError>>)
        ensures
            (final(self)@, r) == join_step(old(self)@, part),
    {
        if self.done {
            return None;
        }
        match part {
            Part::Cpu(Ok(c)) => {
                self.cpu = Some(c);
            },
            Part::Network(Ok(n)) => {
                self.network = Some(n);
            },
            Part::Memory(Ok(m)) => {
                self.memory = Some(m);
            },
            Part::Cpu(Err(e)) => {
                return self.fail(e);
            },
            Part::Network(Err(e)) => {
                return self.fail(e);
            },
            Part::Memory(Err(e)) => {
                return self.fail(e);
            },
        }
        if self.cpu.is_some() && self.network.is_some() && self.memory.is_some() {
            let cpu = self.cpu.take().unwrap();
            let network = self.network.take().unwrap();
            let memory = self.memory.take().unwrap();
            self.done = true;
            Some(Ok(Pack { cpu, network, memory }))
        } else {
            None
        }
    }

    fn fail(&mut self, e: SamplingError) -> (r: Option<Result<Pack, SamplingError>>)
        ensures
            final(self)@ == join_finished(),
            r == Some(Err::<Pack, SamplingError>(e)),
    {
        self.cpu = None;
        self.network = None;
        self.memory = None;
        self.done = true;
        Some(Err(e))
    }
}

/// The outcome of a combined request whose fetches gave `cpu`, `network`
/// and `memory`: all three together, or the first error among them.
pub open spec fn combined(
    cpu: Result<CpuResponse, SamplingError>,
    network: Result<NetworkResponse, SamplingError>,
    memory: Result<MemoryResponse, SamplingError>,
) -> Result<Pack, SamplingError> {
    match (cpu, network, memory) {
        (Ok(cpu), Ok(network), Ok(memory)) => Ok(Pack { cpu, network, memory }),
        (Err(e), _, _) => Err(e),
        (_, Err(e), _) => Err(e),
        (_, _, Err(e)) => Err(e),
    }
}

/// The outcome of a combined request from the results of its three fetches:
/// the first error in the order processor, network, memory, or all three.
pub fn monitor_all(
    cpu: Result<CpuResponse, SamplingError>,
    network: Result<NetworkResponse, SamplingError>,
    memory: Result<MemoryResponse, SamplingError>,
) -> (r: Result<Pack, SamplingError>)
    ensures
        r == combined(cpu, network, memory),
{
    match (cpu, network, memory) {
        (Ok(cpu), Ok(network), Ok(memory)) => Ok(Pack { cpu, network, memory }),
        (Err(e), _, _) => Err(e),
        (_, Err(e), _) => Err(e),
        (_, _, Err(e)) => Err(e),
    }
}

/// Which of the three fetches a part comes from.
pub open spec fn category(p: Part) -> int {
    match p {
        Part::Cpu(_) => 0,
        Part::Network(_) => 1,
        Part::Memory(_) => 2,
    }
}

/// The error of a failed part.
pub open spec fn failure(p: Part) -> Option<SamplingError> {
    match p {
        Part::Cpu(Err(e)) => Some(e),
        Part::Network(Err(e)) => Some(e),
        Part::Memory(Err(e)) => Some(e),
        _ => None,
    }
}

/// The processor answer among three parts.
pub open spec fn cpu_among(first: Part, second: Part, third: Part) -> Option<CpuResponse> {
    match (first, second, third) {
        (Part::Cpu(Ok(c)), _, _) => Some(c),
        (_, Part::Cpu(Ok(c)), _) => Some(c),
        (_, _, Part::Cpu(Ok(c))) => Some(c),
        _ => None,
    }
}

/// The network answer among three parts.
pub open spec fn network_among(first: Part, second: Part, third: Part) -> Option<NetworkResponse> {
    match (first, second, third) {
        (Part::Network(Ok(n)), _, _) => Some(n),
        (_, Part::Network(Ok(n)), _) => Some(n),
        (_, _, Part::Network(Ok(n))) => Some(n),
        _ => None,
    }
}

/// The memory answer among three parts.
pub open spec fn memory_among(first: Part, second: Part, third: Part) -> Option<MemoryResponse> {
    match (first, second, third) {
        (Part::Memory(Ok(m)), _, _) => Some(m),
        (_, Part::Memory(Ok(m)), _) => Some(m),
        (_, _, Part::Memory(Ok(m))) => Some(m),
        _ => None,
    }
}

/// The first of three outcomes that is given.
pub open spec fn first_given<T>(o1: Option<T>, o2: Option<T>, o3: Option<T>) -> Option<T> {
    if o1 is Some {
        o1
    } else if o2 is Some {
        o2
    } else {
        o3
    }
}

/// Whatever the order in which the three fetches of a combined request
/// finish, the join gives exactly one outcome. It is the error of the first
/// part to fail, if any fails, and never a partial reading; otherwise it is
/// the reading made of the three answers.
pub proof fn lemma_join_fails_fast(first: Part, second: Part, third: Part)
    requires
        category(first) != category(second),
        category(first) != category(third),
        category(second) != category(third),
    ensures
        ({
            let (s1, o1) = join_step(join_start(), first);
            let (s2, o2) = join_step(s1, second);
            let (s3, o3) = join_step(s2, third);
            &&& s3.done
            &&& o1 is Some ==> o2 is None && o3 is None
            &&& o2 is Some ==> o3 is None
            &&& first_given(o1, o2, o3) == Some(
                if failure(first) is Some {
                    Err::<Pack, SamplingError>(failure(first)->0)
                } else if failure(second) is Some {
                    Err(failure(second)->0)
                } else if failure(third) is Some {
                    Err(failure(third)->0)
                } else {
                    Ok(
                        Pack {
                            cpu: cpu_among(first, second, third)->0,
                            network: network_among(first, second, third)->0,
                            memory: memory_among(first, second, third)->0,
                        },
                    )
                },
            )
        }),
{
}

} // verus!
