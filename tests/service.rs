use monitoring::protocol::{CpuResponse, MemoryResponse, NetworkInterface, NetworkResponse, Pack, Swap};
use monitoring::sample::{Cpu, Memory, MonitoringData, Network, SamplingError, SwapMemory};
use monitoring::service::{monitor_all, monitor_cpu, monitor_memory, monitor_network, FetchAll, Part};
use std::time::Instant;

fn cpu() -> CpuResponse {
    CpuResponse { usage: vec![1250, 10000], temperature: Some(45500) }
}

fn network() -> NetworkResponse {
    NetworkResponse {
        interfaces: vec![NetworkInterface { name: "eth0".to_string(), bytes_in: 10, bytes_out: 20 }],
    }
}

fn memory() -> MemoryResponse {
    MemoryResponse {
        free: 100,
        total: 1000,
        available: 300,
        used: 700,
        swap: Swap { free: 5, total: 10, used: 5 },
    }
}

#[test]
fn combined_request_fails_when_network_fails() {
    let r = monitor_all(Ok(cpu()), Err(SamplingError::IoFailure), Ok(memory()));
    assert_eq!(r, Err(SamplingError::IoFailure));
}

#[test]
fn combined_request_gives_the_first_error() {
    let r = monitor_all(Err(SamplingError::Unsupported), Err(SamplingError::IoFailure), Ok(memory()));
    assert_eq!(r, Err(SamplingError::Unsupported));
}

#[test]
fn combined_request_gathers_all_three() {
    let r = monitor_all(Ok(cpu()), Ok(network()), Ok(memory()));
    assert_eq!(r, Ok(Pack { cpu: cpu(), network: network(), memory: memory() }));
}

#[test]
fn join_stops_at_the_first_failure_in_arrival_order() {
    let mut join = FetchAll::new();
    assert_eq!(join.deliver(Part::Memory(Ok(memory()))), None);
    assert_eq!(join.deliver(Part::Network(Err(SamplingError::IoFailure))), Some(Err(SamplingError::IoFailure)));
    assert!(join.is_done());
    assert_eq!(join.deliver(Part::Cpu(Ok(cpu()))), None);
    assert_eq!(join.deliver(Part::Cpu(Err(SamplingError::Unsupported))), None);
}

#[test]
fn join_completes_in_any_order() {
    let mut join = FetchAll::new();
    assert_eq!(join.deliver(Part::Network(Ok(network()))), None);
    assert_eq!(join.deliver(Part::Memory(Ok(memory()))), None);
    assert!(!join.is_done());
    assert_eq!(
        join.deliver(Part::Cpu(Ok(cpu()))),
        Some(Ok(Pack { cpu: cpu(), network: network(), memory: memory() }))
    );
    assert_eq!(join.deliver(Part::Memory(Err(SamplingError::IoFailure))), None);
}

#[test]
fn cpu_without_sensors_has_no_temperature() {
    let reading = Cpu::new(Instant::now(), vec![1800, 1800], &vec![], vec![500, 2500]);
    assert_eq!(reading.temperature, None);
    let r = monitor_cpu(Ok(MonitoringData::new(reading)));
    assert_eq!(r, Ok(CpuResponse { usage: vec![500, 2500], temperature: None }));
}

#[test]
fn cpu_temperature_is_the_mean_of_the_sensors() {
    assert_eq!(Cpu::read_temp(&vec![40000, 50000, 45001]), Some(45000));
    assert_eq!(Cpu::read_temp(&vec![-1, -2]), Some(-2));
    assert_eq!(Cpu::read_temp(&vec![i64::MAX, i64::MAX]), Some(i64::MAX));
    assert_eq!(Cpu::read_temp(&vec![i64::MIN, i64::MIN, 0]), Some(-6148914691236517206));
    let reading = Cpu::new(Instant::now(), vec![], &vec![30000, 31000], vec![]);
    assert_eq!(reading.temperature, Some(30500));
}

#[test]
fn cpu_error_passes_through() {
    assert_eq!(monitor_cpu(Err(SamplingError::Unsupported)), Err(SamplingError::Unsupported));
}

#[test]
fn network_lists_each_interface_with_its_counters() {
    let n = Network::new(vec![("lo".to_string(), 1, 2), ("eth0".to_string(), 30, 40)]);
    assert_eq!(n.names, vec!["lo".to_string(), "eth0".to_string()]);
    assert_eq!(n.bytes_in, vec![1, 30]);
    assert_eq!(n.bytes_out, vec![2, 40]);
    let r = monitor_network(Ok(MonitoringData::new(n))).unwrap();
    assert_eq!(
        r.interfaces,
        vec![
            NetworkInterface { name: "lo".to_string(), bytes_in: 1, bytes_out: 2 },
            NetworkInterface { name: "eth0".to_string(), bytes_in: 30, bytes_out: 40 },
        ]
    );
}

#[test]
fn network_counter_missing_reads_zero() {
    let n = Network { names: vec!["wlan0".to_string()], bytes_in: vec![], bytes_out: vec![9] };
    let r = monitor_network(Ok(MonitoringData::new(n))).unwrap();
    assert_eq!(r.interfaces, vec![NetworkInterface { name: "wlan0".to_string(), bytes_in: 0, bytes_out: 9 }]);
    assert_eq!(monitor_network(Err(SamplingError::IoFailure)), Err(SamplingError::IoFailure));
}

#[test]
fn memory_answer_copies_the_counters() {
    let swap = SwapMemory { free: 5, total: 10, used: 5 };
    let m = Memory::new(100, 1000, 300, 700, swap).unwrap();
    assert_eq!(monitor_memory(Ok(MonitoringData::new(m))), Ok(memory()));
    assert_eq!(monitor_memory(Err(SamplingError::Unsupported)), Err(SamplingError::Unsupported));
}

#[test]
fn memory_with_contradicting_counters_is_rejected() {
    let swap = SwapMemory { free: 5, total: 10, used: 5 };
    assert_eq!(Memory::new(100, 1000, 300, 1001, swap), Err(SamplingError::IoFailure));
    assert_eq!(Memory::new(100, 1000, 1001, 700, swap), Err(SamplingError::IoFailure));
    let bad_swap = SwapMemory { free: 5, total: 10, used: 11 };
    assert_eq!(Memory::new(100, 1000, 300, 700, bad_swap), Err(SamplingError::IoFailure));
}

#[test]
fn monitoring_data_gives_back_its_reading() {
    assert_eq!(MonitoringData::new(7u8).into_data(), 7);
}
