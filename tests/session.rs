use monitoring::protocol::{CpuResponse, MemoryResponse, NetworkInterface, NetworkResponse, Pack, Swap};
use monitoring::session::{Common, Message, Model, Props};
use futures::future::AbortHandle;
use std::time::Duration;
use tonic::Status;

fn props() -> Props {
    Props { update_interval: Duration::from_secs(1), auto_connect: false, window_size: 3 }
}

fn cpu(temperature: Option<i64>) -> CpuResponse {
    CpuResponse { usage: vec![1000, 2000], temperature }
}

fn network(bytes_in: u64) -> NetworkResponse {
    NetworkResponse {
        interfaces: vec![NetworkInterface { name: "eth0".to_string(), bytes_in, bytes_out: 1 }],
    }
}

fn memory(free: u64) -> MemoryResponse {
    MemoryResponse {
        free,
        total: 1 << 30,
        available: 1 << 29,
        used: 1 << 29,
        swap: Swap { free: 0, total: 0, used: 0 },
    }
}

/// Whether `cancel` is the handle of the task that `held` controls: the step
/// itself aborts nothing, and aborting what it hands back stops that task.
fn hands_back(cancel: Option<AbortHandle>, held: &AbortHandle) -> bool {
    let Some(cancel) = cancel else {
        return false;
    };
    if held.is_aborted() {
        return false;
    }
    cancel.abort();
    held.is_aborted()
}

fn unloaded(address: &str) -> Model {
    Model::Unloaded(Common::new(address.to_string()))
}

fn populate(temperature: Option<i64>, free: u64) -> Message {
    Message::Populate(cpu(temperature), network(free), memory(free))
}

#[test]
fn connect_from_unloaded_starts_a_task() {
    let p = props();
    let mut model = unloaded("a");
    let out = model.update(&p, Message::Connect);
    assert!(out.redraw);
    assert!(out.cancel.is_none());
    let spawn = out.spawn.expect("a task to start");
    assert_eq!(spawn.address, "a");
    assert_eq!(spawn.update_interval, Duration::from_secs(1));
    assert!(matches!(model, Model::Connected(..)));
    assert_eq!(model.common().connection_address(), "a");
    assert!(!model.active().unwrap().is_aborted());
}

#[test]
fn first_reading_seeds_the_history() {
    let p = props();
    let mut model = unloaded("a");
    model.update(&p, Message::Connect);
    let handle = model.active().unwrap().clone();
    let out = model.update(&p, populate(Some(41000), 4096));
    assert!(out.redraw && out.spawn.is_none() && out.cancel.is_none());
    match &model {
        Model::Populated {
            active,
            cpu_temp_window,
            free_mem_window,
            usage,
            memory_response,
            network_response,
            common,
        } => {
            assert!(!active.is_aborted());
            handle.abort();
            assert!(active.is_aborted());
            assert_eq!(cpu_temp_window.as_ref().unwrap().values(), vec![41000]);
            assert_eq!(free_mem_window.values(), vec![4]);
            assert_eq!(free_mem_window.capacity(), 3);
            assert_eq!(usage, &vec![1000, 2000]);
            assert_eq!(memory_response, &memory(4096));
            assert_eq!(network_response, &network(4096));
            assert_eq!(common.connection_address(), "a");
        }
        _ => panic!("expected a populated session"),
    }
}

#[test]
fn later_readings_extend_the_history() {
    let p = props();
    let mut model = unloaded("a");
    model.update(&p, Message::Connect);
    for (i, free) in [1024u64, 2048, 3072, 4096, 5120].into_iter().enumerate() {
        model.update(&p, populate(Some(i as i64), free));
    }
    match &model {
        Model::Populated { cpu_temp_window, free_mem_window, memory_response, .. } => {
            assert_eq!(cpu_temp_window.as_ref().unwrap().values(), vec![2, 3, 4]);
            assert_eq!(free_mem_window.values(), vec![3, 4, 5]);
            assert_eq!(memory_response.free, 5120);
        }
        _ => panic!("expected a populated session"),
    }
}

#[test]
fn no_temperature_history_without_a_first_temperature() {
    let p = props();
    let mut model = unloaded("a");
    model.update(&p, Message::Connect);
    model.update(&p, populate(None, 1024));
    model.update(&p, populate(Some(5), 1024));
    match &model {
        Model::Populated { cpu_temp_window, .. } => assert!(cpu_temp_window.is_none()),
        _ => panic!("expected a populated session"),
    }
}

#[test]
fn missing_temperature_leaves_the_history_as_it_is() {
    let p = props();
    let mut model = unloaded("a");
    model.update(&p, Message::Connect);
    model.update(&p, populate(Some(5), 1024));
    model.update(&p, populate(None, 2048));
    match &model {
        Model::Populated { cpu_temp_window, free_mem_window, .. } => {
            assert_eq!(cpu_temp_window.as_ref().unwrap().values(), vec![5]);
            assert_eq!(free_mem_window.values(), vec![1, 2]);
        }
        _ => panic!("expected a populated session"),
    }
}

#[test]
fn connect_while_streaming_stops_the_task() {
    let p = props();
    let mut model = unloaded("a");
    model.update(&p, Message::Connect);
    model.update(&p, populate(Some(1), 1024));
    let handle = model.active().unwrap().clone();
    let out = model.update(&p, Message::Connect);
    assert!(out.redraw && out.spawn.is_none());
    assert!(hands_back(out.cancel, &handle));
    assert!(matches!(model, Model::Unloaded(_)));
    assert_eq!(model.common().connection_address(), "a");
}

#[test]
fn connect_while_connecting_is_ignored() {
    let p = props();
    let mut model = unloaded("a");
    model.update(&p, Message::Connect);
    let handle = model.active().unwrap().clone();
    let out = model.update(&p, Message::Connect);
    assert!(!out.redraw && out.spawn.is_none() && out.cancel.is_none());
    assert!(matches!(model, Model::Connected(..)));
    assert!(!handle.is_aborted());
}

#[test]
fn failure_ends_a_running_session() {
    let p = props();
    let mut model = unloaded("a");
    model.update(&p, Message::Connect);
    let handle = model.active().unwrap().clone();
    let out = model.update(&p, Message::Fail(Status::unavailable("down")));
    assert!(out.redraw && out.spawn.is_none());
    assert!(hands_back(out.cancel, &handle));
    match &model {
        Model::Failed(common, status) => {
            assert_eq!(common.connection_address(), "a");
            assert_eq!(status.message(), "down");
        }
        _ => panic!("expected a failed session"),
    }
}

#[test]
fn failure_while_streaming_ends_the_session() {
    let p = props();
    let mut model = unloaded("a");
    model.update(&p, Message::Connect);
    model.update(&p, populate(Some(1), 1024));
    let handle = model.active().unwrap().clone();
    let out = model.update(&p, Message::Fail(Status::unavailable("gone")));
    assert!(hands_back(out.cancel, &handle));
    assert!(matches!(&model, Model::Failed(c, s) if c.connection_address() == "a" && s.message() == "gone"));
}

#[test]
fn failure_is_ignored_when_unloaded_or_failed() {
    let p = props();
    let mut model = unloaded("a");
    let out = model.update(&p, Message::Fail(Status::unavailable("x")));
    assert!(!out.redraw && out.cancel.is_none());
    assert!(matches!(model, Model::Unloaded(_)));

    model.update(&p, Message::Connect);
    model.update(&p, Message::Fail(Status::unavailable("first")));
    let out = model.update(&p, Message::Fail(Status::unavailable("second")));
    assert!(!out.redraw && out.cancel.is_none());
    assert!(matches!(&model, Model::Failed(_, s) if s.message() == "first"));
}

#[test]
fn connect_after_failure_goes_back_to_unloaded() {
    let p = props();
    let mut model = unloaded("a");
    model.update(&p, Message::Connect);
    model.update(&p, Message::Fail(Status::unavailable("x")));
    let out = model.update(&p, Message::Connect);
    assert!(out.redraw && out.spawn.is_none());
    assert!(matches!(model, Model::Unloaded(_)));
    assert_eq!(model.common().connection_address(), "a");
}

#[test]
fn reading_is_stale_outside_a_running_session() {
    let p = props();
    let mut model = unloaded("a");
    let out = model.update(&p, populate(Some(1), 1));
    assert!(!out.redraw);
    assert!(matches!(model, Model::Unloaded(_)));
}

#[test]
fn destination_changes_only_when_unloaded() {
    let p = props();
    let mut model = unloaded("a");
    let out = model.update(&p, Message::ChangeDestination("b".to_string()));
    assert!(!out.redraw && out.spawn.is_none());
    assert_eq!(model.common().connection_address(), "b");
    let out = model.update(&p, Message::Connect);
    assert_eq!(out.spawn.unwrap().address, "b");
    model.update(&p, Message::ChangeDestination("c".to_string()));
    assert_eq!(model.common().connection_address(), "b");
    assert!(matches!(model, Model::Connected(..)));
}

#[test]
fn changed_settings_restart_the_task() {
    let mut p = props();
    let mut model = unloaded("a");
    model.update(&p, Message::Connect);
    model.update(&p, populate(Some(1), 1024));
    let old = model.active().unwrap().clone();
    p.update_interval = Duration::from_millis(100);
    let out = model.changed(&p);
    assert!(!out.redraw);
    let spawn = out.spawn.unwrap();
    assert_eq!(spawn.update_interval, Duration::from_millis(100));
    assert_eq!(spawn.address, "a");
    assert!(hands_back(out.cancel, &old));
    assert!(!model.active().unwrap().is_aborted());
    match &model {
        Model::Populated { free_mem_window, .. } => assert_eq!(free_mem_window.values(), vec![1]),
        _ => panic!("expected a populated session"),
    }
}

#[test]
fn changed_settings_start_nothing_when_unloaded() {
    let mut model = unloaded("a");
    let out = model.changed(&props());
    assert!(out.spawn.is_none());
    assert!(matches!(model, Model::Unloaded(_)));
}

#[test]
fn new_session_watches_the_default_address() {
    let model = Model::default();
    assert!(matches!(model, Model::Unloaded(_)));
    assert_eq!(model.common().connection_address(), "http://orangepi:50525");
    let (model, out) = Model::create(&props());
    assert!(out.spawn.is_none() && matches!(model, Model::Unloaded(_)));
}

#[test]
fn new_session_may_connect_at_once() {
    let mut p = props();
    p.auto_connect = true;
    let (model, out) = Model::create(&p);
    assert!(matches!(model, Model::Connected(..)));
    assert_eq!(out.spawn.unwrap().address, "http://orangepi:50525");
}

#[test]
fn reply_becomes_a_message() {
    let pack = Pack { cpu: cpu(None), network: network(1), memory: memory(2) };
    assert!(matches!(Message::from(Ok(pack)), Message::Populate(c, _, m) if c.temperature.is_none() && m.free == 2));
    assert!(matches!(Message::from(Err(Status::unavailable("no"))), Message::Fail(s) if s.message() == "no"));
}

#[test]
fn default_settings_keep_sixty_samples() {
    let p = Props::new(Duration::from_secs(5));
    assert_eq!(p.update_interval, Duration::from_secs(5));
    assert!(!p.auto_connect);
    assert_eq!(p.window_size, 60);
}

#[test]
fn stale_events_while_running_stop_nothing() {
    let p = props();
    let mut model = unloaded("a");
    model.update(&p, Message::Connect);
    let handle = model.active().unwrap().clone();
    let out = model.update(&p, Message::ChangeDestination("b".to_string()));
    assert!(!out.redraw && out.spawn.is_none() && out.cancel.is_none());
    let out = model.update(&p, populate(Some(1), 1024));
    assert!(out.cancel.is_none());
    let out = model.update(&p, populate(Some(2), 2048));
    assert!(out.redraw && out.spawn.is_none() && out.cancel.is_none());
    assert!(!handle.is_aborted());
    assert_eq!(model.common().connection_address(), "a");
}

#[test]
fn changed_settings_stop_nothing_when_failed() {
    let p = props();
    let mut model = unloaded("a");
    model.update(&p, Message::Connect);
    let out = model.update(&p, Message::Fail(Status::unavailable("x")));
    assert!(out.cancel.is_some());
    let out = model.changed(&p);
    assert!(out.spawn.is_none() && out.cancel.is_none());
}
