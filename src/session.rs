//! The client session: which server it watches, whether a polling task runs,
//! and the history gathered from the readings that task delivers.
//!
//! The session decides; it does no I/O. Starting a task is handed back to the
//! caller as a [`Spawn`], with the registration that the task must be made
//! abortable with; stopping one is handed back as the `AbortHandle` that the
//! caller must abort.

use crate::bytesize::ByteSizeExt;
use crate::protocol::{CpuResponse, MemoryResponse, NetworkResponse, Pack};
use crate::window::{latest, lemma_push_keeps_latest, window_push, WindowAggregator};
use futures::future::{AbortHandle, AbortRegistration};
use std::time::Duration;
use tonic::Status;
use vstd::prelude::*;

verus! {

/// The status of a failed call, as the transport reports it.
#[verifier::external_type_specification]
#[verifier::external_body]
pub struct ExStatus(Status);

/// The address of the server that a session watches.
#[derive(Clone, Debug)]
pub struct Common {
    connection_address: String,
}

impl Common {
    pub closed spec fn address(self) -> Seq<char> {
        self.connection_address@
    }

    pub fn new(address: String) -> (r: Common)
        ensures
            r.address() == address@,
    {
        Common { connection_address: address }
    }

    pub fn connection_address(&self) -> (r: &String)
        ensures
            r@ == self.address(),
    {
        &self.connection_address
    }
}

/// Settings of a session.
pub struct Props {
    /// The pause between two polls of the server.
    pub update_interval: Duration,
    /// Whether a new session connects at once.
    pub auto_connect: bool,
    /// The capacity of the history windows.
    pub window_size: usize,
}

/// The capacity of the history windows unless set otherwise.
pub const DEFAULT_WINDOW_SIZE: usize = 60;

impl Props {
    /// Settings that poll every `update_interval`, do not connect at once and
    /// keep the default history.
    pub fn new(update_interval: Duration) -> (r: Props)
        ensures
            r.update_interval == update_interval,
            !r.auto_connect,
            r.window_size == DEFAULT_WINDOW_SIZE,
    {
        Props { update_interval, auto_connect: false, window_size: DEFAULT_WINDOW_SIZE }
    }
}

/// The state of a session.
pub enum Model {
    /// No task runs; the address may still change.
    Unloaded(Common),
    /// A polling task runs and nothing has arrived from it yet.
    Connected(Common, AbortHandle),
    /// The last task failed with the status held.
    Failed(Common, Status),
    /// A polling task runs and has delivered readings.
    Populated {
        active: AbortHandle,
        /// Temperatures, in thousandths of a degree Celsius; absent when the
        /// first reading had none.
        cpu_temp_window: Option<WindowAggregator>,
        /// Free memory, in kibibytes.
        free_mem_window: WindowAggregator,
        usage: Vec<u32>,
        memory_response: MemoryResponse,
        network_response: NetworkResponse,
        common: Common,
    },
}

/// What can happen to a session.
pub enum Message {
    /// The polling task failed.
    Fail(Status),
    /// The polling task delivered a reading.
    Populate(CpuResponse, NetworkResponse, MemoryResponse),
    /// The user asked to connect, or to disconnect.
    Connect,
    /// The user typed a new address.
    ChangeDestination(String),
}

/// A polling task that the caller is to start: it polls `address` every
/// `update_interval`, made abortable with `registration`.
pub struct Spawn {
    pub address: String,
    pub update_interval: Duration,
    pub registration: AbortRegistration,
}

/// What a step asks of its caller.
pub struct Update {
    /// Whether the view must be drawn again.
    pub redraw: bool,
    /// A task to start, if any.
    pub spawn: Option<Spawn>,
    /// The handle of a task that the caller must abort, if any, before it
    /// starts the task in `spawn`.
    pub cancel: Option<AbortHandle>,
}

/// Nothing is drawn, started or stopped.
pub open spec fn calm(out: Update) -> bool {
    !out.redraw && out.spawn is None && out.cancel is None
}

/// The view is drawn again; nothing is started or stopped.
pub open spec fn redrawn(out: Update) -> bool {
    out.redraw && out.spawn is None && out.cancel is None
}

/// The view is drawn again and the task of `h` is stopped; nothing starts.
pub open spec fn stopped(out: Update, h: AbortHandle) -> bool {
    out.redraw && out.spawn is None && out.cancel == Some(h)
}

/// The sample that a memory reading adds to the free-memory history.
pub open spec fn free_sample(memory: MemoryResponse) -> i64 {
    (memory.free / 1024) as i64
}

/// `w` is a new window of capacity `cap` that holds `v` pushed onto nothing.
pub open spec fn seeded(w: WindowAggregator, cap: usize, v: i64) -> bool {
    &&& w@ == window_push(cap as nat, Seq::empty(), v)
    &&& w.cap() == cap
}

/// `w2` is `w1` with `v` pushed.
pub open spec fn pushed(w1: WindowAggregator, w2: WindowAggregator, v: i64) -> bool {
    &&& w2@ == window_push(w1.cap(), w1@, v)
    &&& w2.cap() == w1.cap()
}

/// `out` asks to start a task that polls the address of `c`.
pub open spec fn spawns(props: Props, c: Common, out: Update) -> bool {
    match out.spawn {
        Some(sp) => sp.address@ == c.address() && sp.update_interval == props.update_interval,
        None => false,
    }
}

/// The address of a state.
pub open spec fn common_of(s: Model) -> Common {
    match s {
        Model::Unloaded(c) => c,
        Model::Connected(c, _) => c,
        Model::Failed(c, _) => c,
        Model::Populated { common, .. } => common,
    }
}

/// The state stays as it was; nothing is drawn, started or stopped.
pub open spec fn ignored(s: Model, t: Model, out: Update) -> bool {
    t == s && calm(out)
}

/// The step on `Connect`: `Unloaded` starts a task; `Populated` stops its
/// task and, like `Failed`, goes back to `Unloaded`; `Connected` ignores it.
pub open spec fn connect_step(props: Props, s: Model, t: Model, out: Update) -> bool {
    match s {
        Model::Unloaded(c) => {
            &&& t is Connected
            &&& common_of(t) == c
            &&& out.redraw
            &&& spawns(props, c, out)
            &&& out.cancel is None
        },
        Model::Connected(..) => ignored(s, t, out),
        Model::Failed(c, _) => t == Model::Unloaded(c) && redrawn(out),
        Model::Populated { common, active, .. } => {
            t == Model::Unloaded(common) && stopped(out, active)
        },
    }
}

/// The step on `Fail(e)`: a running task is stopped and the session ends
/// in `Failed(address, e)`.
pub open spec fn fail_step(s: Model, e: Status, t: Model, out: Update) -> bool {
    match s {
        Model::Connected(c, h) => t == Model::Failed(c, e) && stopped(out, h),
        Model::Populated { common, active, .. } => {
            t == Model::Failed(common, e) && stopped(out, active)
        },
        _ => ignored(s, t, out),
    }
}

/// The step on `ChangeDestination(d)`: only `Unloaded` takes the new address.
pub open spec fn change_step(s: Model, d: String, t: Model, out: Update) -> bool {
    match s {
        Model::Unloaded(_) => {
            &&& t is Unloaded
            &&& common_of(t).address() == d@
            &&& calm(out)
        },
        _ => ignored(s, t, out),
    }
}

/// The history is seeded from the first reading.
pub open spec fn seeded_from(
    props: Props,
    cpu: CpuResponse,
    network: NetworkResponse,
    memory: MemoryResponse,
    c: Common,
    h: AbortHandle,
    t: Model,
) -> bool {
    match t {
        Model::Populated {
            active,
            cpu_temp_window,
            free_mem_window,
            usage,
            memory_response,
            network_response,
            common,
        } => {
            &&& active == h
            &&& common == c
            &&& usage == cpu.usage
            &&& memory_response == memory
            &&& network_response == network
            &&& seeded(free_mem_window, props.window_size, free_sample(memory))
            &&& match cpu.temperature {
                Some(x) => match cpu_temp_window {
                    Some(w) => seeded(w, props.window_size, x),
                    None => false,
                },
                None => cpu_temp_window is None,
            }
        },
        _ => false,
    }
}

/// The history `s` is extended by a later reading.
pub open spec fn extended_by(
    cpu: CpuResponse,
    network: NetworkResponse,
    memory: MemoryResponse,
    s: Model,
    t: Model,
) -> bool {
    match (s, t) {
        (
            Model::Populated {
                active: h1,
                cpu_temp_window: tw1,
                free_mem_window: fw1,
                common: c1,
                ..
            },
            Model::Populated {
                active: h2,
                cpu_temp_window: tw2,
                free_mem_window: fw2,
                usage,
                memory_response,
                network_response,
                common: c2,
            },
        ) => {
            &&& h2 == h1
            &&& c2 == c1
            &&& usage == cpu.usage
            &&& memory_response == memory
            &&& network_response == network
            &&& pushed(fw1, fw2, free_sample(memory))
            &&& match (tw1, cpu.temperature) {
                (Some(w1), Some(x)) => match tw2 {
                    Some(w2) => pushed(w1, w2, x),
                    None => false,
                },
                _ => tw2 == tw1,
            }
        },
        _ => false,
    }
}

/// The step on a reading: it seeds the history in `Connected`, extends it in
/// `Populated`, and is stale anywhere else.
pub open spec fn populate_step(
    props: Props,
    s: Model,
    cpu: CpuResponse,
    network: NetworkResponse,
    memory: MemoryResponse,
    t: Model,
    out: Update,
) -> bool {
    match s {
        Model::Connected(c, h) => {
            seeded_from(props, cpu, network, memory, c, h, t) && redrawn(out)
        },
        Model::Populated { .. } => extended_by(cpu, network, memory, s, t) && redrawn(out),
        _ => ignored(s, t, out),
    }
}

/// How a session in state `s` moves to `t` on `msg`, asking `out` of its caller.
pub open spec fn transition(props: Props, s: Model, msg: Message, t: Model, out: Update) -> bool {
    match msg {
        Message::Connect => connect_step(props, s, t, out),
        Message::Fail(e) => fail_step(s, e, t, out),
        Message::ChangeDestination(d) => change_step(s, d, t, out),
        Message::Populate(cpu, network, memory) => populate_step(
            props,
            s,
            cpu,
            network,
            memory,
            t,
            out,
        ),
    }
}

fn quiet() -> (r: Update)
    ensures
        calm(r),
{
    Update { redraw: false, spawn: None, cancel: None }
}

fn redraw() -> (r: Update)
    ensures
        redrawn(r),
{
    Update { redraw: true, spawn: None, cancel: None }
}

fn stop(h: AbortHandle) -> (r: Update)
    ensures
        stopped(r, h),
{
    Update { redraw: true, spawn: None, cancel: Some(h) }
}

impl Model {
    fn handle_fail_message(self, e: Status) -> (r: (Model, Update))
        ensures
            fail_step(self, e, r.0, r.1),
    {
        match self {
            Model::Connected(common, active) => (Model::Failed(common, e), stop(active)),
            Model::Populated { active, common, .. } => (Model::Failed(common, e), stop(active)),
            other => (other, quiet()),
        }
    }

    fn handle_populate_message(
        self,
        props: &Props,
        cpu: CpuResponse,
        network: NetworkResponse,
        memory: MemoryResponse,
    ) -> (r: (Model, Update))
        ensures
            populate_step(*props, self, cpu, network, memory, r.0, r.1),
    {
        let free = memory.free.to_bytes().as_kibibytes() as i64;
        match self {
            Model::Connected(common, active) => {
                let cpu_temp_window = match cpu.temperature {
                    Some(x) => Some(WindowAggregator::with_first(props.window_size, x)),
                    None => None,
                };
                let next = Model::Populated {
                    active,
                    cpu_temp_window,
                    free_mem_window: WindowAggregator::with_first(props.window_size, free),
                    usage: cpu.usage,
                    memory_response: memory,
                    network_response: network,
                    common,
                };
                (next, redraw())
            },
            Model::Populated {
                active,
                cpu_temp_window,
                mut free_mem_window,
                common,
                ..
            } => {
                let cpu_temp_window = match (cpu_temp_window, cpu.temperature) {
                    (Some(mut window), Some(x)) => {
                        window.push(x);
                        Some(window)
                    },
                    (window, _) => window,
                };
                free_mem_window.push(free);
                let next = Model::Populated {
                    active,
                    cpu_temp_window,
                    free_mem_window,
                    usage: cpu.usage,
                    memory_response: memory,
                    network_response: network,
                    common,
                };
                (next, redraw())
            },
            other => (other, quiet()),
        }
    }

    fn handle_connect_message(self, props: &Props) -> (r: (Model, Update))
        ensures
            connect_step(*props, self, r.0, r.1),
    {
        match self {
            Model::Unloaded(common) => {
                let (handle, registration) = AbortHandle::new_pair();
                let spawn = Spawn {
                    address: common.connection_address.clone(),
                    update_interval: props.update_interval,
                    registration,
                };
                let out = Update { redraw: true, spawn: Some(spawn), cancel: None };
                (Model::Connected(common, handle), out)
            },
            Model::Failed(common, _) => (Model::Unloaded(common), redraw()),
            Model::Populated { common, active, .. } => (Model::Unloaded(common), stop(active)),
            other => (other, quiet()),
        }
    }

    fn handle_change_message(self, destination: String) -> (r: (Model, Update))
        ensures
            change_step(self, destination, r.0, r.1),
    {
        match self {
            Model::Unloaded(_) => (
                Model::Unloaded(Common { connection_address: destination }),
                quiet(),
            ),
            other => (other, quiet()),
        }
    }

    /// The state that follows this one on `msg`, and what the caller must do.
    pub fn step(self, props: &Props, msg: Message) -> (r: (Model, Update))
        ensures
            transition(*props, self, msg, r.0, r.1),
    {
        match msg {
            Message::Fail(e) => self.handle_fail_message(e),
            Message::Populate(cpu, network, memory) => self.handle_populate_message(
                props,
                cpu,
                network,
                memory,
            ),
            Message::Connect => self.handle_connect_message(props),
            Message::ChangeDestination(d) => self.handle_change_message(d),
        }
    }

    /// Moves the session on `msg`; returns what the caller must do.
    pub fn update(&mut self, props: &Props, msg: Message) -> (r: Update)
        ensures
            transition(*props, *old(self), msg, *final(self), r),
    {
        let mut current = Model::Unloaded(Common { connection_address: String::new() });
        std::mem::swap(self, &mut current);
        let (next, out) = current.step(props, msg);
        *self = next;
        out
    }
}

/// The address that a new session watches.
pub const DEFAULT_ADDRESS: &'static str = "http://orangepi:50525";

/// The state of a new session.
pub open spec fn is_initial(s: Model) -> bool {
    s is Unloaded && common_of(s).address() == DEFAULT_ADDRESS@
}

/// The step when the settings change: a running task is stopped and
/// replaced by one that uses the new settings; the history is kept.
pub open spec fn restart_step(props: Props, s: Model, t: Model, out: Update) -> bool {
    match s {
        Model::Connected(c, h) => {
            &&& t is Connected
            &&& common_of(t) == c
            &&& !out.redraw
            &&& spawns(props, c, out)
            &&& out.cancel == Some(h)
        },
        Model::Populated {
            cpu_temp_window,
            free_mem_window,
            usage,
            memory_response,
            network_response,
            common,
            active,
        } => {
            &&& match t {
                Model::Populated {
                    cpu_temp_window: tw,
                    free_mem_window: fw,
                    usage: u,
                    memory_response: mr,
                    network_response: nr,
                    common: c,
                    ..
                } => tw == cpu_temp_window && fw == free_mem_window && u == usage
                    && mr == memory_response && nr == network_response && c == common,
                _ => false,
            }
            &&& !out.redraw
            &&& spawns(props, common, out)
            &&& out.cancel == Some(active)
        },
        _ => ignored(s, t, out),
    }
}

impl Default for Model {
    fn default() -> (r: Model)
        ensures
            is_initial(r),
    {
        Model::Unloaded(Common { connection_address: DEFAULT_ADDRESS.to_string() })
    }
}

impl Model {
    /// A new session; it connects at once when `props` asks for it.
    pub fn create(props: &Props) -> (r: (Model, Update))
        ensures
            props.auto_connect ==> exists|s: Model| is_initial(s) && #[trigger] transition(*props, s, Message::Connect, r.0, r.1),
            !props.auto_connect ==> is_initial(r.0) && ignored(r.0, r.0, r.1),
    {
        let model = Model::default();
        if props.auto_connect {
            let ghost s = model;
            let r = model.step(props, Message::Connect);
            assert(transition(*props, s, Message::Connect, r.0, r.1));
            r
        } else {
            (model, quiet())
        }
    }

    /// Restarts the running task, if any, so that it uses `props`.
    pub fn changed(&mut self, props: &Props) -> (r: Update)
        ensures
            restart_step(*props, *old(self), *final(self), r),
    {
        let mut current = Model::Unloaded(Common { connection_address: String::new() });
        std::mem::swap(self, &mut current);
        let (next, out) = match current {
            Model::Connected(common, active) => {
                let (handle, spawn) = start(props, &common);
                let out = Update { redraw: false, spawn: Some(spawn), cancel: Some(active) };
                (Model::Connected(common, handle), out)
            },
            Model::Populated {
                active,
                cpu_temp_window,
                free_mem_window,
                usage,
                memory_response,
                network_response,
                common,
            } => {
                let (handle, spawn) = start(props, &common);
                let next = Model::Populated {
                    active: handle,
                    cpu_temp_window,
                    free_mem_window,
                    usage,
                    memory_response,
                    network_response,
                    common,
                };
                (next, Update { redraw: false, spawn: Some(spawn), cancel: Some(active) })
            },
            other => (other, quiet()),
        };
        *self = next;
        out
    }

    /// The handle of the running task, if any.
    pub fn active(&self) -> (r: Option<&AbortHandle>)
        ensures
            r == match self {
                Model::Connected(_, h) => Some(h),
                Model::Populated { active, .. } => Some(active),
                _ => None::<&AbortHandle>,
            },
    {
        match self {
            Model::Connected(_, h) => Some(h),
            Model::Populated { active, .. } => Some(active),
            _ => None,
        }
    }

    /// The address that the session watches.
    pub fn common(&self) -> (r: &Common)
        ensures
            *r == common_of(*self),
    {
        match self {
            Model::Unloaded(c) => c,
            Model::Connected(c, _) => c,
            Model::Failed(c, _) => c,
            Model::Populated { common, .. } => common,
        }
    }
}

/// A new abort pair, and the task to start against the address of `common`.
fn start(props: &Props, common: &Common) -> (r: (AbortHandle, Spawn))
    ensures
        r.1.address@ == common.address(),
        r.1.update_interval == props.update_interval,
{
    let (handle, registration) = AbortHandle::new_pair();
    let spawn = Spawn {
        address: common.connection_address.clone(),
        update_interval: props.update_interval,
        registration,
    };
    (handle, spawn)
}

/// The message that a reply of the server gives.
pub open spec fn message_of(reply: Result<Pack, Status>) -> Message {
    match reply {
        Ok(p) => Message::Populate(p.cpu, p.network, p.memory),
        Err(e) => Message::Fail(e),
    }
}

impl From<Result<Pack, Status>> for Message {
    fn from(value: Result<Pack, Status>) -> (r: Message) {
        match value {
            Ok(p) => Message::Populate(p.cpu, p.network, p.memory),
            Err(e) => Message::Fail(e),
        }
    }
}

impl vstd::std_specs::convert::FromSpecImpl<Result<Pack, Status>> for Message {
    open spec fn obeys_from_spec() -> bool {
        true
    }

    open spec fn from_spec(v: Result<Pack, Status>) -> Message {
        message_of(v)
    }
}

/// Connecting from `Unloaded(a)` gives `Connected(a, h)` and starts a task
/// against `a`; the first reading then gives `Populated` with the same `a`
/// and `h`, and a history seeded from that reading.
pub proof fn lemma_connect_then_first_reading(
    props: Props,
    a: Common,
    s1: Model,
    out1: Update,
    cpu: CpuResponse,
    network: NetworkResponse,
    memory: MemoryResponse,
    s2: Model,
    out2: Update,
)
    requires
        transition(props, Model::Unloaded(a), Message::Connect, s1, out1),
        transition(props, s1, Message::Populate(cpu, network, memory), s2, out2),
    ensures
        s1 is Connected,
        common_of(s1) == a,
        spawns(props, a, out1),
        match s1 {
            Model::Connected(_, h) => seeded_from(props, cpu, network, memory, a, h, s2),
            _ => false,
        },
{
}

/// Connecting while readings arrive stops the session: it hands back the
/// running task's handle, the one handle to abort, goes back to `Unloaded`
/// with the same address and starts nothing.
pub proof fn lemma_connect_stops_streaming(props: Props, s: Model, t: Model, out: Update)
    requires
        s is Populated,
        transition(props, s, Message::Connect, t, out),
    ensures
        t == Model::Unloaded(common_of(s)),
        out.cancel == handle_of(s),
        out.cancel is Some,
        out.spawn is None,
{
}

/// The handle of the task that a state holds, if any.
pub open spec fn handle_of(s: Model) -> Option<AbortHandle> {
    match s {
        Model::Connected(_, h) => Some(h),
        Model::Populated { active, .. } => Some(active),
        _ => None,
    }
}

/// At most one task runs for a session: a step that lets go of the held
/// handle hands exactly that handle back to be aborted, a step hands back no
/// other handle, and a task starts only when none is held.
pub proof fn lemma_one_task_at_a_time(props: Props, s: Model, msg: Message, t: Model, out: Update)
    requires
        transition(props, s, msg, t, out),
    ensures
        handle_of(s) is Some && handle_of(t) != handle_of(s) ==> out.cancel == handle_of(s),
        out.cancel is Some ==> out.cancel == handle_of(s) && handle_of(t) is None,
        handle_of(s) == handle_of(t) ==> out.cancel is None,
        out.spawn is Some ==> handle_of(s) is None && t is Connected,
{
}

/// When the settings change, the running task, if any, is handed back to be
/// aborted and exactly one new task is asked for; without a running task
/// nothing is stopped or started.
pub proof fn lemma_restart_replaces_the_task(props: Props, s: Model, t: Model, out: Update)
    requires
        restart_step(props, s, t, out),
    ensures
        out.cancel == handle_of(s),
        handle_of(s) is Some <==> out.spawn is Some,
        handle_of(s) is Some ==> handle_of(t) is Some,
{
}

/// A failure of the transport is ignored in `Unloaded`, and ends a running
/// session in `Failed` with its address and that failure. (In `Failed` a
/// further failure is ignored: the first one stays.)
pub proof fn lemma_failure_ends_session(props: Props, s: Model, e: Status, t: Model, out: Update)
    requires
        transition(props, s, Message::Fail(e), t, out),
    ensures
        s is Unloaded ==> t == s,
        s is Connected || s is Populated ==> t == Model::Failed(common_of(s), e),
        s is Failed ==> t == s,
{
}

/// The free-memory history of `s` holds the latest `cap` of `samples`: a
/// session that has just connected holds no samples yet.
pub open spec fn free_history(s: Model, cap: usize, samples: Seq<i64>) -> bool {
    match s {
        Model::Connected(..) => samples.len() == 0,
        Model::Populated { free_mem_window, .. } => {
            free_mem_window@ == latest(cap as nat, samples) && free_mem_window.cap() == cap
        },
        _ => false,
    }
}

/// The temperature history of `s` holds the latest `cap` of `temps`.
pub open spec fn temperature_history(s: Model, cap: usize, temps: Seq<i64>) -> bool {
    match s {
        Model::Connected(..) => temps.len() == 0,
        Model::Populated { cpu_temp_window: Some(w), .. } => {
            w@ == latest(cap as nat, temps) && w.cap() == cap
        },
        _ => false,
    }
}

/// Each reading of a running session adds its free memory to the history,
/// which then holds the latest `window_size` samples, oldest first.
pub proof fn lemma_free_history_keeps_latest(
    props: Props,
    s: Model,
    samples: Seq<i64>,
    cpu: CpuResponse,
    network: NetworkResponse,
    memory: MemoryResponse,
    t: Model,
    out: Update,
)
    requires
        free_history(s, props.window_size, samples),
        transition(props, s, Message::Populate(cpu, network, memory), t, out),
    ensures
        free_history(t, props.window_size, samples.push(free_sample(memory))),
{
    if samples.len() == 0 {
        assert(samples =~= Seq::<i64>::empty());
    }
    lemma_push_keeps_latest(props.window_size as nat, samples, free_sample(memory));
}

/// Each reading with a temperature adds it to the temperature history of a
/// session whose first reading had one; the history then holds the latest
/// `window_size` temperatures, oldest first.
pub proof fn lemma_temperature_history_keeps_latest(
    props: Props,
    s: Model,
    temps: Seq<i64>,
    cpu: CpuResponse,
    network: NetworkResponse,
    memory: MemoryResponse,
    t: Model,
    out: Update,
)
    requires
        temperature_history(s, props.window_size, temps),
        cpu.temperature is Some,
        transition(props, s, Message::Populate(cpu, network, memory), t, out),
    ensures
        temperature_history(t, props.window_size, temps.push(cpu.temperature->0)),
{
    if temps.len() == 0 {
        assert(temps =~= Seq::<i64>::empty());
    }
    lemma_push_keeps_latest(props.window_size as nat, temps, cpu.temperature->0);
}

} // verus!
