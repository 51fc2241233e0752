//! The dispatch loop's decisions: from its state and the outcome of the last
//! action to its next state and the next action. Performing the actions
//! (sending, registering, waiting for the platform's next hotkey event) is
//! the caller's part.
use vstd::prelude::*;
use crate::config::{compile, first_duplicate, setup_of, Binding, ConfigError, Konfig};
use crate::keyboard::{key_of_code, VirtualKey};
use crate::message::{command_of, Message, ProtocolMessage};

verus! {

/// Where the loop stands. Startup is `Delivering` the setup messages, then
/// `Registering` one hotkey per binding; `Running` waits for hotkey events;
/// `Stopping` releases every held hotkey; `Stopped` only exits.
#[derive(Clone, Copy, Debug, PartialEq, Eq, Structural)]
pub enum Phase {
    Delivering,
    Registering,
    Running,
    Stopping,
    Stopped,
}

/// The loop's state: its phase, how many setup messages were delivered, how
/// many bindings hold their registration, and the exit code once stopping.
#[derive(Clone, Copy, Debug, PartialEq, Eq, Structural)]
pub struct DispatchState {
    pub phase: Phase,
    pub sent: usize,
    pub acquired: usize,
    pub exit_code: i32,
}

/// What happened since the last action.
#[derive(Clone, Copy, Debug, PartialEq, Eq, Structural)]
pub enum Event {
    /// The last action succeeded.
    Done,
    /// The last action failed: a message could not be delivered, or a
    /// registration conflicted.
    Failed,
    /// The platform reported the hotkey with this id.
    Fired(u64),
}

/// What the caller does next.
#[derive(Clone, Debug, PartialEq, Eq)]
pub enum Action {
    /// Deliver this message.
    Deliver(ProtocolMessage),
    /// Register a hotkey for this binding.
    Register(Binding),
    /// Wait for the platform's next hotkey event.
    Wait,
    /// Release every held hotkey.
    Release,
    /// Terminate with this exit code.
    Exit(i32),
}

/// What a fired hotkey asks for while running.
#[derive(Clone, Debug, PartialEq, Eq)]
pub enum Dispatch {
    /// Send this message.
    Send(ProtocolMessage),
    /// Stop the loop.
    Stop,
    /// The id names no bound key: ignore the event.
    Ignore,
}

/// The command of the first binding on `k`.
pub open spec fn binding_for(bs: Seq<Binding>, k: VirtualKey) -> Option<Message>
    decreases bs.len(),
{
    if bs.len() == 0 {
        None
    } else if bs[0].key == k {
        Some(bs[0].command)
    } else {
        binding_for(bs.drop_first(), k)
    }
}

/// What the hotkey with id `id` asks for: the id is the key's code.
pub open spec fn dispatch_of(bs: Seq<Binding>, id: u64) -> Dispatch {
    if id > 0xFFFF_FFFF {
        Dispatch::Ignore
    } else {
        match key_of_code(id as u32) {
            None => Dispatch::Ignore,
            Some(k) => match binding_for(bs, k) {
                None => Dispatch::Ignore,
                Some(m) => match command_of(m) {
                    None => Dispatch::Stop,
                    Some(p) => Dispatch::Send(p),
                },
            },
        }
    }
}

/// Once every setup message is delivered: register the next binding, or run
/// when all hold their registration.
pub open spec fn register_next(s: DispatchState, bs: Seq<Binding>) -> (DispatchState, Action) {
    if s.acquired < bs.len() {
        (DispatchState { phase: Phase::Registering, ..s }, Action::Register(bs[s.acquired as int]))
    } else {
        (DispatchState { phase: Phase::Running, ..s }, Action::Wait)
    }
}

/// Release everything held, then exit with `code`.
pub open spec fn stop_with(s: DispatchState, code: i32) -> (DispatchState, Action) {
    (DispatchState { phase: Phase::Stopping, exit_code: code, ..s }, Action::Release)
}

/// The state and action at startup.
pub open spec fn initial(setup: Seq<ProtocolMessage>, bs: Seq<Binding>) -> (DispatchState, Action) {
    let s = DispatchState { phase: Phase::Delivering, sent: 0, acquired: 0, exit_code: 0 };
    if setup.len() > 0 {
        (s, Action::Deliver(setup[0]))
    } else {
        register_next(s, bs)
    }
}

/// The loop's decision table. A failed delivery during startup exits at once
/// with code 1, before any hotkey is registered. A conflicting registration
/// releases the hotkeys already held and exits with code 1. While running, a
/// failed delivery stops the loop with code 1, and a bound `Stop` stops it
/// with code 0. A hotkey event outside `Running` is ignored.
pub open spec fn next(s: DispatchState, e: Event, setup: Seq<ProtocolMessage>, bs: Seq<Binding>) -> (
    DispatchState,
    Action,
) {
    match s.phase {
        Phase::Delivering => match e {
            Event::Done => {
                let s1 = DispatchState { sent: (s.sent + 1) as usize, ..s };
                if s1.sent < setup.len() {
                    (s1, Action::Deliver(setup[s1.sent as int]))
                } else {
                    register_next(s1, bs)
                }
            },
            Event::Failed => (DispatchState { phase: Phase::Stopped, exit_code: 1, ..s }, Action::Exit(1)),
            Event::Fired(_) => (s, Action::Wait),
        },
        Phase::Registering => match e {
            Event::Done => register_next(DispatchState { acquired: (s.acquired + 1) as usize, ..s }, bs),
            Event::Failed => stop_with(s, 1),
            Event::Fired(_) => (s, Action::Wait),
        },
        Phase::Running => match e {
            Event::Done => (s, Action::Wait),
            Event::Failed => stop_with(s, 1),
            Event::Fired(id) => match dispatch_of(bs, id) {
                Dispatch::Send(p) => (s, Action::Deliver(p)),
                Dispatch::Stop => stop_with(s, 0),
                Dispatch::Ignore => (s, Action::Wait),
            },
        },
        Phase::Stopping => (DispatchState { phase: Phase::Stopped, ..s }, Action::Exit(s.exit_code)),
        Phase::Stopped => (s, Action::Exit(s.exit_code)),
    }
}

/// The states the loop can be in: setup messages are delivered before any
/// registration, and every binding holds its registration while running.
pub open spec fn state_wf(s: DispatchState, setup: Seq<ProtocolMessage>, bs: Seq<Binding>) -> bool {
    &&& s.sent <= setup.len()
    &&& s.acquired <= bs.len()
    &&& match s.phase {
        Phase::Delivering => s.sent < setup.len() && s.acquired == 0,
        Phase::Registering => s.sent == setup.len() && s.acquired < bs.len(),
        Phase::Running => s.sent == setup.len() && s.acquired == bs.len(),
        _ => true,
    }
}

/// The loop's decisions keep it within its states, and the startup state is
/// one of them.
pub proof fn lemma_next_preserves_wf(
    s: DispatchState,
    e: Event,
    setup: Seq<ProtocolMessage>,
    bs: Seq<Binding>,
)
    requires
        state_wf(s, setup, bs),
    ensures
        state_wf(next(s, e, setup, bs).0, setup, bs),
        state_wf(initial(setup, bs).0, setup, bs),
{
}

/// No hotkey is registered before every setup message has been delivered.
pub proof fn lemma_register_after_setup(
    s: DispatchState,
    e: Event,
    setup: Seq<ProtocolMessage>,
    bs: Seq<Binding>,
)
    requires
        state_wf(s, setup, bs),
    ensures
        next(s, e, setup, bs).1 is Register ==> next(s, e, setup, bs).0.sent == setup.len(),
        initial(setup, bs).1 is Register ==> setup.len() == 0,
{
}

/// A delivery that fails during startup ends the process with a non-zero
/// code, holding no registration.
pub proof fn lemma_startup_failure_exits(s: DispatchState, setup: Seq<ProtocolMessage>, bs: Seq<Binding>)
    requires
        state_wf(s, setup, bs),
        s.phase == Phase::Delivering,
    ensures
        next(s, Event::Failed, setup, bs).1 == Action::Exit(1),
        next(s, Event::Failed, setup, bs).0.acquired == 0,
        next(s, Event::Failed, setup, bs).0.phase == Phase::Stopped,
{
}

proof fn lemma_binding_for_skip(bs: Seq<Binding>, i: int, k: VirtualKey)
    requires
        0 <= i < bs.len(),
        bs[i].key != k,
    ensures
        binding_for(bs.subrange(i, bs.len() as int), k) == binding_for(bs.subrange(i + 1, bs.len() as int), k),
{
    assert(bs.subrange(i, bs.len() as int).drop_first() =~= bs.subrange(i + 1, bs.len() as int));
}

/// The command of the first binding on `k`, if any.
pub fn binding_of(bindings: &Vec<Binding>, k: VirtualKey) -> (r: Option<Message>)
    ensures
        r == binding_for(bindings@, k),
{
    let mut i: usize = 0;
    assert(bindings@.subrange(0, bindings@.len() as int) =~= bindings@);
    while i < bindings.len()
        invariant
            i <= bindings@.len(),
            binding_for(bindings@, k) == binding_for(bindings@.subrange(i as int, bindings@.len() as int), k),
        decreases bindings@.len() - i,
    {
        if bindings[i].key == k {
            return Some(bindings[i].command);
        }
        proof {
            lemma_binding_for_skip(bindings@, i as int, k);
        }
        i = i + 1;
    }
    None
}

/// What the hotkey with id `id` asks for while running.
pub fn dispatch(bindings: &Vec<Binding>, id: u64) -> (r: Dispatch)
    ensures
        r == dispatch_of(bindings@, id),
{
    if id > 0xFFFF_FFFF {
        return Dispatch::Ignore;
    }
    match VirtualKey::from_code(id as u32) {
        None => Dispatch::Ignore,
        Some(k) => match binding_of(bindings, k) {
            None => Dispatch::Ignore,
            Some(m) => match m.command() {
                None => Dispatch::Stop,
                Some(p) => Dispatch::Send(p),
            },
        },
    }
}

/// The dispatch loop: its state, and the compiled configuration it runs.
#[derive(Debug)]
pub struct Dispatcher {
    state: DispatchState,
    setup: Vec<ProtocolMessage>,
    bindings: Vec<Binding>,
}

impl Dispatcher {
    /// The loop's state.
    pub closed spec fn spec_state(&self) -> DispatchState {
        self.state
    }

    /// The setup messages, in order.
    pub closed spec fn spec_setup(&self) -> Seq<ProtocolMessage> {
        self.setup@
    }

    /// The bindings.
    pub closed spec fn spec_bindings(&self) -> Seq<Binding> {
        self.bindings@
    }

    /// Whether the loop is in one of its states.
    pub open spec fn wf(&self) -> bool {
        state_wf(self.spec_state(), self.spec_setup(), self.spec_bindings())
    }

    /// Compiles `cfg` and returns the loop with its first action; fails as
    /// compilation does, before anything is sent or registered.
    pub fn start(cfg: &Konfig) -> (r: Result<(Dispatcher, Action), ConfigError>)
        ensures
            r is Ok <==> first_duplicate(cfg.keys@) is None,
            r matches Err(ConfigError::DuplicateBinding(k)) ==> first_duplicate(cfg.keys@) == Some(k),
            r matches Ok((d, a)) ==> {
                &&& d.wf()
                &&& d.spec_setup() == setup_of(*cfg)
                &&& d.spec_bindings() == cfg.keys@
                &&& (d.spec_state(), a) == initial(setup_of(*cfg), cfg.keys@)
            },
    {
        let compiled = match compile(cfg) {
            Ok(c) => c,
            Err(e) => return Err(e),
        };
        let state = DispatchState { phase: Phase::Delivering, sent: 0, acquired: 0, exit_code: 0 };
        let mut d = Dispatcher { state, setup: compiled.setup, bindings: compiled.bindings };
        let a = if d.setup.len() > 0 {
            Action::Deliver(d.setup[0].duplicate())
        } else {
            d.register_next()
        };
        Ok((d, a))
    }

    /// The loop's state.
    pub fn state(&self) -> (r: DispatchState)
        ensures
            r == self.spec_state(),
    {
        self.state
    }

    fn register_next(&mut self) -> (a: Action)
        requires
            old(self).state.acquired <= old(self).bindings@.len(),
        ensures
            (final(self).state, a) == register_next(old(self).state, old(self).bindings@),
            final(self).setup == old(self).setup,
            final(self).bindings == old(self).bindings,
    {
        if self.state.acquired < self.bindings.len() {
            self.state.phase = Phase::Registering;
            Action::Register(self.bindings[self.state.acquired])
        } else {
            self.state.phase = Phase::Running;
            Action::Wait
        }
    }

    fn stop_with(&mut self, code: i32) -> (a: Action)
        ensures
            (final(self).state, a) == stop_with(old(self).state, code),
            final(self).setup == old(self).setup,
            final(self).bindings == old(self).bindings,
    {
        self.state.phase = Phase::Stopping;
        self.state.exit_code = code;
        Action::Release
    }

    /// Takes the outcome of the last action and returns the next one, as the
    /// decision table `next` says.
    pub fn step(&mut self, e: Event) -> (a: Action)
        requires
            old(self).wf(),
        ensures
            final(self).wf(),
            (final(self).spec_state(), a) == next(old(self).spec_state(), e, old(self).spec_setup(), old(self).spec_bindings()),
            final(self).spec_setup() == old(self).spec_setup(),
            final(self).spec_bindings() == old(self).spec_bindings(),
    {
        proof {
            lemma_next_preserves_wf(self.state, e, self.setup@, self.bindings@);
        }
        match self.state.phase {
            Phase::Delivering => match e {
                Event::Done => {
                    let n = self.setup.len();
                    assert(self.state.sent < n);
                    self.state.sent = self.state.sent + 1;
                    if self.state.sent < self.setup.len() {
                        Action::Deliver(self.setup[self.state.sent].duplicate())
                    } else {
                        self.register_next()
                    }
                },
                Event::Failed => {
                    self.state.phase = Phase::Stopped;
                    self.state.exit_code = 1;
                    Action::Exit(1)
                },
                Event::Fired(_) => Action::Wait,
            },
            Phase::Registering => match e {
                Event::Done => {
                    let n = self.bindings.len();
                    assert(self.state.acquired < n);
                    self.state.acquired = self.state.acquired + 1;
                    self.register_next()
                },
                Event::Failed => self.stop_with(1),
                Event::Fired(_) => Action::Wait,
            },
            Phase::Running => match e {
                Event::Done => Action::Wait,
                Event::Failed => self.stop_with(1),
                Event::Fired(id) => match dispatch(&self.bindings, id) {
                    Dispatch::Send(p) => Action::Deliver(p),
                    Dispatch::Stop => self.stop_with(0),
                    Dispatch::Ignore => Action::Wait,
                },
            },
            Phase::Stopping => {
                self.state.phase = Phase::Stopped;
                Action::Exit(self.state.exit_code)
            },
            Phase::Stopped => Action::Exit(self.state.exit_code),
        }
    }
}

} // verus!
