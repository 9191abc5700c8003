//! The bridge itself: a state machine that is told what happens (the host
//! starts up, an audio block arrives, a connect or a write has finished) and
//! answers with what to do next.
//!
//! The caller owns the socket. It performs each [`Action`] and reports the
//! outcome as the next [`Event`], until the bridge answers
//! [`Action::Continue`], which hands control back to the host.
use crate::connection::{
    after_connect, delivered, Address, ConnectionManager, LinkState, RemoteEndpoint, DEFAULT_PORT,
};
use crate::pair::{in_range, ControlPair};
use crate::tracker::{observed, ControlStateTracker};
use crate::wire::{encode, wire_format};
use vstd::prelude::*;

verus! {

/// What the caller reports to the bridge.
#[derive(Clone, Copy, Debug, PartialEq, Eq)]
pub enum Event {
    /// The host initializes the plugin, before the first block.
    Initialize,
    /// An audio block is processed while the two parameters read `channel`
    /// and `value`.
    Block { channel: i32, value: i32 },
    /// The connect attempt that was asked for has ended.
    ConnectFinished { connected: bool },
    /// The write that was asked for has ended: `written` is the number of
    /// bytes it took, or nothing if it failed.
    WriteFinished { written: Option<usize> },
}

/// What the bridge asks of the caller.
#[derive(Debug, PartialEq, Eq)]
pub enum Action {
    /// Nothing more: return to the host and ask it to keep the plugin alive.
    Continue,
    /// Try once to open a connection to the endpoint, then report
    /// [`Event::ConnectFinished`].
    Connect,
    /// Write these bytes to the connection with a single write, then report
    /// [`Event::WriteFinished`].
    Write(Vec<u8>),
}

/// An [`Action`] as the contracts see it.
pub enum Effect {
    Continue,
    Connect,
    Write(Seq<u8>),
}

impl View for Action {
    type V = Effect;

    open spec fn view(&self) -> Effect {
        match self {
            Action::Continue => Effect::Continue,
            Action::Connect => Effect::Connect,
            Action::Write(bytes) => Effect::Write(bytes@),
        }
    }
}

/// What the bridge is waiting for.
#[derive(Clone, Copy, Debug, PartialEq, Eq, Structural)]
pub enum Phase {
    /// Nothing: the host has control.
    Idle,
    /// The outcome of the connect attempt that precedes sending `pair`.
    Connecting { pair: ControlPair },
    /// The outcome of writing `pair`.
    Writing { pair: ControlPair },
    /// The outcome of a connect attempt after which nothing is sent: the one
    /// made at start-up, or the one that follows a failed send.
    Reconnecting,
}

/// The bridge as the contracts see it.
pub struct BridgeState {
    /// The pair last delivered, or the sentinel.
    pub last_sent: ControlPair,
    /// Whether a connection is held.
    pub link: LinkState,
    /// What the bridge is waiting for.
    pub phase: Phase,
}

impl BridgeState {
    /// The state a new bridge starts in.
    pub open spec fn initial() -> BridgeState {
        BridgeState {
            last_sent: ControlPair::sentinel(),
            link: LinkState::Disconnected,
            phase: Phase::Idle,
        }
    }

    /// What is remembered as delivered is the sentinel or a valid pair. A
    /// pair on its way is valid and differs from it. A connect attempt is
    /// under way only without a connection, a write only with one.
    pub open spec fn wf(self) -> bool {
        &&& self.last_sent == ControlPair::sentinel() || self.last_sent.is_valid()
        &&& match self.phase {
            Phase::Idle => true,
            Phase::Connecting { pair } => {
                &&& pair.is_valid()
                &&& pair != self.last_sent
                &&& self.link is Disconnected
            },
            Phase::Writing { pair } => {
                &&& pair.is_valid()
                &&& pair != self.last_sent
                &&& self.link is Connected
            },
            Phase::Reconnecting => self.link is Disconnected,
        }
    }

    /// This state with nothing awaited.
    pub open spec fn idle(self) -> BridgeState {
        BridgeState { phase: Phase::Idle, ..self }
    }

    /// The host starts up: a first connect attempt is made unless a
    /// connection is already held.
    pub open spec fn on_initialize(self) -> (BridgeState, Effect) {
        match self.link {
            LinkState::Connected => (self.idle(), Effect::Continue),
            LinkState::Disconnected => (
                BridgeState { phase: Phase::Reconnecting, ..self },
                Effect::Connect,
            ),
        }
    }

    /// Sending `pair` begins: with a write where a connection is held, with
    /// a connect attempt where none is.
    pub open spec fn begin_send(self, pair: ControlPair) -> (BridgeState, Effect) {
        match self.link {
            LinkState::Connected => (
                BridgeState { phase: Phase::Writing { pair }, ..self },
                Effect::Write(wire_format(pair)),
            ),
            LinkState::Disconnected => (
                BridgeState { phase: Phase::Connecting { pair }, ..self },
                Effect::Connect,
            ),
        }
    }

    /// An audio block arrives. Values outside their ranges are ignored, and
    /// so is a pair that equals the one last delivered. Any other pair is
    /// sent.
    pub open spec fn on_block(self, channel: i32, value: i32) -> (BridgeState, Effect) {
        if !in_range(channel as int, value as int) {
            (self.idle(), Effect::Continue)
        } else {
            match observed(self.last_sent, channel, value) {
                Some(pair) => self.begin_send(pair),
                None => (self.idle(), Effect::Continue),
            }
        }
    }

    /// A connect attempt has ended. Before a send, success leads on to the
    /// write; failure means the send has failed, which is answered by one
    /// more connect attempt. After that attempt, or the one made at
    /// start-up, the block is over whatever the outcome.
    pub open spec fn on_connect_finished(self, connected: bool) -> (BridgeState, Effect) {
        match self.phase {
            Phase::Connecting { pair } => if connected {
                (
                    BridgeState {
                        link: LinkState::Connected,
                        phase: Phase::Writing { pair },
                        ..self
                    },
                    Effect::Write(wire_format(pair)),
                )
            } else {
                (
                    BridgeState {
                        link: LinkState::Disconnected,
                        phase: Phase::Reconnecting,
                        ..self
                    },
                    Effect::Connect,
                )
            },
            Phase::Reconnecting => (
                BridgeState { link: after_connect(connected), phase: Phase::Idle, ..self },
                Effect::Continue,
            ),
            _ => (self.idle(), Effect::Continue),
        }
    }

    /// A write has ended. If it delivered the pair, the pair is remembered
    /// as sent. If not, what is remembered stays, the connection is dropped
    /// and one connect attempt is made.
    pub open spec fn on_write_finished(self, written: Option<usize>) -> (BridgeState, Effect) {
        match self.phase {
            Phase::Writing { pair } => if delivered(
                self.link,
                wire_format(pair).len(),
                written,
            ) {
                (BridgeState { last_sent: pair, phase: Phase::Idle, ..self }, Effect::Continue)
            } else {
                (
                    BridgeState {
                        link: LinkState::Disconnected,
                        phase: Phase::Reconnecting,
                        ..self
                    },
                    Effect::Connect,
                )
            },
            _ => (self.idle(), Effect::Continue),
        }
    }

    /// The state after `event`, and what the caller is asked to do.
    ///
    /// A block or a start-up abandons whatever was awaited. An outcome that
    /// was not awaited changes nothing but that: the bridge falls idle.
    pub open spec fn next(self, event: Event) -> (BridgeState, Effect) {
        match event {
            Event::Initialize => self.on_initialize(),
            Event::Block { channel, value } => self.on_block(channel, value),
            Event::ConnectFinished { connected } => self.on_connect_finished(connected),
            Event::WriteFinished { written } => self.on_write_finished(written),
        }
    }
}

/// Decides, event by event, what the connection to the listener is asked to
/// do so that the listener learns of every change of the control pair.
pub struct Bridge {
    tracker: ControlStateTracker,
    connection: ConnectionManager,
    phase: Phase,
    pending_len: usize,
}

impl View for Bridge {
    type V = BridgeState;

    closed spec fn view(&self) -> BridgeState {
        BridgeState { last_sent: self.tracker@, link: self.connection@, phase: self.phase }
    }
}

impl Bridge {
    /// The state is well formed, and the length kept for a write under way
    /// is that of the bytes that were handed out.
    #[verifier::type_invariant]
    spec fn inv(&self) -> bool {
        &&& self@.wf()
        &&& self.phase matches Phase::Writing { pair } ==> self.pending_len == wire_format(
            pair,
        ).len()
    }

    /// The endpoint this bridge was built for.
    pub closed spec fn address(&self) -> Address {
        self.connection.address()
    }

    /// A bridge to `endpoint` that has delivered nothing and holds no
    /// connection.
    pub fn new(endpoint: RemoteEndpoint) -> (bridge: Self)
        ensures
            bridge@ == BridgeState::initial(),
            bridge.address() == endpoint@,
    {
        Bridge {
            tracker: ControlStateTracker::new(),
            connection: ConnectionManager::new(endpoint),
            phase: Phase::Idle,
            pending_len: 0,
        }
    }

    /// Where the caller is to connect.
    pub fn endpoint(&self) -> (endpoint: &RemoteEndpoint)
        ensures
            endpoint@ == self.address(),
    {
        self.connection.endpoint()
    }

    /// The pair last delivered, or the sentinel before the first delivery.
    pub fn last_sent(&self) -> (pair: ControlPair)
        ensures
            pair == self@.last_sent,
    {
        self.tracker.last_sent()
    }

    /// Whether a connection is held.
    pub fn link(&self) -> (link: LinkState)
        ensures
            link == self@.link,
    {
        self.connection.link()
    }

    /// What the bridge is waiting for.
    pub fn phase(&self) -> (phase: Phase)
        ensures
            phase == self@.phase,
    {
        self.phase
    }

    /// Begins sending `pair`. Nothing may be awaited when this is called.
    fn begin_send(&mut self, pair: ControlPair) -> (action: Action)
        requires
            old(self)@.phase is Idle,
            pair.is_valid(),
            pair != old(self)@.last_sent,
        ensures
            final(self)@.wf(),
            (final(self)@, action@) == old(self)@.begin_send(pair),
            final(self).address() == old(self).address(),
    {
        proof {
            use_type_invariant(&*self);
        }
        if self.connection.needs_connect() {
            self.phase = Phase::Connecting { pair };
            Action::Connect
        } else {
            self.write(pair)
        }
    }

    /// Hands out the bytes of `pair` for writing. Nothing may be awaited
    /// when this is called.
    fn write(&mut self, pair: ControlPair) -> (action: Action)
        requires
            old(self)@.phase is Idle,
            old(self)@.link is Connected,
            pair.is_valid(),
            pair != old(self)@.last_sent,
        ensures
            final(self)@.wf(),
            final(self)@ == (BridgeState { phase: Phase::Writing { pair }, ..old(self)@ }),
            action@ == Effect::Write(wire_format(pair)),
            final(self).address() == old(self).address(),
    {
        proof {
            use_type_invariant(&*self);
        }
        let bytes = encode(pair);
        self.pending_len = bytes.len();
        self.phase = Phase::Writing { pair };
        Action::Write(bytes)
    }

    /// The host initializes the plugin.
    pub fn initialize(&mut self) -> (action: Action)
        ensures
            final(self)@.wf(),
            (final(self)@, action@) == old(self)@.on_initialize(),
            final(self).address() == old(self).address(),
    {
        proof {
            use_type_invariant(&*self);
        }
        if self.connection.needs_connect() {
            self.phase = Phase::Reconnecting;
            Action::Connect
        } else {
            self.phase = Phase::Idle;
            Action::Continue
        }
    }

    /// An audio block is processed while the parameters read `channel` and
    /// `value`.
    pub fn process(&mut self, channel: i32, value: i32) -> (action: Action)
        ensures
            final(self)@.wf(),
            (final(self)@, action@) == old(self)@.on_block(channel, value),
            final(self).address() == old(self).address(),
    {
        proof {
            use_type_invariant(&*self);
        }
        self.phase = Phase::Idle;
        if !ControlPair::check_range(channel, value) {
            return Action::Continue;
        }
        match self.tracker.observe(channel, value) {
            Some(pair) => self.begin_send(pair),
            None => Action::Continue,
        }
    }

    /// A connect attempt has ended.
    pub fn connect_finished(&mut self, connected: bool) -> (action: Action)
        ensures
            final(self)@.wf(),
            (final(self)@, action@) == old(self)@.on_connect_finished(connected),
            final(self).address() == old(self).address(),
    {
        proof {
            use_type_invariant(&*self);
        }
        let awaited = self.phase;
        self.phase = Phase::Idle;
        match awaited {
            Phase::Connecting { pair } => {
                self.connection.connect_finished(connected);
                if connected {
                    self.write(pair)
                } else {
                    self.phase = Phase::Reconnecting;
                    Action::Connect
                }
            },
            Phase::Reconnecting => {
                self.connection.connect_finished(connected);
                Action::Continue
            },
            _ => Action::Continue,
        }
    }

    /// A write has ended.
    pub fn write_finished(&mut self, written: Option<usize>) -> (action: Action)
        ensures
            final(self)@.wf(),
            (final(self)@, action@) == old(self)@.on_write_finished(written),
            final(self).address() == old(self).address(),
    {
        proof {
            use_type_invariant(&*self);
        }
        let awaited = self.phase;
        self.phase = Phase::Idle;
        match awaited {
            Phase::Writing { pair } => {
                if self.connection.send_finished(self.pending_len, written) {
                    self.tracker.commit(pair);
                    Action::Continue
                } else {
                    self.phase = Phase::Reconnecting;
                    Action::Connect
                }
            },
            _ => Action::Continue,
        }
    }

    /// Takes in `event` and answers with what to do next.
    pub fn step(&mut self, event: Event) -> (action: Action)
        ensures
            final(self)@.wf(),
            (final(self)@, action@) == old(self)@.next(event),
            final(self).address() == old(self).address(),
    {
        match event {
            Event::Initialize => self.initialize(),
            Event::Block { channel, value } => self.process(channel, value),
            Event::ConnectFinished { connected } => self.connect_finished(connected),
            Event::WriteFinished { written } => self.write_finished(written),
        }
    }
}

impl Default for Bridge {
    /// A bridge to the default endpoint.
    fn default() -> (bridge: Self)
        ensures
            bridge@ == BridgeState::initial(),
            bridge.address() == (Address { host: "127.0.0.1"@, port: DEFAULT_PORT }),
    {
        Bridge::new(RemoteEndpoint::default())
    }
}

} // verus!
