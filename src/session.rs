use vstd::prelude::*;
use crate::input_pool::{InputPool, after_detect, is_change};
use crate::value::{InputValue, Json};

verus! {

/// Where a session stands in its life.
#[derive(Debug, Clone, Copy, PartialEq, Eq, Structural)]
pub enum Phase {
    /// Accepted, waiting for the client's first `init` message.
    Uninitialized,
    /// Seeded by `init`; handles updates, probes and ticks.
    Active,
    /// Torn down; nothing more is processed.
    Closed,
}

/// What the connection delivered, or the periodic timer.
pub enum Frame {
    /// A protocol message; its text is decoded by the caller.
    Text,
    /// A binary frame.
    Binary(Vec<u8>),
    /// A liveness probe from the client, with its payload.
    Ping(Vec<u8>),
    /// The client's answer to a probe.
    Pong,
    /// The client closed the connection, with an optional reason.
    Close(Option<String>),
    /// Reading from the connection failed.
    ReadError,
    /// The heartbeat timer fired.
    Tick,
}

/// What the caller does next on the session's behalf.
#[derive(Debug, PartialEq, Eq)]
pub enum Action {
    /// Nothing.
    Nothing,
    /// Decode the text frame and hand it to `receive_init` or `receive_update`.
    Deliver,
    /// Send these bytes back as a binary frame.
    Echo(Vec<u8>),
    /// Answer the probe with a pong carrying these bytes.
    SendPong(Vec<u8>),
    /// Run the tick callback, then send a probe to the client.
    TickAndPing,
    /// Close the connection (with the client's reason, where it gave one).
    Stop(Option<String>),
}

/// A configuration that the session refuses.
#[derive(Debug, Clone, Copy, PartialEq, Eq, Structural)]
pub enum ConfigError {
    /// The liveness timeout is not longer than the heartbeat interval.
    TimeoutNotAboveInterval,
}

/// How an inbound message is dispatched, by its `method`.
#[derive(Debug, Clone, Copy, PartialEq, Eq, Structural)]
pub enum MessageKind {
    Init,
    Update,
    Other,
}

/// An inbound protocol message: a method name and the named input values.
pub struct ShinyMsg {
    pub method: String,
    pub data: Vec<(String, InputValue)>,
}

pub open spec fn kind_of(method: Seq<char>) -> MessageKind {
    if method == "init"@ {
        MessageKind::Init
    } else if method == "update"@ {
        MessageKind::Update
    } else {
        MessageKind::Other
    }
}

impl ShinyMsg {
    pub fn kind(&self) -> (r: MessageKind)
        ensures
            r == kind_of(self.method@),
    {
        let init = "init".to_string();
        let update = "update".to_string();
        if self.method == init {
            MessageKind::Init
        } else if self.method == update {
            MessageKind::Update
        } else {
            MessageKind::Other
        }
    }
}

/// The store after every pair of `data` was inserted, in order.
pub open spec fn seeded(m: Map<Seq<char>, Json>, data: Seq<(String, InputValue)>) -> Map<
    Seq<char>,
    Json,
>
    decreases data.len(),
{
    if data.len() == 0 {
        m
    } else {
        seeded(m, data.drop_last()).insert(data.last().0@, data.last().1@)
    }
}

/// Whether the client has been silent for longer than `timeout` at `now`.
pub open spec fn timed_out(last_signal: u64, timeout: u64, now: u64) -> bool {
    now as int - last_signal as int > timeout as int
}

/// Whether a frame is proof of life from the client.
pub open spec fn is_signal(frame: Frame) -> bool {
    frame is Text || frame is Binary || frame is Ping || frame is Pong
}

/// What a session in `phase` answers to `frame` at `now`.
pub open spec fn action_for(
    phase: Phase,
    last_signal: u64,
    timeout: u64,
    frame: Frame,
    now: u64,
) -> Action {
    if phase is Closed {
        Action::Nothing
    } else {
        match frame {
            Frame::Text => Action::Deliver,
            Frame::Binary(b) => Action::Echo(b),
            Frame::Ping(b) => Action::SendPong(b),
            Frame::Pong => Action::Nothing,
            Frame::Close(reason) => Action::Stop(reason),
            Frame::ReadError => Action::Stop(None),
            Frame::Tick => if timed_out(last_signal, timeout, now) {
                Action::Stop(None)
            } else {
                Action::TickAndPing
            },
        }
    }
}

/// The phase after `frame`.
pub open spec fn phase_after(
    phase: Phase,
    last_signal: u64,
    timeout: u64,
    frame: Frame,
    now: u64,
) -> Phase {
    if action_for(phase, last_signal, timeout, frame, now) is Stop {
        Phase::Closed
    } else {
        phase
    }
}

/// The last liveness signal after `frame`.
pub open spec fn signal_after(phase: Phase, last_signal: u64, frame: Frame, now: u64) -> u64 {
    if !(phase is Closed) && is_signal(frame) {
        now
    } else {
        last_signal
    }
}

/// A session that has heard nothing from its client for longer than its
/// liveness timeout closes at the next tick, and the tick callback does not
/// run.
pub proof fn lemma_silence_closes(phase: Phase, last_signal: u64, timeout: u64, now: u64)
    requires
        !(phase is Closed),
        now as int - last_signal as int > timeout as int,
    ensures
        action_for(phase, last_signal, timeout, Frame::Tick, now) == Action::Stop(None),
        action_for(phase, last_signal, timeout, Frame::Tick, now) != Action::TickAndPing,
        phase_after(phase, last_signal, timeout, Frame::Tick, now) == Phase::Closed,
{
}

/// A tick within the liveness timeout runs the tick callback and sends a
/// probe, and the session stays as it was.
pub proof fn lemma_tick_in_time(phase: Phase, last_signal: u64, timeout: u64, now: u64)
    requires
        !(phase is Closed),
        now as int - last_signal as int <= timeout as int,
    ensures
        action_for(phase, last_signal, timeout, Frame::Tick, now) == Action::TickAndPing,
        phase_after(phase, last_signal, timeout, Frame::Tick, now) == phase,
{
}

/// A closed session stays closed and answers every frame with nothing.
pub proof fn lemma_closed_is_terminal(last_signal: u64, timeout: u64, frame: Frame, now: u64)
    ensures
        action_for(Phase::Closed, last_signal, timeout, frame, now) == Action::Nothing,
        phase_after(Phase::Closed, last_signal, timeout, frame, now) == Phase::Closed,
        signal_after(Phase::Closed, last_signal, frame, now) == last_signal,
{
}

/// One client connection: its inputs, the name of the input that last
/// triggered application logic, and its liveness bookkeeping. Times are in
/// milliseconds on a clock that the caller supplies.
pub struct ShinyServer {
    hb: u64,
    pub input: InputPool,
    pub event: String,
    hb_interval: u64,
    client_timeout: u64,
    phase: Phase,
}

impl ShinyServer {
    /// The contents of the input store.
    pub closed spec fn store(&self) -> Map<Seq<char>, Json> {
        self.input@
    }

    /// The name of the input that last triggered application logic.
    pub closed spec fn last_event(&self) -> Seq<char> {
        self.event@
    }

    pub closed spec fn last_signal(&self) -> u64 {
        self.hb
    }

    pub closed spec fn interval(&self) -> u64 {
        self.hb_interval
    }

    pub closed spec fn timeout(&self) -> u64 {
        self.client_timeout
    }

    pub closed spec fn phase_of(&self) -> Phase {
        self.phase
    }

    pub closed spec fn wf(&self) -> bool {
        &&& self.input.wf()
        &&& self.interval() < self.timeout()
    }

    /// A session accepted at `now`, with a heartbeat every `hb_interval` and a
    /// liveness timeout of `client_timeout`, which must be the longer.
    pub fn new(hb_interval: u64, client_timeout: u64, now: u64) -> (r: Result<
        ShinyServer,
        ConfigError,
    >)
        ensures
            r is Ok <==> hb_interval < client_timeout,
            r is Err ==> r == Err::<ShinyServer, ConfigError>(
                ConfigError::TimeoutNotAboveInterval,
            ),
            r matches Ok(s) ==> {
                &&& s.wf()
                &&& s.store() == Map::<Seq<char>, Json>::empty()
                &&& s.last_event() == "init"@
                &&& s.phase_of() == Phase::Uninitialized
                &&& s.last_signal() == now
                &&& s.interval() == hb_interval
                &&& s.timeout() == client_timeout
            },
    {
        if hb_interval >= client_timeout {
            return Err(ConfigError::TimeoutNotAboveInterval);
        }
        Ok(ShinyServer {
            hb: now,
            input: InputPool::new(),
            event: "init".to_string(),
            hb_interval,
            client_timeout,
            phase: Phase::Uninitialized,
        })
    }

    pub fn phase(&self) -> (r: Phase)
        ensures
            r == self.phase_of(),
    {
        self.phase
    }

    pub fn get_last_hb(&self) -> (r: u64)
        ensures
            r == self.last_signal(),
    {
        self.hb
    }

    pub fn get_hb_interval(&self) -> (r: u64)
        ensures
            r == self.interval(),
    {
        self.hb_interval
    }

    pub fn get_client_timeout(&self) -> (r: u64)
        ensures
            r == self.timeout(),
    {
        self.client_timeout
    }

    /// Handles one frame at time `now` and says what the caller does next.
    pub fn step(&mut self, frame: Frame, now: u64) -> (r: Action)
        requires
            old(self).wf(),
        ensures
            final(self).wf(),
            r == action_for(
                old(self).phase_of(),
                old(self).last_signal(),
                old(self).timeout(),
                frame,
                now,
            ),
            final(self).phase_of() == phase_after(
                old(self).phase_of(),
                old(self).last_signal(),
                old(self).timeout(),
                frame,
                now,
            ),
            final(self).last_signal() == signal_after(
                old(self).phase_of(),
                old(self).last_signal(),
                frame,
                now,
            ),
            final(self).store() == old(self).store(),
            final(self).last_event() == old(self).last_event(),
            final(self).interval() == old(self).interval(),
            final(self).timeout() == old(self).timeout(),
    {
        if self.phase == Phase::Closed {
            return Action::Nothing;
        }
        match frame {
            Frame::Text => {
                self.hb = now;
                Action::Deliver
            },
            Frame::Binary(b) => {
                self.hb = now;
                Action::Echo(b)
            },
            Frame::Ping(b) => {
                self.hb = now;
                Action::SendPong(b)
            },
            Frame::Pong => {
                self.hb = now;
                Action::Nothing
            },
            Frame::Close(reason) => {
                self.phase = Phase::Closed;
                Action::Stop(reason)
            },
            Frame::ReadError => {
                self.phase = Phase::Closed;
                Action::Stop(None)
            },
            Frame::Tick => {
                if now > self.hb && now - self.hb > self.client_timeout {
                    self.phase = Phase::Closed;
                    Action::Stop(None)
                } else {
                    Action::TickAndPing
                }
            },
        }
    }

    /// Seeds the store from an `init` message: every pair is inserted without
    /// change detection, and the last event becomes `init`. Returns whether
    /// the message was taken, that is whether the session is not closed; the
    /// caller then runs the init callback once.
    pub fn receive_init(&mut self, data: &Vec<(String, InputValue)>) -> (r: bool)
        requires
            old(self).wf(),
        ensures
            final(self).wf(),
            r == !(old(self).phase_of() is Closed),
            r ==> {
                &&& final(self).store() == seeded(old(self).store(), data@)
                &&& final(self).last_event() == "init"@
                &&& final(self).phase_of() == Phase::Active
            },
            !r ==> final(self).store() == old(self).store() && final(self).last_event() == old(
                self,
            ).last_event() && final(self).phase_of() == old(self).phase_of(),
            final(self).last_signal() == old(self).last_signal(),
            final(self).interval() == old(self).interval(),
            final(self).timeout() == old(self).timeout(),
    {
        if self.phase == Phase::Closed {
            return false;
        }
        let mut i: usize = 0;
        while i < data.len()
            invariant
                self.wf(),
                i <= data@.len(),
                self.store() == seeded(old(self).store(), data@.take(i as int)),
                self.hb == old(self).hb,
                self.hb_interval == old(self).hb_interval,
                self.client_timeout == old(self).client_timeout,
                self.phase == old(self).phase,
            decreases data@.len() - i,
        {
            let pair = &data[i];
            self.input.insert(pair.0.as_str(), pair.1.duplicate());
            assert(data@.take(i + 1).drop_last() =~= data@.take(i as int));
            i = i + 1;
        }
        assert(data@.take(i as int) =~= data@);
        self.event = "init".to_string();
        self.phase = Phase::Active;
        true
    }

    /// Runs change detection for one input of an `update` message. Where the
    /// value counts as a change, it is stored and the last event becomes its
    /// key; the caller then runs the update callback once before the next
    /// key. Only an active session takes updates.
    pub fn receive_update(&mut self, key: &str, value: InputValue) -> (changed: bool)
        requires
            old(self).wf(),
        ensures
            final(self).wf(),
            changed == (old(self).phase_of() is Active && is_change(
                old(self).store(),
                key@,
                value@,
            )),
            old(self).phase_of() is Active ==> final(self).store() == after_detect(
                old(self).store(),
                key@,
                value@,
            ),
            !(old(self).phase_of() is Active) ==> final(self).store() == old(self).store(),
            final(self).last_event() == (if changed {
                key@
            } else {
                old(self).last_event()
            }),
            final(self).phase_of() == old(self).phase_of(),
            final(self).last_signal() == old(self).last_signal(),
            final(self).interval() == old(self).interval(),
            final(self).timeout() == old(self).timeout(),
    {
        if self.phase != Phase::Active {
            return false;
        }
        let changed = self.input.check_change(key, value);
        if changed {
            self.event = key.to_string();
        }
        changed
    }

    /// Whether the input that last triggered application logic is one of
    /// `events`.
    pub fn changed(&self, events: &Vec<String>) -> (r: bool)
        ensures
            r == exists|i: int| 0 <= i < events@.len() && events@[i]@ == self.last_event(),
    {
        let mut i: usize = 0;
        while i < events.len()
            invariant
                i <= events@.len(),
                forall|j: int| 0 <= j < i ==> events@[j]@ != self.last_event(),
            decreases events@.len() - i,
        {
            if events[i] == self.event {
                return true;
            }
            i = i + 1;
        }
        false
    }
}

/// An ASCII letter or digit.
pub open spec fn is_alphanumeric(c: char) -> bool {
    ('A' <= c && c <= 'Z') || ('a' <= c && c <= 'z') || ('0' <= c && c <= '9')
}

/// Relies on rand's `Alphanumeric` distribution, sampled from the
/// thread-local generator: one character drawn from the ASCII letters and
/// digits.
#[verifier::external_body]
fn random_alphanumeric() -> (r: String)
    ensures
        r@.len() == 1,
        is_alphanumeric(r@[0]),
{
    char::from(rand::Rng::sample(&mut rand::thread_rng(), rand::distributions::Alphanumeric)).to_string()
}

/// Length of a generated session id.
pub const ID_LEN: usize = 30;

/// A random session id of `ID_LEN` ASCII letters and digits.
pub fn generate_id() -> (r: String)
    ensures
        r@.len() == ID_LEN,
        forall|i: int| 0 <= i < r@.len() ==> is_alphanumeric(#[trigger] r@[i]),
{
    let mut id = String::new();
    let mut n: usize = 0;
    while n < ID_LEN
        invariant
            n <= ID_LEN,
            id@.len() == n,
            forall|i: int| 0 <= i < id@.len() ==> is_alphanumeric(#[trigger] id@[i]),
        decreases ID_LEN - n,
    {
        let c = random_alphanumeric();
        let ghost before = id@;
        id.append(c.as_str());
        assert(id@ == before + c@);
        assert forall|i: int| 0 <= i < id@.len() implies is_alphanumeric(#[trigger] id@[i]) by {
            if i < before.len() {
                assert(id@[i] == before[i]);
            } else {
                assert(id@[i] == c@[0]);
            }
        }
        n = n + 1;
    }
    id
}

} // verus!
