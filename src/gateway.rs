use vstd::prelude::*;
use crate::text::str_eq;
use crate::random::draw_in_range;

verus! {

/// Delay before a torn-down connection is attempted again.
pub const RECONNECT_DELAY_MS: u64 = 5000;

/// Operation codes of the real-time protocol.
#[derive(Debug, Clone, Copy, PartialEq, Eq, Structural)]
pub enum Opcode {
    Dispatch,
    Heartbeat,
    Identify,
    Resume,
    Reconnect,
    InvalidSession,
    Hello,
    HeartbeatAck,
}

pub open spec fn opcode_code_spec(op: Opcode) -> u8 {
    match op {
        Opcode::Dispatch => 0,
        Opcode::Heartbeat => 1,
        Opcode::Identify => 2,
        Opcode::Resume => 6,
        Opcode::Reconnect => 7,
        Opcode::InvalidSession => 9,
        Opcode::Hello => 10,
        Opcode::HeartbeatAck => 11,
    }
}

impl Opcode {
    /// The number that stands for this operation on the wire.
    pub fn code(self) -> (r: u8)
        ensures
            r == opcode_code_spec(self),
    {
        match self {
            Opcode::Dispatch => 0,
            Opcode::Heartbeat => 1,
            Opcode::Identify => 2,
            Opcode::Resume => 6,
            Opcode::Reconnect => 7,
            Opcode::InvalidSession => 9,
            Opcode::Hello => 10,
            Opcode::HeartbeatAck => 11,
        }
    }

    /// The operation a wire number stands for, if any.
    pub fn from_code(c: u8) -> (r: Option<Opcode>)
        ensures
            r matches Some(op) ==> opcode_code_spec(op) == c,
            r is None ==> forall|op: Opcode| opcode_code_spec(op) != c,
    {
        match c {
            0 => Some(Opcode::Dispatch),
            1 => Some(Opcode::Heartbeat),
            2 => Some(Opcode::Identify),
            6 => Some(Opcode::Resume),
            7 => Some(Opcode::Reconnect),
            9 => Some(Opcode::InvalidSession),
            10 => Some(Opcode::Hello),
            11 => Some(Opcode::HeartbeatAck),
            _ => None,
        }
    }
}

/// An inbound frame, with the few payload fields the client interprets.
#[derive(Debug)]
pub struct InboundFrame {
    pub op: Opcode,
    pub sequence: Option<u64>,
    pub event_name: Option<String>,
    /// The `session_id` field of the payload, where it has one.
    pub session_id: Option<String>,
    /// The `heartbeat_interval` field of the payload, where it has one.
    pub heartbeat_interval_ms: Option<u64>,
}

/// What happened to the connection.
#[derive(Debug)]
pub enum GatewayEvent {
    /// The supervisor wants a connection.
    Start,
    /// The transport is open.
    Connected,
    /// A frame arrived.
    Frame(InboundFrame),
    /// The heartbeat timer fired.
    HeartbeatDue,
    /// A read or write failed, or the peer closed the connection.
    TransportFailed,
}

/// What the client asks its transport to do.
#[derive(Debug, PartialEq, Eq)]
pub enum GatewayAction {
    Connect,
    SendIdentify,
    SendResume { session_id: String, sequence: u64 },
    SendHeartbeat { sequence: Option<u64> },
    ScheduleHeartbeat { delay_ms: u64 },
    /// Pass the frame being handled downstream.
    Forward,
    Close,
    ReconnectAfter { delay_ms: u64 },
}

#[derive(Debug, Clone, Copy, PartialEq, Eq, Structural)]
pub enum Phase {
    Disconnected,
    Connecting,
    AwaitHello,
    Active,
}

/// Resumable state of the protocol session.
#[derive(Debug)]
pub struct SessionState {
    pub sequence: Option<u64>,
    pub session_id: Option<String>,
    pub heartbeat_interval_ms: u64,
    pub heartbeat_acked: bool,
}

/// The protocol client's state machine.
#[derive(Debug)]
pub struct Gateway {
    pub phase: Phase,
    pub session: SessionState,
}

/// The message sent after Hello: Resume with the stored session where both
/// its id and sequence are known, a fresh Identify otherwise.
pub open spec fn greeting(s: SessionState) -> GatewayAction {
    match (s.session_id, s.sequence) {
        (Some(id), Some(seq)) => GatewayAction::SendResume { session_id: id, sequence: seq },
        _ => GatewayAction::SendIdentify,
    }
}

pub open spec fn max_seq(cur: Option<u64>, s: Option<u64>) -> Option<u64> {
    match (cur, s) {
        (Some(a), Some(b)) => Some(if a >= b { a } else { b }),
        (None, Some(b)) => Some(b),
        _ => cur,
    }
}

/// A dispatch numbered past the next expected one: events were missed, and
/// the session is resumed to have them replayed.
pub open spec fn is_gap(cur: Option<u64>, s: Option<u64>) -> bool {
    cur matches Some(a) && s matches Some(b) && b > a + 1
}

pub open spec fn teardown(c: Gateway, clear: bool) -> (Gateway, Seq<GatewayAction>) {
    (
        Gateway {
            phase: Phase::Disconnected,
            session: if clear {
                SessionState { sequence: None, session_id: None, ..c.session }
            } else {
                c.session
            },
        },
        seq![GatewayAction::Close, GatewayAction::ReconnectAfter { delay_ms: RECONNECT_DELAY_MS }],
    )
}

pub open spec fn is_ready(name: Option<String>) -> bool {
    name matches Some(n) && n@ == "READY"@
}

/// The client's transition function. `jitter_permille` scales the delay of
/// the first heartbeat after Hello.
pub open spec fn step_spec(c: Gateway, e: GatewayEvent, jitter_permille: u64) -> (Gateway, Seq<GatewayAction>) {
    match e {
        GatewayEvent::Start => if c.phase == Phase::Disconnected {
            (Gateway { phase: Phase::Connecting, ..c }, seq![GatewayAction::Connect])
        } else {
            (c, seq![])
        },
        GatewayEvent::Connected => if c.phase == Phase::Connecting {
            (Gateway { phase: Phase::AwaitHello, ..c }, seq![])
        } else {
            (c, seq![])
        },
        GatewayEvent::TransportFailed => teardown(c, false),
        GatewayEvent::HeartbeatDue => if c.phase != Phase::Active {
            (c, seq![])
        } else if !c.session.heartbeat_acked {
            teardown(c, false)
        } else {
            (
                Gateway {
                    session: SessionState { heartbeat_acked: false, ..c.session },
                    ..c
                },
                seq![
                    GatewayAction::SendHeartbeat { sequence: c.session.sequence },
                    GatewayAction::ScheduleHeartbeat { delay_ms: c.session.heartbeat_interval_ms },
                ],
            )
        },
        GatewayEvent::Frame(f) => {
            if c.phase != Phase::AwaitHello && c.phase != Phase::Active {
                (c, seq![])
            } else {
                match f.op {
                    Opcode::Hello => if c.phase == Phase::Active {
                        teardown(c, true)
                    } else {
                        match f.heartbeat_interval_ms {
                            Some(iv) => (
                                Gateway {
                                    phase: Phase::Active,
                                    session: SessionState {
                                        heartbeat_interval_ms: iv,
                                        heartbeat_acked: true,
                                        ..c.session
                                    },
                                },
                                seq![
                                    GatewayAction::ScheduleHeartbeat {
                                        delay_ms: (iv * jitter_permille / 1000) as u64,
                                    },
                                    greeting(c.session),
                                ],
                            ),
                            None => (c, seq![]),
                        }
                    },
                    Opcode::Reconnect => teardown(c, false),
                    Opcode::InvalidSession => teardown(c, true),
                    Opcode::Dispatch => if c.phase == Phase::Active && is_gap(c.session.sequence, f.sequence) {
                        teardown(c, false)
                    } else if c.phase == Phase::Active {
                        (
                            Gateway {
                                session: SessionState {
                                    sequence: max_seq(c.session.sequence, f.sequence),
                                    session_id: if is_ready(f.event_name) && f.session_id is Some {
                                        f.session_id
                                    } else {
                                        c.session.session_id
                                    },
                                    ..c.session
                                },
                                ..c
                            },
                            seq![GatewayAction::Forward],
                        )
                    } else {
                        (c, seq![])
                    },
                    Opcode::HeartbeatAck => if c.phase == Phase::Active {
                        (
                            Gateway {
                                session: SessionState { heartbeat_acked: true, ..c.session },
                                ..c
                            },
                            seq![],
                        )
                    } else {
                        (c, seq![])
                    },
                    Opcode::Heartbeat => if c.phase == Phase::Active {
                        (c, seq![GatewayAction::SendHeartbeat { sequence: c.session.sequence }])
                    } else {
                        (c, seq![])
                    },
                    _ => (c, seq![]),
                }
            }
        },
    }
}

impl Gateway {
    /// A disconnected client with no stored session.
    pub fn new() -> (r: Gateway)
        ensures
            r.phase == Phase::Disconnected,
            r.session.sequence is None,
            r.session.session_id is None,
            r.session.heartbeat_interval_ms == 41250,
            !r.session.heartbeat_acked,
    {
        Gateway {
            phase: Phase::Disconnected,
            session: SessionState {
                sequence: None,
                session_id: None,
                heartbeat_interval_ms: 41250,
                heartbeat_acked: false,
            },
        }
    }

    fn teardown(&mut self, clear: bool) -> (r: Vec<GatewayAction>)
        ensures
            (*final(self), r@) == teardown(*old(self), clear),
    {
        self.phase = Phase::Disconnected;
        if clear {
            self.session.sequence = None;
            self.session.session_id = None;
        }
        vec![GatewayAction::Close, GatewayAction::ReconnectAfter { delay_ms: RECONNECT_DELAY_MS }]
    }

    fn greeting(&self) -> (r: GatewayAction)
        ensures
            r == greeting(self.session),
    {
        match (&self.session.session_id, self.session.sequence) {
            (Some(id), Some(seq)) => GatewayAction::SendResume { session_id: id.clone(), sequence: seq },
            _ => GatewayAction::SendIdentify,
        }
    }

    /// Applies one event with a uniformly drawn heartbeat jitter.
    pub fn handle(&mut self, e: GatewayEvent) -> (r: Vec<GatewayAction>)
        ensures
            exists|j: u64| j < 1000 && (*final(self), r@) == #[trigger] step_spec(*old(self), e, j),
    {
        let j = draw_in_range(0, 1000);
        let r = self.step(e, j);
        assert(j < 1000 && (*self, r@) == step_spec(*old(self), e, j));
        r
    }

    /// Applies one event, exactly as `step_spec` states.
    pub fn step(&mut self, e: GatewayEvent, jitter_permille: u64) -> (r: Vec<GatewayAction>)
        requires
            jitter_permille < 1000,
        ensures
            (*final(self), r@) == step_spec(*old(self), e, jitter_permille),
    {
        match e {
            GatewayEvent::Start => {
                if self.phase == Phase::Disconnected {
                    self.phase = Phase::Connecting;
                    vec![GatewayAction::Connect]
                } else {
                    vec![]
                }
            },
            GatewayEvent::Connected => {
                if self.phase == Phase::Connecting {
                    self.phase = Phase::AwaitHello;
                }
                vec![]
            },
            GatewayEvent::TransportFailed => self.teardown(false),
            GatewayEvent::HeartbeatDue => {
                if self.phase != Phase::Active {
                    vec![]
                } else if !self.session.heartbeat_acked {
                    self.teardown(false)
                } else {
                    self.session.heartbeat_acked = false;
                    vec![
                        GatewayAction::SendHeartbeat { sequence: self.session.sequence },
                        GatewayAction::ScheduleHeartbeat { delay_ms: self.session.heartbeat_interval_ms },
                    ]
                }
            },
            GatewayEvent::Frame(f) => {
                if self.phase != Phase::AwaitHello && self.phase != Phase::Active {
                    return vec![];
                }
                match f.op {
                    Opcode::Hello => {
                        if self.phase == Phase::Active {
                            self.teardown(true)
                        } else {
                            match f.heartbeat_interval_ms {
                                Some(iv) => {
                                    let g = self.greeting();
                                    self.phase = Phase::Active;
                                    self.session.heartbeat_interval_ms = iv;
                                    self.session.heartbeat_acked = true;
                                    proof {
                                        let a = iv as int;
                                        let b = jitter_permille as int;
                                        assert(a * b <= a * 1000) by (nonlinear_arith)
                                            requires
                                                0 <= a,
                                                0 <= b < 1000,
                                        ;
                                        assert(a * b / 1000 <= a) by (nonlinear_arith)
                                            requires
                                                0 <= a,
                                                0 <= a * b <= a * 1000,
                                        ;
                                    }
                                    let delay = ((iv as u128) * (jitter_permille as u128) / 1000) as u64;
                                    vec![GatewayAction::ScheduleHeartbeat { delay_ms: delay }, g]
                                },
                                None => vec![],
                            }
                        }
                    },
                    Opcode::Reconnect => self.teardown(false),
                    Opcode::InvalidSession => self.teardown(true),
                    Opcode::Dispatch => {
                        let gap = match (self.session.sequence, f.sequence) {
                            (Some(a), Some(b)) => b > a && b - a > 1,
                            _ => false,
                        };
                        if self.phase == Phase::Active && gap {
                            self.teardown(false)
                        } else if self.phase == Phase::Active {
                            match f.sequence {
                                Some(s) => {
                                    match self.session.sequence {
                                        Some(a) => {
                                            if s > a {
                                                self.session.sequence = Some(s);
                                            }
                                        },
                                        None => {
                                            self.session.sequence = Some(s);
                                        },
                                    }
                                },
                                None => {},
                            }
                            let ready = match &f.event_name {
                                Some(n) => str_eq(n.as_str(), "READY"),
                                None => false,
                            };
                            if ready && f.session_id.is_some() {
                                self.session.session_id = f.session_id;
                            }
                            vec![GatewayAction::Forward]
                        } else {
                            vec![]
                        }
                    },
                    Opcode::HeartbeatAck => {
                        if self.phase == Phase::Active {
                            self.session.heartbeat_acked = true;
                        }
                        vec![]
                    },
                    Opcode::Heartbeat => {
                        if self.phase == Phase::Active {
                            vec![GatewayAction::SendHeartbeat { sequence: self.session.sequence }]
                        } else {
                            vec![]
                        }
                    },
                    _ => vec![],
                }
            },
        }
    }
}

pub open spec fn is_hello(e: GatewayEvent) -> bool {
    e matches GatewayEvent::Frame(f) && f.op == Opcode::Hello
}

pub open spec fn sends_heartbeat(a: GatewayAction) -> bool {
    a is SendHeartbeat
}

/// The client after a sequence of events, with every action it emitted.
pub open spec fn run_spec(c: Gateway, evs: Seq<GatewayEvent>, jitters: Seq<u64>) -> (Gateway, Seq<GatewayAction>)
    decreases evs.len(),
{
    if evs.len() == 0 {
        (c, seq![])
    } else {
        let (c1, a1) = run_spec(c, evs.drop_last(), jitters);
        let (c2, a2) = step_spec(c1, evs.last(), jitters[evs.len() - 1]);
        (c2, a1 + a2)
    }
}

/// A client that is not active emits no heartbeat, and does not become
/// active, for any sequence of events in which no Hello arrives.
pub proof fn lemma_no_heartbeat_before_hello(c: Gateway, evs: Seq<GatewayEvent>, jitters: Seq<u64>)
    requires
        c.phase != Phase::Active,
        forall|i: int| 0 <= i < evs.len() ==> !is_hello(#[trigger] evs[i]),
    ensures
        run_spec(c, evs, jitters).0.phase != Phase::Active,
        forall|i: int|
            0 <= i < run_spec(c, evs, jitters).1.len() ==> !sends_heartbeat(
                #[trigger] run_spec(c, evs, jitters).1[i],
            ),
    decreases evs.len(),
{
    if evs.len() > 0 {
        let pre = evs.drop_last();
        assert forall|i: int| 0 <= i < pre.len() implies !is_hello(#[trigger] pre[i]) by {
            assert(pre[i] == evs[i]);
        }
        lemma_no_heartbeat_before_hello(c, pre, jitters);
        let (c1, a1) = run_spec(c, pre, jitters);
        let e = evs.last();
        assert(!is_hello(evs[evs.len() - 1]));
        let (c2, a2) = step_spec(c1, e, jitters[evs.len() - 1]);
        assert forall|i: int| 0 <= i < a2.len() implies !sends_heartbeat(#[trigger] a2[i]) by {}
        assert forall|i: int| 0 <= i < (a1 + a2).len() implies !sends_heartbeat(#[trigger] (a1 + a2)[i]) by {
            if i >= a1.len() {
                assert((a1 + a2)[i] == a2[i - a1.len()]);
            }
        }
    }
}

/// On Hello, a client that stored both a session id and a sequence number
/// resumes that session; one that stored neither identifies afresh.
pub proof fn lemma_hello_resumes_or_identifies(c: Gateway, f: InboundFrame, jitter_permille: u64)
    requires
        c.phase == Phase::AwaitHello,
        f.op == Opcode::Hello,
        f.heartbeat_interval_ms is Some,
    ensures
        ({
            let acts = step_spec(c, GatewayEvent::Frame(f), jitter_permille).1;
            &&& (c.session.session_id is Some && c.session.sequence is Some) ==> acts.contains(
                GatewayAction::SendResume {
                    session_id: c.session.session_id->0,
                    sequence: c.session.sequence->0,
                },
            )
            &&& (c.session.session_id is None && c.session.sequence is None) ==> acts.contains(
                GatewayAction::SendIdentify,
            )
            &&& step_spec(c, GatewayEvent::Frame(f), jitter_permille).0.phase == Phase::Active
        }),
{
    let acts = step_spec(c, GatewayEvent::Frame(f), jitter_permille).1;
    assert(acts[1] == greeting(c.session));
}

} // verus!
