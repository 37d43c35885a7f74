//! The session loop: per iteration, name resolution, transport connection,
//! protocol handshake, then a measure/publish cycle, with uniform error
//! recovery. The machine here decides; the runtime performs each prescribed
//! command (a delay, a DNS query, a TCP connect, the handshake, the two bus
//! transactions of a measurement, a publish) and feeds the outcome back as
//! an event. Any failure at any stage discards the in-progress session and
//! restarts from the pacing delay; the loop never terminates.

use vstd::prelude::*;

use crate::payload::{format_temperature, payload_bytes};
use crate::sensor::{Bmp180, raw_reading, temp_centi, temp_defined};

verus! {

/// Pacing delay at the head of every iteration, in milliseconds.
pub const PACING_MS: u32 = 1000;

/// Idle delay between successful publish cycles, in milliseconds.
pub const PUBLISH_PERIOD_MS: u32 = 3000;

/// The broker's fixed port.
pub const BROKER_PORT: u16 = 1883;

/// Idle timeout on the transport socket, in seconds.
pub const SOCKET_TIMEOUT_SECS: u8 = 10;

/// Size of each transport-level send and receive buffer, in bytes.
pub const SOCKET_BUFFER_BYTES: usize = 4096;

/// Size of each protocol-client send and receive buffer, in bytes.
pub const CLIENT_BUFFER_BYTES: usize = 80;

/// Maximum protocol packet size, in bytes.
pub const MAX_PACKET_BYTES: u32 = 100;

/// Quality of service for every publish, and the subscribe maximum:
/// at-least-once.
pub const PUBLISH_QOS: u8 = 1;

/// Every publish asks the broker to retain the message as the topic's
/// last-known value.
pub const PUBLISH_RETAIN: bool = true;

/// The broker hostname every iteration resolves.
pub fn broker_host() -> (r: &'static str)
    ensures
        r@ == "broker.hivemq.com"@,
{
    "broker.hivemq.com"
}

/// The fixed client identifier of the protocol handshake.
pub fn client_id() -> (r: &'static str)
    ensures
        r@ == "clientId-8rhWgBODCl"@,
{
    "clientId-8rhWgBODCl"
}

/// The fixed topic every reading is published on.
pub fn topic() -> (r: &'static str)
    ensures
        r@ == "temperature/1"@,
{
    "temperature/1"
}

/// Where the loop stands inside one iteration.
#[derive(Clone, Copy, PartialEq, Eq, Structural, Debug)]
pub enum SessionPhase {
    /// Waiting out the pacing delay that heads every iteration.
    Pacing,
    /// Waiting for the broker hostname to resolve.
    Resolving,
    /// Waiting for the transport connection to open.
    Connecting,
    /// Waiting for the protocol handshake to complete.
    Handshaking,
    /// Waiting for the raw reading of a measurement cycle.
    Measuring,
    /// Waiting for the outcome of a publish.
    Publishing,
    /// Waiting out the idle delay between publish cycles.
    Idling,
}

/// The outcome the runtime observed for the command it performed.
#[derive(Clone, Copy, PartialEq, Eq, Structural, Debug)]
pub enum SessionEvent {
    /// A prescribed delay has elapsed.
    DelayElapsed,
    /// The broker hostname resolved to this IPv4 address (first entry of
    /// the answer), as a big-endian 32-bit value.
    Resolved { addr: u32 },
    /// The name lookup failed.
    ResolveFailed,
    /// The transport connection is open.
    Connected,
    /// The transport connection failed to open.
    ConnectFailed,
    /// The protocol handshake succeeded.
    HandshakeOk,
    /// The handshake failed with the protocol client's network error.
    HandshakeNetworkError,
    /// The handshake failed with any other reason code.
    HandshakeRefused { code: u8 },
    /// A measurement cycle completed with this raw big-endian register
    /// pair.
    Measured { msb: u8, lsb: u8 },
    /// A bus transaction of the measurement cycle failed.
    MeasureFailed,
    /// The publish was acknowledged.
    PublishOk,
    /// The publish failed with the protocol client's network error.
    PublishNetworkError,
    /// The publish failed with any other reason code.
    PublishRefused { code: u8 },
}

/// The operation the loop asks of the runtime.
#[derive(Debug, PartialEq, Eq)]
pub enum SessionCommand {
    /// Discard any in-progress session state and wait the pacing delay.
    Pace,
    /// Resolve the broker hostname.
    ResolveBroker,
    /// Open a fresh transport connection to this IPv4 address on the
    /// broker port, with the fixed buffer sizes and idle timeout.
    ConnectBroker { addr: u32 },
    /// Perform the protocol handshake with the fixed client configuration.
    Handshake,
    /// Run one measurement cycle: select temperature mode, wait the
    /// settling delay, read the raw register pair.
    Measure,
    /// Publish this payload on the fixed topic, at-least-once, retained.
    Publish { payload: Vec<u8> },
    /// Wait the idle delay before the next measurement.
    IdleWait,
}

/// The mathematical value of a command: as `SessionCommand`, with the
/// payload a sequence.
pub enum CommandModel {
    Pace,
    ResolveBroker,
    ConnectBroker { addr: u32 },
    Handshake,
    Measure,
    Publish { payload: Seq<u8> },
    IdleWait,
}

impl View for SessionCommand {
    type V = CommandModel;

    open spec fn view(&self) -> CommandModel {
        match self {
            SessionCommand::Pace => CommandModel::Pace,
            SessionCommand::ResolveBroker => CommandModel::ResolveBroker,
            SessionCommand::ConnectBroker { addr } => CommandModel::ConnectBroker {
                addr: *addr,
            },
            SessionCommand::Handshake => CommandModel::Handshake,
            SessionCommand::Measure => CommandModel::Measure,
            SessionCommand::Publish { payload } => CommandModel::Publish {
                payload: payload@,
            },
            SessionCommand::IdleWait => CommandModel::IdleWait,
        }
    }
}

/// The session loop's state: the phase inside the current iteration, and
/// the sensor driver, constructed once and kept across iterations.
#[derive(Clone, Copy, PartialEq, Eq, Structural, Debug)]
pub struct SessionLoop {
    pub phase: SessionPhase,
    pub sensor: Bmp180,
}

/// Which events can answer the command prescribed in a phase.
pub open spec fn session_event_fits(p: SessionPhase, e: SessionEvent) -> bool {
    match p {
        SessionPhase::Pacing => e == SessionEvent::DelayElapsed,
        SessionPhase::Resolving => e is Resolved || e == SessionEvent::ResolveFailed,
        SessionPhase::Connecting => e == SessionEvent::Connected || e
            == SessionEvent::ConnectFailed,
        SessionPhase::Handshaking => e == SessionEvent::HandshakeOk || e
            == SessionEvent::HandshakeNetworkError || e is HandshakeRefused,
        SessionPhase::Measuring => e is Measured || e == SessionEvent::MeasureFailed,
        SessionPhase::Publishing => e == SessionEvent::PublishOk || e
            == SessionEvent::PublishNetworkError || e is PublishRefused,
        SessionPhase::Idling => e == SessionEvent::DelayElapsed,
    }
}

/// One step of the loop: the state after observing `e`, and the command to
/// perform next. Every failure event leads back to `Pacing` with the
/// pacing delay; the sensor changes only when a measurement completes.
pub open spec fn step_spec(s: SessionLoop, e: SessionEvent) -> (SessionLoop, CommandModel) {
    match e {
        SessionEvent::DelayElapsed => {
            if s.phase == SessionPhase::Idling {
                (SessionLoop { phase: SessionPhase::Measuring, ..s }, CommandModel::Measure)
            } else {
                (SessionLoop { phase: SessionPhase::Resolving, ..s }, CommandModel::ResolveBroker)
            }
        },
        SessionEvent::Resolved { addr } => (
            SessionLoop { phase: SessionPhase::Connecting, ..s },
            CommandModel::ConnectBroker { addr },
        ),
        SessionEvent::ResolveFailed => (
            SessionLoop { phase: SessionPhase::Pacing, ..s },
            CommandModel::Pace,
        ),
        SessionEvent::Connected => (
            SessionLoop { phase: SessionPhase::Handshaking, ..s },
            CommandModel::Handshake,
        ),
        SessionEvent::ConnectFailed => (
            SessionLoop { phase: SessionPhase::Pacing, ..s },
            CommandModel::Pace,
        ),
        SessionEvent::HandshakeOk => (
            SessionLoop { phase: SessionPhase::Measuring, ..s },
            CommandModel::Measure,
        ),
        SessionEvent::HandshakeNetworkError => (
            SessionLoop { phase: SessionPhase::Pacing, ..s },
            CommandModel::Pace,
        ),
        SessionEvent::HandshakeRefused { code } => (
            SessionLoop { phase: SessionPhase::Pacing, ..s },
            CommandModel::Pace,
        ),
        SessionEvent::Measured { msb, lsb } => {
            if temp_defined(s.sensor.cal, raw_reading(msb, lsb)) {
                let t = temp_centi(s.sensor.cal, raw_reading(msb, lsb));
                let sensor = Bmp180 { cal: s.sensor.cal, temp: t as i64 };
                (
                    SessionLoop { phase: SessionPhase::Publishing, sensor },
                    CommandModel::Publish { payload: payload_bytes(t) },
                )
            } else {
                (SessionLoop { phase: SessionPhase::Pacing, ..s }, CommandModel::Pace)
            }
        },
        SessionEvent::MeasureFailed => (
            SessionLoop { phase: SessionPhase::Pacing, ..s },
            CommandModel::Pace,
        ),
        SessionEvent::PublishOk => (
            SessionLoop { phase: SessionPhase::Idling, ..s },
            CommandModel::IdleWait,
        ),
        SessionEvent::PublishNetworkError => (
            SessionLoop { phase: SessionPhase::Pacing, ..s },
            CommandModel::Pace,
        ),
        SessionEvent::PublishRefused { code } => (
            SessionLoop { phase: SessionPhase::Pacing, ..s },
            CommandModel::Pace,
        ),
    }
}

/// Whether each event of a run can answer the command prescribed before
/// it.
pub open spec fn trace_fits(s: SessionLoop, events: Seq<SessionEvent>) -> bool
    decreases events.len(),
{
    events.len() == 0 || (session_event_fits(s.phase, events[0]) && trace_fits(
        step_spec(s, events[0]).0,
        events.drop_first(),
    ))
}

/// The state after a run of observed events.
pub open spec fn run_state(s: SessionLoop, events: Seq<SessionEvent>) -> SessionLoop
    decreases events.len(),
{
    if events.len() == 0 {
        s
    } else {
        run_state(step_spec(s, events[0]).0, events.drop_first())
    }
}

/// The commands a run prescribes, one per observed event.
pub open spec fn run_commands(s: SessionLoop, events: Seq<SessionEvent>) -> Seq<CommandModel>
    decreases events.len(),
{
    if events.len() == 0 {
        seq![]
    } else {
        seq![step_spec(s, events[0]).1] + run_commands(step_spec(s, events[0]).0, events.drop_first())
    }
}

/// How many publishes a sequence of commands holds.
pub open spec fn publish_count(cmds: Seq<CommandModel>) -> nat
    decreases cmds.len(),
{
    if cmds.len() == 0 {
        0
    } else {
        (if cmds[0] is Publish {
            1nat
        } else {
            0nat
        }) + publish_count(cmds.drop_first())
    }
}

/// A run prescribes exactly one command per observed event.
pub proof fn lemma_run_length(s: SessionLoop, events: Seq<SessionEvent>)
    ensures
        run_commands(s, events).len() == events.len(),
    decreases events.len(),
{
    if events.len() > 0 {
        lemma_run_length(step_spec(s, events[0]).0, events.drop_first());
    }
}

/// The calibration set is immutable for the driver's lifetime: no run of
/// the loop, whatever its events, changes it.
pub proof fn lemma_calibration_immutable(s: SessionLoop, events: Seq<SessionEvent>)
    ensures
        run_state(s, events).sensor.cal == s.sensor.cal,
    decreases events.len(),
{
    if events.len() > 0 {
        lemma_calibration_immutable(step_spec(s, events[0]).0, events.drop_first());
    }
}

/// With a resolver that always fails, the loop never asks for a transport
/// connection: it paces, resolves, fails, and paces again, indefinitely,
/// with the sensor untouched.
pub proof fn lemma_resolver_failure_never_connects(s: SessionLoop, events: Seq<SessionEvent>)
    requires
        s.phase == SessionPhase::Pacing || s.phase == SessionPhase::Resolving,
        forall|i: int|
            0 <= i < events.len() ==> #[trigger] events[i] == SessionEvent::DelayElapsed
                || events[i] == SessionEvent::ResolveFailed,
        trace_fits(s, events),
    ensures
        run_commands(s, events).len() == events.len(),
        forall|i: int|
            0 <= i < events.len() ==> #[trigger] run_commands(s, events)[i] == CommandModel::Pace
                || run_commands(s, events)[i] == CommandModel::ResolveBroker,
        run_state(s, events).phase == SessionPhase::Pacing || run_state(s, events).phase
            == SessionPhase::Resolving,
        run_state(s, events).sensor == s.sensor,
    decreases events.len(),
{
    lemma_run_length(s, events);
    if events.len() > 0 {
        let s1 = step_spec(s, events[0]).0;
        assert(forall|i: int|
            0 <= i < events.drop_first().len() ==> #[trigger] events.drop_first()[i] == events[i
                + 1]);
        lemma_resolver_failure_never_connects(s1, events.drop_first());
        assert forall|i: int| 0 <= i < events.len() implies #[trigger] run_commands(s, events)[i]
            == CommandModel::Pace || run_commands(s, events)[i]
            == CommandModel::ResolveBroker by {
            if i > 0 {
                assert(run_commands(s, events)[i] == run_commands(s1, events.drop_first())[i - 1]);
            }
        }
    }
}

/// A handshake failure of either kind restarts the full iteration — back
/// to the pacing delay, a fresh resolve to follow — rather than retrying
/// the handshake in place.
pub proof fn lemma_handshake_failure_restarts(s: SessionLoop, e: SessionEvent)
    requires
        s.phase == SessionPhase::Handshaking,
        e == SessionEvent::HandshakeNetworkError || e is HandshakeRefused,
    ensures
        step_spec(s, e).0.phase == SessionPhase::Pacing,
        step_spec(s, e).0.sensor == s.sensor,
        step_spec(s, e).1 == CommandModel::Pace,
{
}

/// A publish failure of either kind likewise tears the session down and
/// restarts the full iteration.
pub proof fn lemma_publish_failure_restarts(s: SessionLoop, e: SessionEvent)
    requires
        s.phase == SessionPhase::Publishing,
        e == SessionEvent::PublishNetworkError || e is PublishRefused,
    ensures
        step_spec(s, e).0.phase == SessionPhase::Pacing,
        step_spec(s, e).0.sensor == s.sensor,
        step_spec(s, e).1 == CommandModel::Pace,
{
}

/// The events of consecutive successful measure/publish cycles: each raw
/// register pair is followed by a publish acknowledgment and the idle
/// delay.
pub open spec fn steady_cycle_events(reads: Seq<(u8, u8)>) -> Seq<SessionEvent>
    decreases reads.len(),
{
    if reads.len() == 0 {
        seq![]
    } else {
        seq![
            SessionEvent::Measured { msb: reads[0].0, lsb: reads[0].1 },
            SessionEvent::PublishOk,
            SessionEvent::DelayElapsed,
        ] + steady_cycle_events(reads.drop_first())
    }
}

/// Over `n` consecutive successful measure/publish cycles the loop
/// prescribes exactly `n` publishes, the `i`-th carrying the payload of
/// the reading computed from the `i`-th raw register pair, and stands
/// ready to measure again afterwards with the calibration untouched.
pub proof fn lemma_steady_cycles_publish_each_reading(s: SessionLoop, reads: Seq<(u8, u8)>)
    requires
        s.phase == SessionPhase::Measuring,
        forall|i: int|
            0 <= i < reads.len() ==> temp_defined(
                s.sensor.cal,
                raw_reading((#[trigger] reads[i]).0, reads[i].1),
            ),
    ensures
        trace_fits(s, steady_cycle_events(reads)),
        run_commands(s, steady_cycle_events(reads)).len() == 3 * reads.len(),
        publish_count(run_commands(s, steady_cycle_events(reads))) == reads.len(),
        forall|i: int|
            0 <= i < reads.len() ==> #[trigger] run_commands(s, steady_cycle_events(reads))[3 * i]
                == (CommandModel::Publish {
                payload: payload_bytes(
                    temp_centi(s.sensor.cal, raw_reading(reads[i].0, reads[i].1)) as int,
                ),
            }),
        run_state(s, steady_cycle_events(reads)).phase == SessionPhase::Measuring,
        run_state(s, steady_cycle_events(reads)).sensor.cal == s.sensor.cal,
    decreases reads.len(),
{
    let events = steady_cycle_events(reads);
    lemma_run_length(s, events);
    if reads.len() > 0 {
        let e0 = SessionEvent::Measured { msb: reads[0].0, lsb: reads[0].1 };
        let rest = steady_cycle_events(reads.drop_first());
        let ev1 = events.drop_first();
        let ev2 = ev1.drop_first();
        let ev3 = ev2.drop_first();
        assert(temp_defined(s.sensor.cal, raw_reading((reads[0]).0, reads[0].1)));
        let s1 = step_spec(s, e0).0;
        let s2 = step_spec(s1, SessionEvent::PublishOk).0;
        let s3 = step_spec(s2, SessionEvent::DelayElapsed).0;
        assert(events[0] == e0);
        assert(ev1 =~= seq![SessionEvent::PublishOk, SessionEvent::DelayElapsed] + rest);
        assert(ev2 =~= seq![SessionEvent::DelayElapsed] + rest);
        assert(ev3 =~= rest);
        assert(s1.phase == SessionPhase::Publishing);
        assert(s2.phase == SessionPhase::Idling);
        assert(s3.phase == SessionPhase::Measuring);
        assert(s3.sensor.cal == s.sensor.cal);
        assert(forall|i: int|
            0 <= i < reads.drop_first().len() ==> #[trigger] reads.drop_first()[i] == reads[i
                + 1]);
        lemma_steady_cycles_publish_each_reading(s3, reads.drop_first());
        let c0 = step_spec(s, e0).1;
        let rest_cmds = run_commands(s3, rest);
        assert(run_commands(s, events) == seq![c0] + run_commands(s1, ev1));
        assert(run_commands(s1, ev1) == seq![CommandModel::IdleWait] + run_commands(s2, ev2));
        assert(run_commands(s2, ev2) == seq![CommandModel::Measure] + run_commands(s3, ev3));
        assert(run_commands(s3, ev3) == rest_cmds);
        let cmds = run_commands(s, events);
        assert(cmds =~= seq![c0, CommandModel::IdleWait, CommandModel::Measure] + rest_cmds);
        assert(run_state(s, events) == run_state(s1, ev1));
        assert(run_state(s1, ev1) == run_state(s2, ev2));
        assert(run_state(s2, ev2) == run_state(s3, ev3));
        assert(run_state(s3, ev3) == run_state(s3, rest));
        assert(trace_fits(s3, rest));
        assert(trace_fits(s2, ev2));
        assert(trace_fits(s1, ev1));
        assert(trace_fits(s, events));
        assert(publish_count(cmds) == 1 + publish_count(rest_cmds)) by {
            assert(cmds.drop_first() =~= seq![CommandModel::IdleWait, CommandModel::Measure]
                + rest_cmds);
            assert(cmds.drop_first().drop_first() =~= seq![CommandModel::Measure] + rest_cmds);
            assert(cmds.drop_first().drop_first().drop_first() =~= rest_cmds);
            assert(publish_count(cmds) == 1nat + publish_count(cmds.drop_first()));
            assert(publish_count(cmds.drop_first()) == publish_count(
                cmds.drop_first().drop_first(),
            ));
            assert(publish_count(cmds.drop_first().drop_first()) == publish_count(rest_cmds));
        }
        assert forall|i: int| 0 <= i < reads.len() implies #[trigger] run_commands(
            s,
            steady_cycle_events(reads),
        )[3 * i] == (CommandModel::Publish {
            payload: payload_bytes(
                temp_centi(s.sensor.cal, raw_reading(reads[i].0, reads[i].1)) as int,
            ),
        }) by {
            if i > 0 {
                assert(cmds[3 * i] == rest_cmds[3 * (i - 1)]);
                assert(reads.drop_first()[i - 1] == reads[i]);
            }
        }
    }
}

/// Every payload a steady run publishes is a decimal rendering with
/// exactly two fraction digits: it ends in a dot followed by two ASCII
/// digits.
pub proof fn lemma_steady_cycle_payloads_well_formed(s: SessionLoop, reads: Seq<(u8, u8)>)
    requires
        s.phase == SessionPhase::Measuring,
        forall|i: int|
            0 <= i < reads.len() ==> temp_defined(
                s.sensor.cal,
                raw_reading((#[trigger] reads[i]).0, reads[i].1),
            ),
    ensures
        forall|i: int|
            0 <= i < reads.len() ==> (#[trigger] run_commands(s, steady_cycle_events(reads))[3 * i]
                matches CommandModel::Publish { payload } && payload.len() >= 4 && payload[
                payload.len() - 3
            ] == 46u8 && 48 <= payload[payload.len() - 2] <= 57 && 48 <= payload[
                payload.len() - 1
            ] <= 57),
{
    lemma_steady_cycles_publish_each_reading(s, reads);
    assert forall|i: int| 0 <= i < reads.len() implies (#[trigger] run_commands(
        s,
        steady_cycle_events(reads),
    )[3 * i] matches CommandModel::Publish { payload } && payload.len() >= 4 && payload[
        payload.len() - 3
    ] == 46u8 && 48 <= payload[payload.len() - 2] <= 57 && 48 <= payload[
        payload.len() - 1
    ] <= 57) by {
        crate::payload::lemma_payload_two_fraction_digits(
            temp_centi(s.sensor.cal, raw_reading(reads[i].0, reads[i].1)) as int,
        );
    }
}

impl SessionLoop {
    /// Start the loop: the sensor driver is built once from the raw
    /// calibration block, and the first command to perform is the pacing
    /// delay.
    pub fn new(calibration_block: &[u8; 22]) -> (r: SessionLoop)
        ensures
            r.phase == SessionPhase::Pacing,
            r.sensor == (Bmp180 {
                cal: crate::calibration::decoded(calibration_block@),
                temp: 0,
            }),
    {
        SessionLoop { phase: SessionPhase::Pacing, sensor: Bmp180::new(calibration_block) }
    }

    /// The command that starts every run: the pacing delay.
    pub fn initial_command(&self) -> (c: SessionCommand)
        ensures
            c@ == CommandModel::Pace,
    {
        SessionCommand::Pace
    }

    /// Advance by one observed event and say what to do next.
    pub fn step(&mut self, e: SessionEvent) -> (cmd: SessionCommand)
        requires
            session_event_fits(old(self).phase, e),
        ensures
            *final(self) == step_spec(*old(self), e).0,
            cmd@ == step_spec(*old(self), e).1,
    {
        match e {
            SessionEvent::DelayElapsed => {
                if self.phase == SessionPhase::Idling {
                    self.phase = SessionPhase::Measuring;
                    SessionCommand::Measure
                } else {
                    self.phase = SessionPhase::Resolving;
                    SessionCommand::ResolveBroker
                }
            },
            SessionEvent::Resolved { addr } => {
                self.phase = SessionPhase::Connecting;
                SessionCommand::ConnectBroker { addr }
            },
            SessionEvent::ResolveFailed => {
                self.phase = SessionPhase::Pacing;
                SessionCommand::Pace
            },
            SessionEvent::Connected => {
                self.phase = SessionPhase::Handshaking;
                SessionCommand::Handshake
            },
            SessionEvent::ConnectFailed => {
                self.phase = SessionPhase::Pacing;
                SessionCommand::Pace
            },
            SessionEvent::HandshakeOk => {
                self.phase = SessionPhase::Measuring;
                SessionCommand::Measure
            },
            SessionEvent::HandshakeNetworkError => {
                self.phase = SessionPhase::Pacing;
                SessionCommand::Pace
            },
            SessionEvent::HandshakeRefused { code: _ } => {
                self.phase = SessionPhase::Pacing;
                SessionCommand::Pace
            },
            SessionEvent::Measured { msb, lsb } => {
                let updated = self.sensor.measure(msb, lsb);
                if updated {
                    let t = self.sensor.get_temperature();
                    let payload = format_temperature(t);
                    self.phase = SessionPhase::Publishing;
                    SessionCommand::Publish { payload }
                } else {
                    self.phase = SessionPhase::Pacing;
                    SessionCommand::Pace
                }
            },
            SessionEvent::MeasureFailed => {
                self.phase = SessionPhase::Pacing;
                SessionCommand::Pace
            },
            SessionEvent::PublishOk => {
                self.phase = SessionPhase::Idling;
                SessionCommand::IdleWait
            },
            SessionEvent::PublishNetworkError => {
                self.phase = SessionPhase::Pacing;
                SessionCommand::Pace
            },
            SessionEvent::PublishRefused { code: _ } => {
                self.phase = SessionPhase::Pacing;
                SessionCommand::Pace
            },
        }
    }
}

} // verus!
