//! The link supervisor: the state machine that keeps the wireless
//! association alive. The runtime performs the radio operations the machine
//! prescribes (configure and start the station, request a connection, wait
//! for a disconnect) and feeds their outcomes back in; every failure and
//! every disconnect is answered with a flat backoff and another attempt,
//! forever.

use vstd::prelude::*;

verus! {

/// Flat delay before every renewed association attempt, in milliseconds.
pub const LINK_BACKOFF_MS: u32 = 5000;

/// The association's observable state.
#[derive(Clone, Copy, PartialEq, Eq, Structural, Debug)]
pub enum LinkState {
    /// The radio is not started: station credentials must be configured and
    /// the radio activated.
    Disconnected,
    /// The radio is started but not associated: a connect request is due.
    Connecting,
    /// Associated; nothing to do until a disconnect event arrives.
    Connected,
}

/// The radio operation the supervisor asks of the runtime in a given state.
#[derive(Clone, Copy, PartialEq, Eq, Structural, Debug)]
pub enum LinkCommand {
    /// Configure station credentials and activate the radio.
    ConfigureAndStart,
    /// Request association with the configured access point.
    AttemptConnect,
    /// Block until a disconnect event is observed.
    AwaitDisconnect,
}

/// The outcome the runtime observed for the command it performed.
#[derive(Clone, Copy, PartialEq, Eq, Structural, Debug)]
pub enum LinkEvent {
    /// The radio started.
    StartOk,
    /// Activation failed.
    StartFailed,
    /// The connect request succeeded.
    ConnectOk,
    /// The connect request failed.
    ConnectFailed,
    /// A disconnect event was observed while associated.
    DisconnectObserved,
}

/// Which events can answer the command prescribed in a state.
pub open spec fn link_event_fits(s: LinkState, e: LinkEvent) -> bool {
    match s {
        LinkState::Disconnected => e == LinkEvent::StartOk || e == LinkEvent::StartFailed,
        LinkState::Connecting => e == LinkEvent::ConnectOk || e == LinkEvent::ConnectFailed,
        LinkState::Connected => e == LinkEvent::DisconnectObserved,
    }
}

/// The state after observing `e` in state `s`, and whether the flat backoff
/// is due before the next command.
pub open spec fn link_next(s: LinkState, e: LinkEvent) -> (LinkState, bool) {
    match e {
        LinkEvent::StartOk => (LinkState::Connecting, false),
        LinkEvent::StartFailed => (LinkState::Disconnected, true),
        LinkEvent::ConnectOk => (LinkState::Connected, false),
        LinkEvent::ConnectFailed => (LinkState::Connecting, true),
        LinkEvent::DisconnectObserved => (LinkState::Connecting, true),
    }
}

/// The radio operation due in state `s`.
pub open spec fn link_command_spec(s: LinkState) -> LinkCommand {
    match s {
        LinkState::Disconnected => LinkCommand::ConfigureAndStart,
        LinkState::Connecting => LinkCommand::AttemptConnect,
        LinkState::Connected => LinkCommand::AwaitDisconnect,
    }
}

/// The radio operation due in state `s`.
pub fn link_command(s: LinkState) -> (c: LinkCommand)
    ensures
        c == link_command_spec(s),
{
    match s {
        LinkState::Disconnected => LinkCommand::ConfigureAndStart,
        LinkState::Connecting => LinkCommand::AttemptConnect,
        LinkState::Connected => LinkCommand::AwaitDisconnect,
    }
}

/// Advance the supervisor by one observed event. Returns the next state and
/// whether the flat backoff is due before the next command.
pub fn link_step(s: LinkState, e: LinkEvent) -> (r: (LinkState, bool))
    requires
        link_event_fits(s, e),
    ensures
        r == link_next(s, e),
        r.1 == (e == LinkEvent::StartFailed || e == LinkEvent::ConnectFailed || e
            == LinkEvent::DisconnectObserved),
        r.0 == LinkState::Connected <==> e == LinkEvent::ConnectOk,
{
    match e {
        LinkEvent::StartOk => (LinkState::Connecting, false),
        LinkEvent::StartFailed => (LinkState::Disconnected, true),
        LinkEvent::ConnectOk => (LinkState::Connected, false),
        LinkEvent::ConnectFailed => (LinkState::Connecting, true),
        LinkEvent::DisconnectObserved => (LinkState::Connecting, true),
    }
}

/// The states the supervisor passes through over a run: element `i` of the
/// result is the state after the first `i` events.
pub open spec fn link_trace(s0: LinkState, events: Seq<LinkEvent>) -> Seq<LinkState>
    decreases events.len(),
{
    if events.len() == 0 {
        seq![s0]
    } else {
        seq![s0] + link_trace(link_next(s0, events[0]).0, events.drop_first())
    }
}

/// The supervision loop never terminates and always answers a disconnect
/// with a reconnection attempt: over any run, the trace covers every event
/// and one more state, and immediately after each observed disconnect the
/// supervisor is in a state whose command is a connect request.
pub proof fn lemma_supervisor_never_gives_up(s0: LinkState, events: Seq<LinkEvent>)
    ensures
        link_trace(s0, events).len() == events.len() + 1,
        forall|i: int|
            0 <= i < events.len() && events[i] == LinkEvent::DisconnectObserved
                ==> link_command_spec(#[trigger] link_trace(s0, events)[i + 1])
                == LinkCommand::AttemptConnect,
    decreases events.len(),
{
    if events.len() > 0 {
        let s1 = link_next(s0, events[0]).0;
        lemma_supervisor_never_gives_up(s1, events.drop_first());
        assert forall|i: int|
            0 <= i < events.len() && events[i] == LinkEvent::DisconnectObserved implies
            link_command_spec(#[trigger] link_trace(s0, events)[i + 1])
                == LinkCommand::AttemptConnect by {
            if i > 0 {
                assert(events.drop_first()[i - 1] == events[i]);
                assert(link_trace(s0, events)[i + 1] == link_trace(s1, events.drop_first())[i]);
            }
        }
    }
}

} // verus!
