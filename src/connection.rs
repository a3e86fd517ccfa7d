use vstd::prelude::*;

verus! {

/// L2CAP protocol/service multiplexer of the control channel.
pub const PSM: u16 = 0x1001;
/// Budget for connecting and for the channel to be fully established, in milliseconds.
pub const CONNECT_TIMEOUT_MS: u64 = 10000;
/// Pause between two reads of the peer address, in milliseconds.
pub const POLL_INTERVAL_MS: u64 = 200;
/// Capacity of the outbound queue.
pub const QUEUE_CAPACITY: usize = 128;
/// The OS error code for a socket that is not connected.
pub const ENOTCONN: i32 = 107;

/// Where the setup of a session stands.
#[derive(Debug, Clone, Copy, PartialEq, Eq, Structural)]
pub enum ConnectPhase {
    Idle,
    Connecting,
    WaitingForCid,
    Ready,
    Closed,
}

/// What the host observed.
#[derive(Debug, Clone, Copy, PartialEq, Eq, Structural)]
pub enum ConnectEvent {
    /// `connect` was called.
    Start,
    /// The socket could not be created, or connecting failed.
    SocketFailed,
    /// Connecting did not finish within the budget.
    ConnectTimedOut,
    /// The socket is connected.
    Connected,
    /// The peer address was read; `elapsed_ms` is the time since polling began.
    PeerPolled { cid: u16, elapsed_ms: u64 },
    /// Reading the peer address failed.
    PeerError { os_code: Option<i32>, elapsed_ms: u64 },
    /// The receive loop ended.
    ReceiveEnded,
}

/// What the host is to do next.
#[derive(Debug, Clone, Copy, PartialEq, Eq, Structural)]
pub enum ConnectAction {
    /// Record the peer, create the socket and connect it to the PSM, within the budget.
    OpenSocket,
    /// Read the peer address.
    PollPeer,
    /// Wait this long, then read the peer address again.
    WaitThenPoll { ms: u64 },
    /// Open a queue of this capacity and start the receive and send loops.
    StartSession { queue_capacity: usize },
    /// Drop the socket; the session does not start.
    GiveUp,
    /// Nothing to do.
    Nothing,
}

/// The next phase and action for an event.
pub open spec fn connect_next(phase: ConnectPhase, event: ConnectEvent) -> (ConnectPhase, ConnectAction) {
    match (phase, event) {
        (ConnectPhase::Idle, ConnectEvent::Start) => (ConnectPhase::Connecting, ConnectAction::OpenSocket),
        (ConnectPhase::Closed, ConnectEvent::Start) => (ConnectPhase::Connecting, ConnectAction::OpenSocket),
        (ConnectPhase::Connecting, ConnectEvent::Connected) => (ConnectPhase::WaitingForCid, ConnectAction::PollPeer),
        (ConnectPhase::Connecting, ConnectEvent::SocketFailed) => (ConnectPhase::Closed, ConnectAction::GiveUp),
        (ConnectPhase::Connecting, ConnectEvent::ConnectTimedOut) => (ConnectPhase::Closed, ConnectAction::GiveUp),
        (ConnectPhase::WaitingForCid, ConnectEvent::PeerPolled { cid, elapsed_ms }) => if cid != 0 {
            (ConnectPhase::Ready, ConnectAction::StartSession { queue_capacity: QUEUE_CAPACITY })
        } else if elapsed_ms >= CONNECT_TIMEOUT_MS {
            (ConnectPhase::Closed, ConnectAction::GiveUp)
        } else {
            (ConnectPhase::WaitingForCid, ConnectAction::WaitThenPoll { ms: POLL_INTERVAL_MS })
        },
        (ConnectPhase::WaitingForCid, ConnectEvent::PeerError { os_code, elapsed_ms }) => if os_code == Some(ENOTCONN) || elapsed_ms >= CONNECT_TIMEOUT_MS {
            (ConnectPhase::Closed, ConnectAction::GiveUp)
        } else {
            (ConnectPhase::WaitingForCid, ConnectAction::WaitThenPoll { ms: POLL_INTERVAL_MS })
        },
        (ConnectPhase::Ready, ConnectEvent::ReceiveEnded) => (ConnectPhase::Closed, ConnectAction::Nothing),
        _ => (phase, ConnectAction::Nothing),
    }
}

/// Decides the next phase and action of the session setup.
pub fn connect_step(phase: ConnectPhase, event: ConnectEvent) -> (r: (ConnectPhase, ConnectAction))
    ensures
        r == connect_next(phase, event),
        r.1 is StartSession ==> phase == ConnectPhase::WaitingForCid && r.0 == ConnectPhase::Ready,
        r.0 == ConnectPhase::Ready ==> phase == ConnectPhase::Ready || r.1 is StartSession,
{
    match (phase, event) {
        (ConnectPhase::Idle, ConnectEvent::Start) => (ConnectPhase::Connecting, ConnectAction::OpenSocket),
        (ConnectPhase::Closed, ConnectEvent::Start) => (ConnectPhase::Connecting, ConnectAction::OpenSocket),
        (ConnectPhase::Connecting, ConnectEvent::Connected) => (ConnectPhase::WaitingForCid, ConnectAction::PollPeer),
        (ConnectPhase::Connecting, ConnectEvent::SocketFailed) => (ConnectPhase::Closed, ConnectAction::GiveUp),
        (ConnectPhase::Connecting, ConnectEvent::ConnectTimedOut) => (ConnectPhase::Closed, ConnectAction::GiveUp),
        (ConnectPhase::WaitingForCid, ConnectEvent::PeerPolled { cid, elapsed_ms }) => {
            if cid != 0 {
                (ConnectPhase::Ready, ConnectAction::StartSession { queue_capacity: QUEUE_CAPACITY })
            } else if elapsed_ms >= CONNECT_TIMEOUT_MS {
                (ConnectPhase::Closed, ConnectAction::GiveUp)
            } else {
                (ConnectPhase::WaitingForCid, ConnectAction::WaitThenPoll { ms: POLL_INTERVAL_MS })
            }
        },
        (ConnectPhase::WaitingForCid, ConnectEvent::PeerError { os_code, elapsed_ms }) => {
            let not_connected = match os_code {
                Some(c) => c == ENOTCONN,
                None => false,
            };
            if not_connected || elapsed_ms >= CONNECT_TIMEOUT_MS {
                (ConnectPhase::Closed, ConnectAction::GiveUp)
            } else {
                (ConnectPhase::WaitingForCid, ConnectAction::WaitThenPoll { ms: POLL_INTERVAL_MS })
            }
        },
        (ConnectPhase::Ready, ConnectEvent::ReceiveEnded) => (ConnectPhase::Closed, ConnectAction::Nothing),
        _ => (phase, ConnectAction::Nothing),
    }
}

} // verus!
