//! The vocabulary of a session: the path classes, the states, and the record of a
//! session that outlives the process.

use vstd::prelude::*;

use crate::reason::ReasonCode;
use crate::types::{DeviceId, SessionId};

verus! {

/// What carries a session's traffic.
#[derive(Debug, Clone, Copy, PartialEq, Eq, Structural)]
pub enum PathClass {
    /// Directly, on the local network.
    LocalDirect,
    /// Directly, across the internet.
    WanDirect,
    /// Through a relay.
    Relayed,
}

/// Where a session stands.
#[derive(Debug, Clone, Copy, PartialEq, Eq, Structural)]
pub enum SessionState {
    /// No session is wanted.
    Disconnected,
    /// Looking for candidates.
    Discovering,
    /// Trying candidates.
    Negotiating,
    /// Shaking hands.
    Connecting,
    /// Carrying traffic.
    Steady(PathClass),
    /// Moving from one path to another.
    Migrating {
        /// The path that is left.
        from: PathClass,
        /// The path that is taken.
        to: PathClass,
    },
    /// Carrying traffic badly.
    Degraded {
        /// The path that still carries.
        carrier: PathClass,
    },
    /// The path is lost and wanted back.
    Reconnecting {
        /// Whether retrying is paused.
        parked: bool,
    },
    /// Refused by policy.
    Blocked,
    /// Given up.
    Failed,
}

/// Where all sessions together stand.
#[derive(Debug, Clone, Copy, PartialEq, Eq, Structural)]
#[non_exhaustive]
pub enum ConnectionState {
    /// No session is wanted.
    Disconnected,
    /// Looking for candidates.
    Discovering,
    /// Trying candidates.
    Negotiating,
    /// Shaking hands.
    Connecting,
    /// Carrying traffic.
    Connected,
    /// Moving from one path to another.
    Migrating,
    /// Carrying traffic badly.
    Degraded,
    /// The path is lost and wanted back.
    Reconnecting,
    /// Refused by policy.
    Blocked,
    /// Given up.
    Failed,
}

/// What of a session survives a restart: its identity and where it last stood. No
/// key, no replay window, no relay allocation.
#[derive(Debug, Clone, Copy, PartialEq, Eq)]
pub struct DurableSession {
    /// The session.
    pub session_id: SessionId,
    /// Its peer.
    pub peer: DeviceId,
    /// Where it last stood.
    pub last_state: SessionState,
    /// Why.
    pub last_reason: Option<ReasonCode>,
}

/// Where a session that stood here resumes after a restart: it is wanted back, unless
/// it was not wanted.
pub open spec fn resumes_in(state: SessionState) -> SessionState {
    if state == SessionState::Disconnected {
        SessionState::Disconnected
    } else {
        SessionState::Reconnecting { parked: false }
    }
}

impl DurableSession {
    /// Where the session resumes after a restart.
    #[must_use]
    pub fn resume_state(&self) -> (state: SessionState)
        ensures
            state == resumes_in(self.last_state),
    {
        match self.last_state {
            SessionState::Disconnected => SessionState::Disconnected,
            _ => SessionState::Reconnecting { parked: false },
        }
    }
}

/// What a session's machine is told.
#[derive(Debug, Clone, Copy, PartialEq, Eq, Structural)]
pub enum Event {
    /// A connection is wanted.
    ConnectRequested,
    /// A usable candidate was found.
    CandidatesReady,
    /// No family produced a candidate.
    CandidateTimeout,
    /// The negotiated inputs are held.
    NegotiationOk,
    /// The negotiated inputs are not held.
    NegotiationFail,
    /// A handshake completed on a path of this class.
    HandshakeOk(PathClass),
    /// No handshake completed.
    HandshakeFail,
    /// The session is no longer wanted.
    DisconnectRequested,
    /// The host is about to sleep.
    Suspend,
    /// The host woke.
    Resume,
    /// The client went to the background.
    Background,
    /// The client came to the foreground.
    Foreground,
    /// A link came up.
    LinkUp,
    /// No link is up.
    LinkDown,
}

/// The facts a machine's transition may depend on. A fact nobody established is
/// `false`.
#[derive(Debug, Clone, Copy, PartialEq, Eq, Structural)]
pub struct Guards {
    /// This device holds credentials.
    pub credentials_valid: bool,
    /// The peer is authorized.
    pub peer_authorized: bool,
    /// A candidate can be used.
    pub usable_candidate: bool,
    /// Neither family produced a candidate.
    pub no_candidate_either_family: bool,
    /// Another attempt is allowed.
    pub retry_budget_available: bool,
    /// The path was validated in both directions, with authentication.
    pub path_validated: bool,
    /// No path on the local network won.
    pub no_l2_path_won: bool,
    /// No direct path won.
    pub no_direct_path_won: bool,
}

impl Guards {
    /// Nothing is established.
    pub open spec fn none() -> Guards {
        Guards {
            credentials_valid: false,
            peer_authorized: false,
            usable_candidate: false,
            no_candidate_either_family: false,
            retry_budget_available: false,
            path_validated: false,
            no_l2_path_won: false,
            no_direct_path_won: false,
        }
    }
}

impl Default for Guards {
    fn default() -> (g: Self)
        ensures
            g == Guards::none(),
    {
        Guards {
            credentials_valid: false,
            peer_authorized: false,
            usable_candidate: false,
            no_candidate_either_family: false,
            retry_budget_available: false,
            path_validated: false,
            no_l2_path_won: false,
            no_direct_path_won: false,
        }
    }
}

} // verus!
