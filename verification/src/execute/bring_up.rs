//! Bringing the whole network up: connect to every known peer, arm, and start the
//! pumps of what came up.
//!
//! The contract that is armed is computed from the peers that came up, so connecting
//! comes first. A refusal to arm is the outcome of the operation, and is not swallowed.

use vstd::prelude::*;

use crate::execute::establishment::saturated;
use crate::instance::Core;
use crate::reason::Diagnostic;
use crate::session_table::{carried, lists_names, names_of, SessionModel};
use crate::types::{DeviceId, SessionId};

verus! {

/// A session and its peer.
#[derive(Debug, Clone, Copy, PartialEq, Eq)]
pub struct KnownPeer {
    /// The session.
    pub session_id: SessionId,
    /// Its peer.
    pub peer: DeviceId,
}

/// What bringing up waits for.
#[derive(Debug, Clone, Copy, PartialEq, Eq, Structural)]
pub enum UpStage {
    /// A connect.
    Connecting,
    /// The rules.
    Arming,
    /// A pump.
    Starting,
}

/// The network, while it is brought up.
#[derive(Debug)]
pub struct UpRun {
    /// The sessions that were known when it began.
    pub peers: Vec<KnownPeer>,
    /// The sessions that a tunnel carried when the rules were armed.
    pub established: Vec<SessionId>,
    /// Which of them is next.
    pub at: usize,
    /// How many effects there were.
    pub effects: u32,
    /// What it waits for.
    pub stage: UpStage,
}

/// What came back.
#[derive(Debug, Clone, Copy)]
pub enum UpEvent {
    /// A connect ended: how many effects it had, or why it was refused.
    Connected(Result<u32, Diagnostic>),
    /// Arming ended.
    Armed(Result<(), Diagnostic>),
    /// Starting a pump ended: whether it runs.
    Started(bool),
}

/// What to do next.
#[derive(Debug, Clone, Copy)]
pub enum UpAction {
    /// Connect to this peer.
    Connect(KnownPeer),
    /// Arm.
    Arm,
    /// Start this session's pump.
    Start(SessionId),
    /// Nothing more: how many effects there were, or why it is refused.
    Done(Result<u32, Diagnostic>),
}

/// The event answers what the stage waits for.
pub open spec fn up_fits(run: UpRun, event: UpEvent) -> bool {
    match run.stage {
        UpStage::Connecting => event is Connected && run.at < run.peers@.len(),
        UpStage::Arming => event is Armed,
        UpStage::Starting => event is Started && run.at < run.established@.len(),
    }
}

/// The next peer is connected to; after the last one the rules are armed.
pub open spec fn connects_on(run: UpRun) -> (UpRun, UpAction) {
    if run.at < run.peers@.len() {
        (
            UpRun { stage: UpStage::Connecting, ..run },
            UpAction::Connect(run.peers@[run.at as int]),
        )
    } else {
        (UpRun { stage: UpStage::Arming, ..run }, UpAction::Arm)
    }
}

/// The next pump is started; after the last one it is over. Having brought the network
/// up is an effect by itself.
pub open spec fn starts_on(run: UpRun) -> (UpRun, UpAction) {
    if run.at < run.established@.len() {
        (
            UpRun { stage: UpStage::Starting, ..run },
            UpAction::Start(run.established@[run.at as int]),
        )
    } else {
        (
            UpRun { stage: UpStage::Starting, ..run },
            UpAction::Done(
                Ok(
                    if run.effects == 0 {
                        1
                    } else {
                        run.effects
                    },
                ),
            ),
        )
    }
}

/// The list holds each known session once, with its peer.
pub open spec fn lists_peers(sessions: Map<Seq<u8>, SessionModel>, peers: Seq<KnownPeer>) -> bool {
    &&& lists_names(sessions, peers.map_values(|p: KnownPeer| p.session_id))
    &&& forall|i: int|
        0 <= i < peers.len() ==> (#[trigger] peers[i]).peer
            == sessions[peers[i].session_id.bytes@].peer
}

fn known_peers(core: &Core) -> (peers: Vec<KnownPeer>)
    requires
        core.wf(),
    ensures
        lists_peers(core@.sessions, peers@),
{
    let ids = core.sessions.ids();
    let mut peers: Vec<KnownPeer> = Vec::new();
    let mut i: usize = 0;
    while i < ids.len()
        invariant
            i <= ids@.len(),
            core.wf(),
            lists_names(core@.sessions, ids@),
            peers@.len() == i,
            forall|j: int|
                0 <= j < i ==> (#[trigger] peers@[j]).session_id == ids@[j] && peers@[j].peer
                    == core@.sessions[ids@[j].bytes@].peer,
        decreases ids@.len() - i,
    {
        let id = ids[i];
        assert(core@.sessions.contains_key(id.bytes@));
        if let Some(entry) = core.sessions.get(id) {
            peers.push(KnownPeer { session_id: id, peer: entry.peer });
        }
        i += 1;
    }
    assert(peers@.map_values(|p: KnownPeer| p.session_id) =~= ids@);
    peers
}

fn connect_on(run: UpRun) -> (r: (UpRun, UpAction))
    ensures
        r == connects_on(run),
{
    if run.at < run.peers.len() {
        let peer = run.peers[run.at];
        (UpRun { stage: UpStage::Connecting, ..run }, UpAction::Connect(peer))
    } else {
        (UpRun { stage: UpStage::Arming, ..run }, UpAction::Arm)
    }
}

fn start_on(run: UpRun) -> (r: (UpRun, UpAction))
    ensures
        r == starts_on(run),
{
    if run.at < run.established.len() {
        let id = run.established[run.at];
        (UpRun { stage: UpStage::Starting, ..run }, UpAction::Start(id))
    } else {
        let effects: u32 = if run.effects == 0 { 1 } else { run.effects };
        (UpRun { stage: UpStage::Starting, ..run }, UpAction::Done(Ok(effects)))
    }
}

/// How bringing the network up begins: with every session that is known.
pub open spec fn up_first(sessions: Map<Seq<u8>, SessionModel>, r: (UpRun, UpAction)) -> bool {
    &&& lists_peers(sessions, r.0.peers@)
    &&& r.0.established@.len() == 0
    &&& r == connects_on(
        (UpRun {
            peers: r.0.peers,
            established: r.0.established,
            at: 0,
            effects: 0,
            stage: UpStage::Connecting,
        }),
    )
}

/// One decision of bringing the network up; `order` is that of the sessions.
pub open spec fn up_next(
    sessions: Map<Seq<u8>, SessionModel>,
    order: Seq<Seq<u8>>,
    run: UpRun,
    event: UpEvent,
    r: (UpRun, UpAction),
) -> bool {
    match event {
        UpEvent::Connected(ended) => r == connects_on(
            (UpRun {
                at: (run.at + 1) as usize,
                effects: match ended {
                    Ok(effects) => saturated(run.effects + effects),
                    Err(_) => run.effects,
                },
                ..run
            }),
        ),
        UpEvent::Armed(Err(diagnostic)) => r == (run, UpAction::Done(Err(diagnostic))),
        UpEvent::Armed(Ok(())) => {
            &&& names_of(r.0.established@) == carried(sessions, order)
            &&& r == starts_on(
                (UpRun {
                    established: r.0.established,
                    at: 0,
                    effects: saturated(run.effects + 1),
                    ..run
                }),
            )
        },
        UpEvent::Started(running) => r == starts_on(
            (UpRun {
                at: (run.at + 1) as usize,
                effects: if running {
                    saturated(run.effects + 1)
                } else {
                    run.effects
                },
                ..run
            }),
        ),
    }
}

/// Begins to bring the network up.
pub fn net_up(core: &Core) -> (r: (UpRun, UpAction))
    requires
        core.wf(),
    ensures
        up_first(core@.sessions, r),
{
    let peers = known_peers(core);
    let established: Vec<SessionId> = Vec::new();
    connect_on(UpRun { peers, established, at: 0, effects: 0, stage: UpStage::Connecting })
}

/// Takes what came back, and says what to do next. A peer that could not be connected
/// to does not keep the others from it; a refusal to arm ends it.
pub fn net_up_step(core: &Core, run: UpRun, event: UpEvent) -> (r: (UpRun, UpAction))
    requires
        core.wf(),
        up_fits(run, event),
    ensures
        up_next(core@.sessions, core.sessions.order(), run, event, r),
{
    match event {
        UpEvent::Connected(ended) => {
            let effects: u32 = match ended {
                Ok(effects) => run.effects.saturating_add(effects),
                Err(_) => run.effects,
            };
            let at: usize = if run.at < run.peers.len() { run.at + 1 } else { run.at };
            connect_on(UpRun { at, effects, ..run })
        },
        UpEvent::Armed(ended) => match ended {
            Err(diagnostic) => (run, UpAction::Done(Err(diagnostic))),
            Ok(()) => {
                let established = core.sessions.carrying();
                let effects: u32 = run.effects.saturating_add(1);
                start_on(UpRun { established, at: 0, effects, ..run })
            },
        },
        UpEvent::Started(running) => {
            let effects: u32 = if running {
                run.effects.saturating_add(1)
            } else {
                run.effects
            };
            let at: usize = if run.at < run.established.len() { run.at + 1 } else { run.at };
            start_on(UpRun { at, effects, ..run })
        },
    }
}

} // verus!
