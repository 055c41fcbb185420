//! The handshake between two devices: who speaks first, how its two messages are
//! framed, and each decision on the way to a tunnel.
//!
//! [`Drive`] holds one attempt. It is told what came back of its last action and
//! says what to do next; it ends in a [`Handshaken`] or in a [`Refusal`], and there
//! is no third end.

use vstd::prelude::*;

use crate::datapath::frame::ReceiverIndex;
use crate::datapath::outcome::PlatformError;
use crate::octets;
use crate::octets::{before, le32, le32_value};
use crate::reason::ReasonCode;
use crate::types::{DeviceId, Endpoint, SessionId};

verus! {

/// The type octet of an initiation.
pub const TYPE_HANDSHAKE_INITIATION: u8 = 1;

/// The type octet of a response.
pub const TYPE_HANDSHAKE_RESPONSE: u8 = 2;

/// The type, three reserved octets and one index.
pub const INITIATION_PREFIX_BYTES: usize = 8;

/// The same, and the index that the responder echoes.
pub const RESPONSE_PREFIX_BYTES: usize = 12;

/// The largest handshake datagram that is read.
pub const MAX_HANDSHAKE_DATAGRAM_BYTES: usize = 1280;

/// Why a handshake did not complete.
#[derive(Debug, Clone, Copy, PartialEq, Eq)]
#[non_exhaustive]
pub enum Refusal {
    /// No key material is installed for the peer.
    NoKeyMaterial,
    /// No endpoint is known for the peer.
    NoEndpoint,
    /// The handshake was refused; which check refused it is not told apart.
    Rejected,
    /// The peer did not answer before the deadline.
    NoResponse,
    /// A datagram that is not a handshake message.
    Malformed,
    /// The platform refused the send or the receive.
    Platform(PlatformError),
}

impl Refusal {
    /// The registered code.
    pub open spec fn code(self) -> ReasonCode {
        match self {
            Refusal::NoKeyMaterial => ReasonCode::AuthKeyUnavailable,
            Refusal::NoEndpoint => ReasonCode::NetNoUsableCandidates,
            Refusal::Rejected => ReasonCode::CryptoHandshakeRejected,
            Refusal::NoResponse => ReasonCode::CryptoNoResponse,
            Refusal::Malformed => ReasonCode::ProtoMalformedMessage,
            Refusal::Platform(error) => error.code,
        }
    }

    /// The registered code.
    #[must_use]
    pub fn reason_code(&self) -> (c: ReasonCode)
        ensures
            c == self.code(),
    {
        match self {
            Refusal::NoKeyMaterial => ReasonCode::AuthKeyUnavailable,
            Refusal::NoEndpoint => ReasonCode::NetNoUsableCandidates,
            Refusal::Rejected => ReasonCode::CryptoHandshakeRejected,
            Refusal::NoResponse => ReasonCode::CryptoNoResponse,
            Refusal::Malformed => ReasonCode::ProtoMalformedMessage,
            Refusal::Platform(error) => error.code,
        }
    }
}

/// Which end of the handshake a device is.
#[derive(Debug, Clone, Copy, PartialEq, Eq, Structural)]
pub enum Role {
    /// It speaks first.
    Initiator,
    /// It answers.
    Responder,
}

/// The device whose identifier sorts lower speaks first.
pub open spec fn role_of(local: DeviceId, peer: DeviceId) -> Role {
    if before(local.bytes@, peer.bytes@) {
        Role::Initiator
    } else {
        Role::Responder
    }
}

/// The initiator and the responder of two devices.
pub open spec fn order_of(local: DeviceId, peer: DeviceId) -> (DeviceId, DeviceId) {
    match role_of(local, peer) {
        Role::Initiator => (local, peer),
        Role::Responder => (peer, local),
    }
}

/// Which end a device is, from the two identifiers alone: never a race and never a
/// choice.
#[must_use]
pub fn role_for(local: DeviceId, peer: DeviceId) -> (role: Role)
    ensures
        role == role_of(local, peer),
{
    if octets::is_before(local.bytes.as_slice(), peer.bytes.as_slice()) {
        Role::Initiator
    } else {
        Role::Responder
    }
}

/// The initiator and the responder, in that order.
#[must_use]
pub fn ordered(local: DeviceId, peer: DeviceId) -> (pair: (DeviceId, DeviceId))
    ensures
        pair == order_of(local, peer),
{
    match role_for(local, peer) {
        Role::Initiator => (local, peer),
        Role::Responder => (peer, local),
    }
}

proof fn one_comes_first(a: Seq<u8>, b: Seq<u8>)
    requires
        a.len() == b.len(),
        a != b,
    ensures
        before(a, b) != before(b, a),
{
    let k = first_difference(a, b, 0);
    if a[k] < b[k] {
        assert(octets::splits(a, b, k));
    } else {
        assert(octets::splits(b, a, k));
    }
    if before(a, b) && before(b, a) {
        octets::before_transitive(a, b, a);
        octets::before_irreflexive(a);
    }
}

proof fn first_difference(a: Seq<u8>, b: Seq<u8>, from: int) -> (k: int)
    requires
        a.len() == b.len(),
        a != b,
        0 <= from <= a.len(),
        forall|i: int| 0 <= i < from ==> a[i] == b[i],
    ensures
        from <= k < a.len(),
        a[k] != b[k],
        forall|i: int| 0 <= i < k ==> a[i] == b[i],
    decreases a.len() - from,
{
    if from == a.len() {
        assert(a =~= b);
        from
    } else if a[from] != b[from] {
        from
    } else {
        first_difference(a, b, from + 1)
    }
}

/// Two different devices never take the same role: exactly one speaks first.
pub proof fn two_ends_take_two_roles(a: DeviceId, b: DeviceId)
    requires
        a != b,
    ensures
        role_of(a, b) != role_of(b, a),
{
    if a.bytes@ == b.bytes@ {
        assert(a.bytes =~= b.bytes);
    }
    one_comes_first(a.bytes@, b.bytes@);
}

/// Both ends order the two identifiers the same way, so both bind the same pair.
pub proof fn both_ends_order_the_pair_the_same_way(a: DeviceId, b: DeviceId)
    ensures
        order_of(a, b) == order_of(b, a),
{
    if a != b {
        two_ends_take_two_roles(a, b);
    }
}

/// The octets of an initiation.
pub open spec fn initiation_octets(sender: ReceiverIndex, message: Seq<u8>) -> Seq<u8> {
    seq![TYPE_HANDSHAKE_INITIATION, 0, 0, 0] + le32(sender.0) + message
}

/// The octets of a response.
pub open spec fn response_octets(
    sender: ReceiverIndex,
    receiver: ReceiverIndex,
    message: Seq<u8>,
) -> Seq<u8> {
    seq![TYPE_HANDSHAKE_RESPONSE, 0, 0, 0] + le32(sender.0) + le32(receiver.0) + message
}

/// Assembles an initiation.
#[must_use]
pub fn encode_initiation(sender: ReceiverIndex, message: &[u8]) -> (out: Vec<u8>)
    ensures
        out@ == initiation_octets(sender, message@),
{
    let mut out: Vec<u8> = Vec::new();
    out.push(TYPE_HANDSHAKE_INITIATION);
    out.push(0);
    out.push(0);
    out.push(0);
    octets::put_le32(&mut out, sender.0);
    octets::put_slice(&mut out, message);
    assert(out@ =~= initiation_octets(sender, message@));
    out
}

/// Assembles a response.
#[must_use]
pub fn encode_response(sender: ReceiverIndex, receiver: ReceiverIndex, message: &[u8]) -> (out: Vec<
    u8,
>)
    ensures
        out@ == response_octets(sender, receiver, message@),
{
    let mut out: Vec<u8> = Vec::new();
    out.push(TYPE_HANDSHAKE_RESPONSE);
    out.push(0);
    out.push(0);
    out.push(0);
    octets::put_le32(&mut out, sender.0);
    octets::put_le32(&mut out, receiver.0);
    octets::put_slice(&mut out, message);
    assert(out@ =~= response_octets(sender, receiver, message@));
    out
}

/// A datagram that is an initiation: its type, reserved octets that are zero, and a
/// message that is not empty.
pub open spec fn is_initiation(d: Seq<u8>) -> bool {
    &&& d.len() > INITIATION_PREFIX_BYTES
    &&& d[0] == TYPE_HANDSHAKE_INITIATION
    &&& d[1] == 0
    &&& d[2] == 0
    &&& d[3] == 0
}

/// A datagram that is a response.
pub open spec fn is_response(d: Seq<u8>) -> bool {
    &&& d.len() > RESPONSE_PREFIX_BYTES
    &&& d[0] == TYPE_HANDSHAKE_RESPONSE
    &&& d[1] == 0
    &&& d[2] == 0
    &&& d[3] == 0
}

/// The index at a position of a datagram.
pub open spec fn index_in(d: Seq<u8>, at: int) -> ReceiverIndex {
    ReceiverIndex(le32_value(d.subrange(at, at + 4)))
}

fn index_at(datagram: &[u8], offset: usize) -> (index: ReceiverIndex)
    requires
        offset + 4 <= datagram@.len(),
    ensures
        index == index_in(datagram@, offset as int),
{
    ReceiverIndex(octets::get_le32(datagram, offset))
}

/// Splits an initiation into the sender's index and the message.
pub fn parse_initiation(datagram: &[u8]) -> (r: Result<(ReceiverIndex, &[u8]), Refusal>)
    ensures
        match r {
            Ok((sender, body)) => is_initiation(datagram@) && sender == index_in(datagram@, 4)
                && body@ == datagram@.skip(INITIATION_PREFIX_BYTES as int),
            Err(e) => !is_initiation(datagram@) && e == Refusal::Malformed,
        },
{
    if datagram.len() <= INITIATION_PREFIX_BYTES || datagram[0] != TYPE_HANDSHAKE_INITIATION
        || datagram[1] != 0 || datagram[2] != 0 || datagram[3] != 0 {
        return Err(Refusal::Malformed);
    }
    let sender = index_at(datagram, 4);
    let body = &datagram[INITIATION_PREFIX_BYTES..datagram.len()];
    assert(body@ =~= datagram@.skip(INITIATION_PREFIX_BYTES as int));
    Ok((sender, body))
}

/// Splits a response into both indices and the message.
pub fn parse_response(datagram: &[u8]) -> (r: Result<
    (ReceiverIndex, ReceiverIndex, &[u8]),
    Refusal,
>)
    ensures
        match r {
            Ok((sender, receiver, body)) => is_response(datagram@) && sender == index_in(
                datagram@,
                4,
            ) && receiver == index_in(datagram@, 8) && body@ == datagram@.skip(
                RESPONSE_PREFIX_BYTES as int,
            ),
            Err(e) => !is_response(datagram@) && e == Refusal::Malformed,
        },
{
    if datagram.len() <= RESPONSE_PREFIX_BYTES || datagram[0] != TYPE_HANDSHAKE_RESPONSE
        || datagram[1] != 0 || datagram[2] != 0 || datagram[3] != 0 {
        return Err(Refusal::Malformed);
    }
    let sender = index_at(datagram, 4);
    let receiver = index_at(datagram, 8);
    let body = &datagram[RESPONSE_PREFIX_BYTES..datagram.len()];
    assert(body@ =~= datagram@.skip(RESPONSE_PREFIX_BYTES as int));
    Ok((sender, receiver, body))
}

/// An initiation reads back as it was written, and is never taken for a response.
pub proof fn an_initiation_round_trips(sender: ReceiverIndex, message: Seq<u8>)
    requires
        message.len() > 0,
    ensures
        ({
            let d = initiation_octets(sender, message);
            &&& is_initiation(d)
            &&& !is_response(d)
            &&& index_in(d, 4) == sender
            &&& d.skip(INITIATION_PREFIX_BYTES as int) == message
        }),
{
    let d = initiation_octets(sender, message);
    octets::le32_round_trip(sender.0);
    assert(d.subrange(4, 8) =~= le32(sender.0));
    assert(d.skip(INITIATION_PREFIX_BYTES as int) =~= message);
}

/// A response reads back as it was written, with both indices, so each end learns
/// the other's; and it is never taken for an initiation.
pub proof fn a_response_round_trips(
    sender: ReceiverIndex,
    receiver: ReceiverIndex,
    message: Seq<u8>,
)
    requires
        message.len() > 0,
    ensures
        ({
            let d = response_octets(sender, receiver, message);
            &&& is_response(d)
            &&& !is_initiation(d)
            &&& index_in(d, 4) == sender
            &&& index_in(d, 8) == receiver
            &&& d.skip(RESPONSE_PREFIX_BYTES as int) == message
        }),
{
    let d = response_octets(sender, receiver, message);
    octets::le32_round_trip(sender.0);
    octets::le32_round_trip(receiver.0);
    assert(d.subrange(4, 8) =~= le32(sender.0));
    assert(d.subrange(8, 12) =~= le32(receiver.0));
    assert(d.skip(RESPONSE_PREFIX_BYTES as int) =~= message);
}

/// What a receive came to.
#[derive(Debug)]
pub enum ReceiveEnd {
    /// The deadline had passed, or passed first.
    Expired,
    /// The platform refused.
    Failed(PlatformError),
    /// A datagram arrived.
    Datagram {
        /// The length the adapter reports.
        len: usize,
        /// The adapter reports that it did not fit.
        truncated: bool,
        /// The receive buffer.
        buf: Vec<u8>,
    },
}

/// The octets of a receive buffer that a datagram of `len` octets fills.
pub open spec fn filled(buf: Seq<u8>, len: usize) -> Seq<u8> {
    if len < buf.len() {
        buf.take(len as int)
    } else {
        buf
    }
}

/// What a receive yields.
pub open spec fn yields(end: ReceiveEnd) -> Result<Seq<u8>, Refusal> {
    match end {
        ReceiveEnd::Expired => Err(Refusal::NoResponse),
        ReceiveEnd::Failed(error) => Err(Refusal::Platform(error)),
        ReceiveEnd::Datagram { len, truncated, buf } => if truncated {
            Err(Refusal::Malformed)
        } else {
            Ok(filled(buf@, len))
        },
    }
}

/// The datagram that a receive yields. One that did not fit is refused, never
/// silently cut.
pub fn receive(end: ReceiveEnd) -> (r: Result<Vec<u8>, Refusal>)
    ensures
        match r {
            Ok(d) => yields(end) == Ok::<Seq<u8>, Refusal>(d@),
            Err(e) => yields(end) == Err::<Seq<u8>, Refusal>(e),
        },
{
    match end {
        ReceiveEnd::Expired => Err(Refusal::NoResponse),
        ReceiveEnd::Failed(error) => Err(Refusal::Platform(error)),
        ReceiveEnd::Datagram { len, truncated, buf } => {
            if truncated {
                return Err(Refusal::Malformed);
            }
            let mut d = buf;
            d.truncate(len);
            assert(d@ =~= filled(buf@, len));
            Ok(d)
        },
    }
}

/// The deadline of an attempt that begins at `now`, both in microseconds.
#[must_use]
pub fn deadline_from(now: u64, t_connect: u64) -> (deadline: u64)
    ensures
        deadline == (if now + t_connect > u64::MAX {
            u64::MAX
        } else {
            (now + t_connect) as u64
        }),
{
    now.saturating_add(t_connect)
}

/// The facts of one attempt.
#[derive(Debug, Clone, Copy)]
pub struct Attempt {
    /// The session the handshake belongs to. Its tunnel has the same sixteen octets
    /// as its name.
    pub session: SessionId,
    /// This device.
    pub local_device: DeviceId,
    /// The peer.
    pub peer: DeviceId,
    /// Where to send.
    pub peer_endpoint: Option<Endpoint>,
    /// Whether key material is installed for the peer.
    pub keyed: bool,
    /// The trust epoch that both ends bind.
    pub trust_epoch: u64,
}

/// A completed handshake: the two demultiplexing indices of its tunnel.
#[derive(Debug, Clone, Copy, PartialEq, Eq, Structural)]
pub struct Handshaken {
    /// The index this device expects on frames addressed to it.
    pub local_receiver: ReceiverIndex,
    /// The index the peer expects.
    pub peer_receiver: ReceiverIndex,
}

/// What a handshake waits for.
#[derive(Debug, Clone, Copy, PartialEq, Eq, Structural)]
pub enum Stage {
    /// The binding of the keys and the prologue.
    Binding,
    /// Four random octets.
    Drawing,
    /// The first message, written.
    Writing,
    /// The first message, sent.
    SendingFirst,
    /// The response.
    AwaitingResponse,
    /// The response, read.
    ReadingResponse,
    /// The first message, from the peer.
    AwaitingInitiation,
    /// The first message, read and answered.
    Answering,
    /// The answer, sent.
    SendingAnswer,
    /// The tunnel, established and confirmed.
    Confirming,
}

/// One handshake under way.
#[derive(Debug, Clone, Copy)]
pub struct Drive {
    /// The facts of the attempt.
    pub attempt: Attempt,
    /// Where to send.
    pub endpoint: Endpoint,
    /// What it waits for.
    pub stage: Stage,
    /// The index this device drew; meaningless before it was drawn.
    pub local_receiver: ReceiverIndex,
    /// The index the peer told; meaningless before it was told.
    pub peer_receiver: ReceiverIndex,
}

/// What came back.
#[derive(Debug)]
pub enum DriveEvent {
    /// The keys and the prologue were bound, or refused.
    Bound(bool),
    /// Random octets, if there were any.
    Drawn(Option<[u8; 4]>),
    /// A message was written, or refused.
    Written(Option<Vec<u8>>),
    /// A datagram was sent.
    Sent(Result<(), PlatformError>),
    /// A receive ended.
    Received(ReceiveEnd),
    /// The response was read, or refused.
    ResponseRead(bool),
    /// The tunnel was established and the negotiation confirmed, or refused.
    Confirmed(bool),
}

/// What to do next.
#[derive(Debug)]
pub enum DriveAction {
    /// Bind the keys and the prologue over the ordered pair. An initiator pins the
    /// peer's key; a responder learns it, and refuses any other.
    Bind {
        /// Which end this device is.
        role: Role,
        /// The first of the pair.
        initiator: DeviceId,
        /// The second of the pair.
        responder: DeviceId,
        /// The trust epoch.
        trust_epoch: u64,
    },
    /// Draw four random octets.
    Draw,
    /// Write the first message.
    WriteInitiation,
    /// Send a datagram.
    Send {
        /// The datagram.
        datagram: Vec<u8>,
        /// Where to.
        to: Endpoint,
    },
    /// Receive a datagram before the deadline.
    Receive,
    /// Read the response's message.
    ReadResponse {
        /// The message.
        body: Vec<u8>,
    },
    /// Read the first message and write the answer.
    Answer {
        /// The message.
        body: Vec<u8>,
    },
    /// Establish the tunnel and confirm the negotiation.
    Confirm {
        /// The tunnel's name.
        tunnel_id: [u8; 16],
        /// Where bulk traffic goes.
        endpoint: Endpoint,
        /// The trust epoch.
        trust_epoch: u64,
    },
    /// It is over.
    Done(Result<Handshaken, Refusal>),
}

/// The event answers what the stage waits for.
pub open spec fn drive_fits(stage: Stage, event: DriveEvent) -> bool {
    match stage {
        Stage::Binding => event is Bound,
        Stage::Drawing => event is Drawn,
        Stage::Writing | Stage::Answering => event is Written,
        Stage::SendingFirst | Stage::SendingAnswer => event is Sent,
        Stage::AwaitingResponse | Stage::AwaitingInitiation => event is Received,
        Stage::ReadingResponse => event is ResponseRead,
        Stage::Confirming => event is Confirmed,
    }
}

/// The handshake ends with this refusal.
pub open spec fn refused_with(d: Drive, next: Drive, action: DriveAction, refusal: Refusal) -> bool {
    next == d && action == DriveAction::Done(Err(refusal))
}

/// How an attempt begins.
pub open spec fn starts(attempt: Attempt, r: Result<(Drive, DriveAction), Refusal>) -> bool {
    match r {
        Err(e) => {
            ||| !attempt.keyed && e == Refusal::NoKeyMaterial
            ||| attempt.keyed && attempt.peer_endpoint is None && e == Refusal::NoEndpoint
        },
        Ok((d, action)) => {
            &&& attempt.keyed
            &&& attempt.peer_endpoint == Some(d.endpoint)
            &&& d.attempt == attempt
            &&& d.stage == Stage::Binding
            &&& action == (DriveAction::Bind {
                role: role_of(attempt.local_device, attempt.peer),
                initiator: order_of(attempt.local_device, attempt.peer).0,
                responder: order_of(attempt.local_device, attempt.peer).1,
                trust_epoch: attempt.trust_epoch,
            })
        },
    }
}

/// One decision of a handshake.
pub open spec fn drives(d: Drive, event: DriveEvent, r: (Drive, DriveAction)) -> bool {
    &&& r.0.attempt == d.attempt
    &&& r.0.endpoint == d.endpoint
    &&& match (d.stage, event) {
        (Stage::Binding, DriveEvent::Bound(ok)) => if ok {
            r == ((Drive { stage: Stage::Drawing, ..d }), DriveAction::Draw)
        } else {
            refused_with(d, r.0, r.1, Refusal::Rejected)
        },
        (Stage::Drawing, DriveEvent::Drawn(Some(bytes))) => {
            let drawn = Drive { local_receiver: ReceiverIndex(le32_value(bytes@)), ..d };
            if role_of(d.attempt.local_device, d.attempt.peer) == Role::Initiator {
                r == ((Drive { stage: Stage::Writing, ..drawn }), DriveAction::WriteInitiation)
            } else {
                r == (
                    (Drive { stage: Stage::AwaitingInitiation, ..drawn }),
                    DriveAction::Receive,
                )
            }
        },
        (Stage::Drawing, _) => refused_with(d, r.0, r.1, Refusal::Rejected),
        (Stage::Writing, DriveEvent::Written(Some(message))) => {
            &&& r.0 == (Drive { stage: Stage::SendingFirst, ..d })
            &&& r.1 matches DriveAction::Send { datagram, to }
            &&& datagram@ == initiation_octets(d.local_receiver, message@)
            &&& to == d.endpoint
        },
        (Stage::Writing, _) => refused_with(d, r.0, r.1, Refusal::Rejected),
        (Stage::SendingFirst, DriveEvent::Sent(Ok(()))) => r == (
            (Drive { stage: Stage::AwaitingResponse, ..d }),
            DriveAction::Receive,
        ),
        (Stage::SendingAnswer, DriveEvent::Sent(Ok(()))) => r == (
            (Drive { stage: Stage::Confirming, ..d }),
            DriveAction::Confirm {
                tunnel_id: d.attempt.session.bytes,
                endpoint: d.endpoint,
                trust_epoch: d.attempt.trust_epoch,
            },
        ),
        (_, DriveEvent::Sent(Err(error))) => refused_with(
            d,
            r.0,
            r.1,
            Refusal::Platform(error),
        ),
        (Stage::AwaitingResponse, DriveEvent::Received(end)) => match yields(end) {
            Err(refusal) => refused_with(d, r.0, r.1, refusal),
            Ok(got) => if !is_response(got) || index_in(got, 8) != d.local_receiver {
                refused_with(d, r.0, r.1, Refusal::Malformed)
            } else {
                &&& r.0 == (Drive {
                    stage: Stage::ReadingResponse,
                    peer_receiver: index_in(got, 4),
                    ..d
                })
                &&& r.1 matches DriveAction::ReadResponse { body }
                &&& body@ == got.skip(RESPONSE_PREFIX_BYTES as int)
            },
        },
        (Stage::AwaitingInitiation, DriveEvent::Received(end)) => match yields(end) {
            Err(refusal) => refused_with(d, r.0, r.1, refusal),
            Ok(got) => if !is_initiation(got) {
                refused_with(d, r.0, r.1, Refusal::Malformed)
            } else {
                &&& r.0 == (Drive {
                    stage: Stage::Answering,
                    peer_receiver: index_in(got, 4),
                    ..d
                })
                &&& r.1 matches DriveAction::Answer { body }
                &&& body@ == got.skip(INITIATION_PREFIX_BYTES as int)
            },
        },
        (Stage::ReadingResponse, DriveEvent::ResponseRead(ok)) => if ok {
            r == (
                (Drive { stage: Stage::Confirming, ..d }),
                DriveAction::Confirm {
                    tunnel_id: d.attempt.session.bytes,
                    endpoint: d.endpoint,
                    trust_epoch: d.attempt.trust_epoch,
                },
            )
        } else {
            refused_with(d, r.0, r.1, Refusal::Rejected)
        },
        (Stage::Answering, DriveEvent::Written(Some(message))) => {
            &&& r.0 == (Drive { stage: Stage::SendingAnswer, ..d })
            &&& r.1 matches DriveAction::Send { datagram, to }
            &&& datagram@ == response_octets(
                d.local_receiver,
                d.peer_receiver,
                message@,
            )
            &&& to == d.endpoint
        },
        (Stage::Answering, _) => refused_with(d, r.0, r.1, Refusal::Rejected),
        (Stage::Confirming, DriveEvent::Confirmed(ok)) => if ok {
            r == (
                d,
                DriveAction::Done(
                    Ok(
                        Handshaken {
                            local_receiver: d.local_receiver,
                            peer_receiver: d.peer_receiver,
                        },
                    ),
                ),
            )
        } else {
            refused_with(d, r.0, r.1, Refusal::Rejected)
        },
        _ => true,
    }
}

impl Drive {
    /// Begins an attempt. Key material and endpoint are looked at before anything is
    /// sent, so an attempt that has nothing to speak with never puts a datagram on
    /// the wire.
    pub fn start(attempt: Attempt) -> (r: Result<(Drive, DriveAction), Refusal>)
        ensures
            starts(attempt, r),
    {
        if !attempt.keyed {
            return Err(Refusal::NoKeyMaterial);
        }
        let endpoint = match attempt.peer_endpoint {
            Some(endpoint) => endpoint,
            None => {
                return Err(Refusal::NoEndpoint);
            },
        };
        let role = role_for(attempt.local_device, attempt.peer);
        let (initiator, responder) = ordered(attempt.local_device, attempt.peer);
        let drive = Drive {
            attempt,
            endpoint,
            stage: Stage::Binding,
            local_receiver: ReceiverIndex(0),
            peer_receiver: ReceiverIndex(0),
        };
        Ok(
            (
                drive,
                DriveAction::Bind { role, initiator, responder, trust_epoch: attempt.trust_epoch },
            ),
        )
    }

    /// One decision of the handshake.
    pub fn drive(self, event: DriveEvent) -> (r: (Drive, DriveAction))
        requires
            drive_fits(self.stage, event),
        ensures
            drives(self, event, r),
    {
        let rejected = DriveAction::Done(Err(Refusal::Rejected));
        match event {
            DriveEvent::Bound(ok) => {
                if ok {
                    (Drive { stage: Stage::Drawing, ..self }, DriveAction::Draw)
                } else {
                    (self, rejected)
                }
            },
            DriveEvent::Drawn(drawn) => {
                let bytes = match drawn {
                    Some(bytes) => bytes,
                    None => {
                        return (self, rejected);
                    },
                };
                assert(bytes@.subrange(0, 4) =~= bytes@);
                let local_receiver = ReceiverIndex(octets::get_le32(bytes.as_slice(), 0));
                match role_for(self.attempt.local_device, self.attempt.peer) {
                    Role::Initiator => (
                        Drive { stage: Stage::Writing, local_receiver, ..self },
                        DriveAction::WriteInitiation,
                    ),
                    Role::Responder => (
                        Drive { stage: Stage::AwaitingInitiation, local_receiver, ..self },
                        DriveAction::Receive,
                    ),
                }
            },
            DriveEvent::Written(written) => {
                let message = match written {
                    Some(message) => message,
                    None => {
                        return (self, rejected);
                    },
                };
                match self.stage {
                    Stage::Answering => {
                        let datagram = encode_response(
                            self.local_receiver,
                            self.peer_receiver,
                            message.as_slice(),
                        );
                        (
                            Drive { stage: Stage::SendingAnswer, ..self },
                            DriveAction::Send { datagram, to: self.endpoint },
                        )
                    },
                    _ => {
                        let datagram = encode_initiation(self.local_receiver, message.as_slice());
                        (
                            Drive { stage: Stage::SendingFirst, ..self },
                            DriveAction::Send { datagram, to: self.endpoint },
                        )
                    },
                }
            },
            DriveEvent::Sent(sent) => {
                match sent {
                    Err(error) => (self, DriveAction::Done(Err(Refusal::Platform(error)))),
                    Ok(()) => match self.stage {
                        Stage::SendingAnswer => (
                            Drive { stage: Stage::Confirming, ..self },
                            DriveAction::Confirm {
                                tunnel_id: self.attempt.session.bytes,
                                endpoint: self.endpoint,
                                trust_epoch: self.attempt.trust_epoch,
                            },
                        ),
                        _ => (
                            Drive { stage: Stage::AwaitingResponse, ..self },
                            DriveAction::Receive,
                        ),
                    },
                }
            },
            DriveEvent::Received(end) => {
                let datagram = match receive(end) {
                    Ok(datagram) => datagram,
                    Err(refusal) => {
                        return (self, DriveAction::Done(Err(refusal)));
                    },
                };
                match self.stage {
                    Stage::AwaitingInitiation => match parse_initiation(datagram.as_slice()) {
                        Err(refusal) => (self, DriveAction::Done(Err(refusal))),
                        Ok((sender, body)) => (
                            Drive { stage: Stage::Answering, peer_receiver: sender, ..self },
                            DriveAction::Answer { body: octets::to_vec(body) },
                        ),
                    },
                    _ => match parse_response(datagram.as_slice()) {
                        Err(refusal) => (self, DriveAction::Done(Err(refusal))),
                        Ok((sender, echoed, body)) => {
                            if echoed != self.local_receiver {
                                return (self, DriveAction::Done(Err(Refusal::Malformed)));
                            }
                            (
                                Drive { stage: Stage::ReadingResponse, peer_receiver: sender, ..self
                                },
                                DriveAction::ReadResponse { body: octets::to_vec(body) },
                            )
                        },
                    },
                }
            },
            DriveEvent::ResponseRead(ok) => {
                if ok {
                    (
                        Drive { stage: Stage::Confirming, ..self },
                        DriveAction::Confirm {
                            tunnel_id: self.attempt.session.bytes,
                            endpoint: self.endpoint,
                            trust_epoch: self.attempt.trust_epoch,
                        },
                    )
                } else {
                    (self, rejected)
                }
            },
            DriveEvent::Confirmed(ok) => {
                if ok {
                    (
                        self,
                        DriveAction::Done(
                            Ok(
                                Handshaken {
                                    local_receiver: self.local_receiver,
                                    peer_receiver: self.peer_receiver,
                                },
                            ),
                        ),
                    )
                } else {
                    (self, rejected)
                }
            },
        }
    }
}

} // verus!
