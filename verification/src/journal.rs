//! The session journal: the sessions a restart resumes, and their vault encoding.
//!
//! A record that is persisted is loadable at once and queued to be made durable.

use vstd::prelude::*;
use vstd::utf8::{decode_utf8, encode_utf8, valid_utf8};

use crate::octets;
use crate::planes::{PendingWrite, Shared, WriteModel};
use crate::reason;
use crate::reason::{looked_up, text_of, ReasonCode};
use crate::session::{DurableSession, PathClass, SessionState};
use crate::table::{ascending, OctetMap};
use crate::types::{same_text, DeviceId, SessionId};

verus! {

/// Why a journal entry could not be used.
#[derive(Debug, Clone, Copy, PartialEq, Eq, Structural)]
pub enum JournalError {
    /// The record does not decode.
    Corrupt,
}

/// A path class, as one octet.
pub open spec fn class_octet(class: PathClass) -> u8 {
    match class {
        PathClass::LocalDirect => 1,
        PathClass::WanDirect => 2,
        PathClass::Relayed => 3,
    }
}

/// The path class that an octet stands for.
pub open spec fn octet_class(tag: u8) -> Option<PathClass> {
    match tag {
        1 => Some(PathClass::LocalDirect),
        2 => Some(PathClass::WanDirect),
        3 => Some(PathClass::Relayed),
        _ => None,
    }
}

/// A session state, as a tag and a parameter.
pub open spec fn state_octets(state: SessionState) -> (u8, u8) {
    match state {
        SessionState::Disconnected => (1, 0),
        SessionState::Discovering => (2, 0),
        SessionState::Negotiating => (3, 0),
        SessionState::Connecting => (4, 0),
        SessionState::Steady(class) => (5, class_octet(class)),
        SessionState::Migrating { from, to } => (
            6,
            (class_octet(from) * 16 + class_octet(to)) as u8,
        ),
        SessionState::Degraded { carrier } => (7, class_octet(carrier)),
        SessionState::Reconnecting { parked } => (
            8,
            if parked {
                1
            } else {
                0
            },
        ),
        SessionState::Blocked => (9, 0),
        SessionState::Failed => (10, 0),
    }
}

/// The session state that a tag and a parameter stand for.
pub open spec fn octets_state(tag: u8, param: u8) -> Option<SessionState> {
    match tag {
        1 => Some(SessionState::Disconnected),
        2 => Some(SessionState::Discovering),
        3 => Some(SessionState::Negotiating),
        4 => Some(SessionState::Connecting),
        5 => match octet_class(param) {
            Some(class) => Some(SessionState::Steady(class)),
            None => None,
        },
        6 => match (octet_class(param / 16), octet_class(param % 16)) {
            (Some(from), Some(to)) => Some(SessionState::Migrating { from, to }),
            _ => None,
        },
        7 => match octet_class(param) {
            Some(carrier) => Some(SessionState::Degraded { carrier }),
            None => None,
        },
        8 => Some(SessionState::Reconnecting { parked: param != 0 }),
        9 => Some(SessionState::Blocked),
        10 => Some(SessionState::Failed),
        _ => None,
    }
}

fn class_tag(class: PathClass) -> (tag: u8)
    ensures
        tag == class_octet(class),
        1 <= tag <= 3,
{
    match class {
        PathClass::LocalDirect => 1,
        PathClass::WanDirect => 2,
        PathClass::Relayed => 3,
    }
}

fn class_from_tag(tag: u8) -> (class: Option<PathClass>)
    ensures
        class == octet_class(tag),
{
    match tag {
        1 => Some(PathClass::LocalDirect),
        2 => Some(PathClass::WanDirect),
        3 => Some(PathClass::Relayed),
        _ => None,
    }
}

fn state_tag(state: SessionState) -> (r: (u8, u8))
    ensures
        r == state_octets(state),
{
    match state {
        SessionState::Disconnected => (1, 0),
        SessionState::Discovering => (2, 0),
        SessionState::Negotiating => (3, 0),
        SessionState::Connecting => (4, 0),
        SessionState::Steady(class) => (5, class_tag(class)),
        SessionState::Migrating { from, to } => (6, class_tag(from) * 16 + class_tag(to)),
        SessionState::Degraded { carrier } => (7, class_tag(carrier)),
        SessionState::Reconnecting { parked } => (8, if parked { 1 } else { 0 }),
        SessionState::Blocked => (9, 0),
        SessionState::Failed => (10, 0),
    }
}

fn state_from_tag(tag: u8, param: u8) -> (state: Option<SessionState>)
    ensures
        state == octets_state(tag, param),
{
    match tag {
        1 => Some(SessionState::Disconnected),
        2 => Some(SessionState::Discovering),
        3 => Some(SessionState::Negotiating),
        4 => Some(SessionState::Connecting),
        5 => match class_from_tag(param) {
            Some(class) => Some(SessionState::Steady(class)),
            None => None,
        },
        6 => match (class_from_tag(param / 16), class_from_tag(param % 16)) {
            (Some(from), Some(to)) => Some(SessionState::Migrating { from, to }),
            _ => None,
        },
        7 => match class_from_tag(param) {
            Some(carrier) => Some(SessionState::Degraded { carrier }),
            None => None,
        },
        8 => Some(SessionState::Reconnecting { parked: param != 0 }),
        9 => Some(SessionState::Blocked),
        10 => Some(SessionState::Failed),
        _ => None,
    }
}

/// The octets of a code's text, after their number; a text too long for one octet
/// is written under the number 0, and then reads back as no code.
pub open spec fn reason_octets(reason: Option<ReasonCode>) -> Seq<u8> {
    match reason {
        None => seq![0u8],
        Some(code) => {
            let text = encode_utf8(code.name());
            seq![
                if text.len() <= 255 {
                    text.len() as u8
                } else {
                    0u8
                },
            ] + text
        },
    }
}

/// The vault encoding of a session record.
pub open spec fn session_octets(r: DurableSession) -> Seq<u8> {
    r.session_id.bytes@ + r.peer.bytes@ + seq![
        state_octets(r.last_state).0,
        state_octets(r.last_state).1,
    ] + reason_octets(r.last_reason)
}

/// `s` is a session record that decodes: it has its fixed part, its state is one,
/// and the text of its reason is there and is text.
pub open spec fn decodes(s: Seq<u8>) -> bool {
    &&& s.len() >= 51
    &&& octets_state(s[48], s[49]) is Some
    &&& s[50] != 0 ==> 51 + s[50] <= s.len() && valid_utf8(s.subrange(51, 51 + s[50]))
}

/// `r` is what the session record `s` says. A code that the registry no longer
/// carries reads as none, rather than failing the whole record.
pub open spec fn reads_as(s: Seq<u8>, registered: Seq<&'static str>, r: DurableSession) -> bool {
    &&& r.session_id.bytes@ == s.subrange(0, 16)
    &&& r.peer.bytes@ == s.subrange(16, 48)
    &&& octets_state(s[48], s[49]) == Some(r.last_state)
    &&& if s[50] == 0 {
        r.last_reason is None
    } else {
        looked_up(decode_utf8(s.subrange(51, 51 + s[50])), registered, r.last_reason)
    }
}

/// Writes a session record for the vault.
pub fn encode(record: &DurableSession) -> (out: Vec<u8>)
    ensures
        out@ == session_octets(*record),
{
    let mut out: Vec<u8> = Vec::new();
    octets::put_slice(&mut out, record.session_id.bytes.as_slice());
    octets::put_slice(&mut out, record.peer.bytes.as_slice());
    let (tag, param): (u8, u8) = state_tag(record.last_state);
    out.push(tag);
    out.push(param);
    let ghost fixed = out@;
    match record.last_reason {
        Some(code) => {
            let text = code.as_str();
            let bytes = text.as_bytes();
            out.push(if bytes.len() <= 255 { bytes.len() as u8 } else { 0 });
            octets::put_slice(&mut out, bytes);
        },
        None => {
            out.push(0);
        },
    }
    assert(out@ =~= fixed + reason_octets(record.last_reason));
    assert(out@ =~= session_octets(*record));
    out
}

/// Reads back what [`encode`] wrote. `registered` holds the codes that the
/// components below the core raise.
pub fn decode(bytes: &[u8], registered: &Vec<&'static str>) -> (r: Result<
    DurableSession,
    JournalError,
>)
    ensures
        match r {
            Ok(record) => decodes(bytes@) && reads_as(bytes@, registered@, record),
            Err(e) => !decodes(bytes@) && e == JournalError::Corrupt,
        },
{
    if bytes.len() < 51 {
        return Err(JournalError::Corrupt);
    }
    let session_id = SessionId { bytes: octets::array16(bytes, 0) };
    let peer = DeviceId { bytes: octets::array32(bytes, 16) };
    let last_state = match state_from_tag(bytes[48], bytes[49]) {
        Some(state) => state,
        None => {
            return Err(JournalError::Corrupt);
        },
    };
    let reason_len: usize = bytes[50] as usize;
    let last_reason = if reason_len == 0 {
        None
    } else {
        let end: usize = 51 + reason_len;
        if end > bytes.len() {
            return Err(JournalError::Corrupt);
        }
        match text_of(&bytes[51..end]) {
            None => {
                return Err(JournalError::Corrupt);
            },
            Some(text) => ReasonCode::lookup(text.as_str(), registered),
        }
    };
    Ok(DurableSession { session_id, peer, last_state, last_reason })
}

/// Every state survives the vault encoding.
pub proof fn a_state_survives_the_vault(state: SessionState)
    ensures
        octets_state(state_octets(state).0, state_octets(state).1) == Some(state),
{
}

/// Whatever is written of a session decodes.
pub proof fn a_written_session_record_decodes(r: DurableSession)
    ensures
        decodes(session_octets(r)),
{
    let s = session_octets(r);
    assert(s[48] == state_octets(r.last_state).0);
    assert(s[49] == state_octets(r.last_state).1);
    a_state_survives_the_vault(r.last_state);
    assert(s[50] == reason_octets(r.last_reason)[0]);
    if let Some(code) = r.last_reason {
        reason::text_survives_encoding(code.name());
        if s[50] != 0 {
            assert(s.subrange(51, 51 + s[50]) =~= encode_utf8(code.name()));
        }
    }
}

/// The reason of a record can be read back: the core raises it itself, or it is
/// registered and its text fits one length octet.
pub open spec fn keeps_its_reason(r: DurableSession, registered: Seq<&'static str>) -> bool {
    r.last_reason matches Some(ReasonCode::Registered(t)) ==> registered.contains(t) && 0
        < encode_utf8(t@).len() <= 255
}

/// A session record survives the vault: what was written decodes, its identity,
/// its peer and its state with it, and its reason with the same text. A code that the
/// core does not raise itself must still be registered, under a text that fits one
/// length octet.
pub proof fn a_session_record_survives_the_vault(
    r: DurableSession,
    registered: Seq<&'static str>,
    back: DurableSession,
)
    requires
        keeps_its_reason(r, registered),
        reads_as(session_octets(r), registered, back),
    ensures
        decodes(session_octets(r)),
        back.session_id == r.session_id,
        back.peer == r.peer,
        back.last_state == r.last_state,
        back.last_reason is Some == r.last_reason is Some,
        r.last_reason is Some ==> back.last_reason->0.name() == r.last_reason->0.name(),
        r.last_reason is Some && r.last_reason->0.own() ==> back.last_reason == r.last_reason,
{
    let s = session_octets(r);
    let tail = reason_octets(r.last_reason);
    assert(s.subrange(0, 16) =~= r.session_id.bytes@);
    assert(s.subrange(16, 48) =~= r.peer.bytes@);
    assert(back.session_id.bytes =~= r.session_id.bytes);
    assert(back.peer.bytes =~= r.peer.bytes);
    assert(s[48] == state_octets(r.last_state).0);
    assert(s[49] == state_octets(r.last_state).1);
    a_state_survives_the_vault(r.last_state);
    assert(s[50] == tail[0]);
    if let Some(code) = r.last_reason {
        let text = encode_utf8(code.name());
        if code.own() {
            reason::own_texts_are_short(code);
        }
        assert(s.subrange(51, 51 + s[50]) =~= text);
        reason::text_survives_encoding(code.name());
        assert(looked_up(code.name(), registered, Some(code)) || !code.own()) by {
            assert(code.name() == code.name());
        }
        if let Some(found) = back.last_reason {
            assert(found.name() == code.name());
            if code.own() {
                if found.own() {
                    reason::own_codes_have_distinct_texts(found, code);
                }
            }
        } else {
            if !code.own() {
                let t = code->0;
                let i = choose|i: int| 0 <= i < registered.len() && registered[i] == t;
                assert(registered[i]@ == code.name());
            }
        }
    }
}

/// A hexadecimal digit.
pub open spec fn hex_char(n: u8) -> char {
    if n == 0 {
        '0'
    } else if n == 1 {
        '1'
    } else if n == 2 {
        '2'
    } else if n == 3 {
        '3'
    } else if n == 4 {
        '4'
    } else if n == 5 {
        '5'
    } else if n == 6 {
        '6'
    } else if n == 7 {
        '7'
    } else if n == 8 {
        '8'
    } else if n == 9 {
        '9'
    } else if n == 10 {
        'a'
    } else if n == 11 {
        'b'
    } else if n == 12 {
        'c'
    } else if n == 13 {
        'd'
    } else if n == 14 {
        'e'
    } else {
        'f'
    }
}

/// Octets in hexadecimal, two lower-case digits each.
pub open spec fn hex_text(s: Seq<u8>) -> Seq<char>
    decreases s.len(),
{
    if s.len() == 0 {
        Seq::empty()
    } else {
        hex_text(s.drop_last()) + seq![hex_char(s.last() / 16), hex_char(s.last() % 16)]
    }
}

fn hex_digit(n: u8) -> (s: &'static str)
    requires
        n < 16,
    ensures
        s@ == seq![hex_char(n)],
{
    proof {
        reveal_strlit("0");
        reveal_strlit("1");
        reveal_strlit("2");
        reveal_strlit("3");
        reveal_strlit("4");
        reveal_strlit("5");
        reveal_strlit("6");
        reveal_strlit("7");
        reveal_strlit("8");
        reveal_strlit("9");
        reveal_strlit("a");
        reveal_strlit("b");
        reveal_strlit("c");
        reveal_strlit("d");
        reveal_strlit("e");
        reveal_strlit("f");
    }
    let s = match n {
        0 => "0",
        1 => "1",
        2 => "2",
        3 => "3",
        4 => "4",
        5 => "5",
        6 => "6",
        7 => "7",
        8 => "8",
        9 => "9",
        10 => "a",
        11 => "b",
        12 => "c",
        13 => "d",
        14 => "e",
        _ => "f",
    };
    assert(s@ =~= seq![hex_char(n)]);
    s
}

/// The vault key of a session: its identifier in hexadecimal, and nothing of the
/// peer.
pub fn key_for(session_id: SessionId) -> (key: String)
    ensures
        key@ == hex_text(session_id.bytes@),
{
    let bytes = session_id.bytes.as_slice();
    let mut key = String::new();
    let mut i: usize = 0;
    assert(bytes@.take(0) =~= Seq::<u8>::empty());
    while i < 16
        invariant
            i <= 16,
            bytes@.len() == 16,
            key@ == hex_text(bytes@.take(i as int)),
        decreases 16 - i,
    {
        key.append(hex_digit(bytes[i] / 16));
        key.append(hex_digit(bytes[i] % 16));
        proof {
            let next = bytes@.take(i + 1);
            assert(next.drop_last() =~= bytes@.take(i as int));
            assert(key@ =~= hex_text(next));
        }
        i += 1;
    }
    assert(bytes@.take(16) =~= session_id.bytes@);
    key
}

proof fn hex_text_len(s: Seq<u8>)
    ensures
        hex_text(s).len() == 2 * s.len(),
    decreases s.len(),
{
    if s.len() > 0 {
        hex_text_len(s.drop_last());
    }
}

/// Two sessions never share a vault key.
pub proof fn session_keys_are_distinct(a: Seq<u8>, b: Seq<u8>)
    requires
        hex_text(a) == hex_text(b),
    ensures
        a == b,
    decreases a.len(),
{
    hex_text_len(a);
    hex_text_len(b);
    if a.len() == 0 {
        assert(a =~= b);
    } else {
        let n = hex_text(a).len();
        assert(hex_text(a)[n - 2] == hex_char(a.last() / 16));
        assert(hex_text(a)[n - 1] == hex_char(a.last() % 16));
        assert(hex_text(b)[n - 2] == hex_char(b.last() / 16));
        assert(hex_text(b)[n - 1] == hex_char(b.last() % 16));
        assert(hex_text(a.drop_last()) =~= hex_text(a).take(n - 2));
        assert(hex_text(b.drop_last()) =~= hex_text(b).take(n - 2));
        session_keys_are_distinct(a.drop_last(), b.drop_last());
        assert(a =~= a.drop_last().push(a.last()));
        assert(b =~= b.drop_last().push(b.last()));
    }
}

/// The journal: every session the client knows, by identifier.
pub struct CoreSessionJournal {
    /// The records.
    pub records: OctetMap<DurableSession>,
}

/// The map that a list of restored records gives; a later record of a session
/// replaces an earlier one.
pub open spec fn restored_map(list: Seq<DurableSession>) -> Map<Seq<u8>, DurableSession>
    decreases list.len(),
{
    if list.len() == 0 {
        Map::empty()
    } else {
        restored_map(list.drop_last()).insert(list.last().session_id.bytes@, list.last())
    }
}

/// One of these writes removes the record of a session.
pub open spec fn is_forgotten(ws: Seq<WriteModel>, id: Seq<u8>) -> bool {
    exists|i: int|
        0 <= i < ws.len() && #[trigger] ws[i] == (WriteModel::Session {
            key: hex_text(id),
            value: None,
        })
}

/// The records of those sessions that none of these writes removes.
pub open spec fn remembered(
    m: Map<Seq<u8>, DurableSession>,
    ws: Seq<WriteModel>,
) -> Map<Seq<u8>, DurableSession> {
    Map::new(|id: Seq<u8>| m.contains_key(id) && !is_forgotten(ws, id), |id: Seq<u8>| m[id])
}

/// The first record of a list counts only where no later one is of its session.
proof fn the_first_record_yields(list: Seq<DurableSession>)
    requires
        list.len() > 0,
    ensures
        restored_map(list) == Map::<Seq<u8>, DurableSession>::empty().insert(
            list[0].session_id.bytes@,
            list[0],
        ).union_prefer_right(restored_map(list.skip(1))),
    decreases list.len(),
{
    let first = Map::<Seq<u8>, DurableSession>::empty().insert(
        list[0].session_id.bytes@,
        list[0],
    );
    if list.len() == 1 {
        assert(list.drop_last() =~= Seq::<DurableSession>::empty());
        assert(list.skip(1) =~= Seq::<DurableSession>::empty());
        assert(restored_map(list) =~= first.union_prefer_right(restored_map(list.skip(1))));
    } else {
        the_first_record_yields(list.drop_last());
        assert(list.skip(1).drop_last() =~= list.drop_last().skip(1));
        assert(restored_map(list) =~= first.union_prefer_right(restored_map(list.skip(1))));
    }
}

/// What a list of restored records gives for a session is one of its records, and every
/// session of the list has one.
pub proof fn a_restored_record_was_listed(list: Seq<DurableSession>, id: Seq<u8>)
    ensures
        restored_map(list).contains_key(id) ==> exists|i: int|
            0 <= i < list.len() && #[trigger] list[i] == restored_map(list)[id]
                && list[i].session_id.bytes@ == id,
        forall|i: int|
            0 <= i < list.len() ==> restored_map(list).contains_key(
                (#[trigger] list[i]).session_id.bytes@,
            ),
    decreases list.len(),
{
    if list.len() > 0 {
        let front = list.drop_last();
        a_restored_record_was_listed(front, id);
        if restored_map(list).contains_key(id) {
            if list.last().session_id.bytes@ == id {
                assert(list[list.len() - 1] == restored_map(list)[id]);
            } else {
                let i = choose|i: int|
                    0 <= i < front.len() && #[trigger] front[i] == restored_map(front)[id]
                        && front[i].session_id.bytes@ == id;
                assert(list[i] == restored_map(list)[id]);
            }
        }
        assert forall|i: int| 0 <= i < list.len() implies restored_map(list).contains_key(
            (#[trigger] list[i]).session_id.bytes@,
        ) by {
            if i < front.len() {
                assert(front[i] == list[i]);
            }
        }
    }
}

/// Whether a queued write removes the record of a session.
fn has_forgotten(shared: &Shared, session_id: SessionId) -> (b: bool)
    ensures
        b == is_forgotten(shared@.pending, session_id.bytes@),
{
    let key = key_for(session_id);
    let ghost removal = WriteModel::Session { key: hex_text(session_id.bytes@), value: None };
    let mut i: usize = 0;
    while i < shared.pending.len()
        invariant
            i <= shared.pending@.len(),
            key@ == hex_text(session_id.bytes@),
            removal == (WriteModel::Session { key: hex_text(session_id.bytes@), value: None }),
            forall|j: int| 0 <= j < i ==> #[trigger] shared@.pending[j] != removal,
        decreases shared.pending@.len() - i,
    {
        assert(shared@.pending[i as int] == shared.pending@[i as int]@);
        if let PendingWrite::Session { key: k, value } = &shared.pending[i] {
            if value.is_none() && same_text(k.as_str(), key.as_str()) {
                assert(shared@.pending[i as int] == removal);
                return true;
            }
        }
        i += 1;
    }
    false
}

impl CoreSessionJournal {
    /// Every record stands under its own session.
    pub open spec fn wf(self) -> bool {
        self.records.wf()
    }

    /// The records, by session identifier.
    pub open spec fn view(self) -> Map<Seq<u8>, DurableSession> {
        self.records@
    }

    /// A journal that holds what the store already held.
    #[must_use]
    pub fn new(restored: Vec<DurableSession>) -> (j: Self)
        ensures
            j.wf(),
            j@ == restored_map(restored@),
    {
        let mut records: OctetMap<DurableSession> = OctetMap::new();
        let mut i: usize = 0;
        assert(restored@.take(0) =~= Seq::<DurableSession>::empty());
        while i < restored.len()
            invariant
                i <= restored@.len(),
                records.wf(),
                records@ == restored_map(restored@.take(i as int)),
            decreases restored@.len() - i,
        {
            let r = restored[i];
            records.insert(octets::to_vec(r.session_id.bytes.as_slice()), r);
            assert(restored@.take(i + 1).drop_last() =~= restored@.take(i as int));
            i += 1;
        }
        assert(restored@.take(restored@.len() as int) =~= restored@);
        CoreSessionJournal { records }
    }

    /// Adds what the store held. A session that the journal knows already keeps its
    /// record, and one whose removal is queued stays gone: what this process wrote is
    /// newer.
    pub fn restore(&mut self, shared: &Shared, list: &Vec<DurableSession>)
        requires
            old(self).wf(),
        ensures
            final(self).wf(),
            final(self)@ == remembered(restored_map(list@), shared@.pending).union_prefer_right(
                old(self)@,
            ),
    {
        let ghost queue = shared@.pending;
        let mut i: usize = list.len();
        assert(list@.skip(i as int) =~= Seq::<DurableSession>::empty());
        assert(self@ =~= remembered(restored_map(list@.skip(i as int)), queue).union_prefer_right(
            old(self)@,
        ));
        while i > 0
            invariant
                i <= list@.len(),
                self.wf(),
                queue == shared@.pending,
                self@ == remembered(
                    restored_map(list@.skip(i as int)),
                    queue,
                ).union_prefer_right(old(self)@),
            decreases i,
        {
            i -= 1;
            let r = list[i];
            let ghost rest = list@.skip(i + 1);
            proof {
                assert(list@.skip(i as int)[0] == r);
                assert(list@.skip(i as int).skip(1) =~= rest);
                the_first_record_yields(list@.skip(i as int));
            }
            if !self.records.contains(r.session_id.bytes.as_slice()) && !has_forgotten(
                shared,
                r.session_id,
            ) {
                self.records.insert(octets::to_vec(r.session_id.bytes.as_slice()), r);
            }
            assert(self@ =~= remembered(
                restored_map(list@.skip(i as int)),
                queue,
            ).union_prefer_right(old(self)@));
        }
        assert(list@.skip(0) =~= list@);
    }

    /// How many sessions the journal knows.
    #[must_use]
    pub fn len(&self) -> (n: usize)
        requires
            self.wf(),
        ensures
            n == self.records.order().len(),
            n == 0 <==> self@ == Map::<Seq<u8>, DurableSession>::empty(),
    {
        let n: usize = self.records.len();
        proof {
            if n == 0 {
                assert forall|k: Seq<u8>| !self@.dom().contains(k) by {
                    assert(self@.contains_key(k) <==> self.records.order().contains(k));
                }
                assert(self@ =~= Map::<Seq<u8>, DurableSession>::empty());
            } else {
                let k = self.records.order()[0];
                assert(self.records.order().contains(k));
                assert(self@.contains_key(k));
            }
        }
        n
    }

    /// Whether the journal knows no session.
    #[must_use]
    pub fn is_empty(&self) -> (b: bool)
        requires
            self.wf(),
        ensures
            b <==> self@ == Map::<Seq<u8>, DurableSession>::empty(),
    {
        self.len() == 0
    }

    /// Every record, in ascending order of the session identifiers.
    #[must_use]
    pub fn load_all(&self) -> (list: Vec<DurableSession>)
        requires
            self.wf(),
        ensures
            lists_sessions(self@, self.records.order(), list@),
    {
        let n: usize = self.records.len();
        let ghost order = self.records.order();
        let mut list: Vec<DurableSession> = Vec::new();
        let mut i: usize = 0;
        while i < n
            invariant
                i <= n == order.len(),
                self.wf(),
                order == self.records.order(),
                list@.len() == i,
                forall|j: int| 0 <= j < i ==> (#[trigger] list@[j]) == self@[order[j]],
            decreases n - i,
        {
            list.push(*self.records.value_at(i));
            i += 1;
        }
        list
    }

    /// Keeps a record, loadable at once, and queues it to be made durable.
    pub fn persist(&mut self, shared: &mut Shared, record: &DurableSession)
        requires
            old(self).wf(),
            old(shared).wf(),
        ensures
            final(self).wf(),
            final(shared).wf(),
            final(self)@ == old(self)@.insert(record.session_id.bytes@, *record),
            final(shared)@ == old(shared)@.accepted(
                WriteModel::Session {
                    key: hex_text(record.session_id.bytes@),
                    value: Some(session_octets(*record)),
                },
            ),
    {
        self.records.insert(octets::to_vec(record.session_id.bytes.as_slice()), *record);
        shared.push_session_write(
            PendingWrite::Session { key: key_for(record.session_id), value: Some(encode(record)) },
        );
    }

    /// Drops a record and queues its removal.
    pub fn forget(&mut self, shared: &mut Shared, session_id: SessionId)
        requires
            old(self).wf(),
            old(shared).wf(),
        ensures
            final(self).wf(),
            final(shared).wf(),
            final(self)@ == old(self)@.remove(session_id.bytes@),
            final(shared)@ == old(shared)@.accepted(
                WriteModel::Session { key: hex_text(session_id.bytes@), value: None },
            ),
    {
        let _ = self.records.remove(session_id.bytes.as_slice());
        shared.push_session_write(
            PendingWrite::Session { key: key_for(session_id), value: None },
        );
    }
}

/// `list` holds every record of the journal, in the order of the identifiers
/// `order`, which ascend.
pub open spec fn lists_sessions(
    m: Map<Seq<u8>, DurableSession>,
    order: Seq<Seq<u8>>,
    list: Seq<DurableSession>,
) -> bool {
    &&& ascending(order)
    &&& forall|k: Seq<u8>| m.contains_key(k) <==> #[trigger] order.contains(k)
    &&& list.len() == order.len()
    &&& forall|i: int| 0 <= i < list.len() ==> #[trigger] list[i] == m[order[i]]
}

} // verus!
