//! The bookkeeping of a capture session: which packets are held, the limits
//! on holding them, how they are released, and what the dashboard shows.
use vstd::prelude::*;

use crate::config::{
    kind_menu_name, pacing_batch, pacing_pause, port_text, window_max, window_min, HoldWindow,
    ReleasePacing, TrafficRule,
};
use crate::text::{decimal, push_decimal};

verus! {

/// At most this many packets are held during one hold window.
pub const MAX_HELD_PACKETS: usize = 4096;
/// At most this many bytes are held during one hold window.
pub const MAX_HELD_BYTES: usize = 16777216;

/// Where a captured packet came from and how to reinject it; the logic here
/// only carries it along.
#[derive(Clone, Copy)]
pub struct WinDivertAddress {
    pub timestamp: i64,
    pub flags: u32,
    pub reserved2: u32,
    pub data: [u8; 64],
}

impl Default for WinDivertAddress {
    fn default() -> (r: Self)
        ensures
            r.timestamp == 0 && r.flags == 0 && r.reserved2 == 0,
    {
        WinDivertAddress { timestamp: 0, flags: 0, reserved2: 0, data: [0u8; 64] }
    }
}

/// A captured packet: its bytes and its address.
pub struct Packet {
    pub data: Vec<u8>,
    pub addr: WinDivertAddress,
}

/// The number of bytes in a run of packets.
pub open spec fn held_bytes(packets: Seq<Packet>) -> nat
    decreases packets.len(),
{
    if packets.len() == 0 {
        0
    } else {
        held_bytes(packets.drop_last()) + packets.last().data@.len()
    }
}

/// The bytes of a run of packets are those of its first packet and those of the rest.
pub proof fn lemma_held_bytes_front(packets: Seq<Packet>)
    requires
        packets.len() > 0,
    ensures
        held_bytes(packets) == packets[0].data@.len() + held_bytes(packets.drop_first()),
    decreases packets.len(),
{
    if packets.len() > 1 {
        lemma_held_bytes_front(packets.drop_last());
        assert(packets.drop_last().drop_first() =~= packets.drop_first().drop_last());
        assert(packets.drop_first().last() == packets.last());
        assert(packets.drop_last()[0] == packets[0]);
    } else {
        assert(packets.drop_first() =~= Seq::<Packet>::empty());
        assert(packets.drop_last() =~= Seq::<Packet>::empty());
    }
}

/// The packets held during a hold window, oldest first, with their byte count.
pub struct HeldQueue {
    packets: std::collections::VecDeque<Packet>,
    bytes: usize,
}

impl View for HeldQueue {
    type V = Seq<Packet>;

    closed spec fn view(&self) -> Seq<Packet> {
        self.packets@
    }
}

impl HeldQueue {
    /// The queue never holds more than the packet and byte limits, and its
    /// byte count is that of the packets it holds.
    #[verifier::type_invariant]
    spec fn within_limits(self) -> bool {
        &&& self.packets@.len() <= MAX_HELD_PACKETS
        &&& self.bytes == held_bytes(self.packets@)
        &&& self.bytes <= MAX_HELD_BYTES
    }

    pub fn new() -> (r: Self)
        ensures
            r@ == Seq::<Packet>::empty(),
    {
        HeldQueue { packets: std::collections::VecDeque::new(), bytes: 0 }
    }

    /// The number of held packets, never above the packet limit.
    pub fn len(&self) -> (r: usize)
        ensures
            r == self@.len(),
            r <= MAX_HELD_PACKETS,
    {
        proof {
            use_type_invariant(self);
        }
        self.packets.len()
    }

    /// The number of held bytes, never above the byte limit.
    pub fn byte_count(&self) -> (r: usize)
        ensures
            r == held_bytes(self@),
            r <= MAX_HELD_BYTES,
    {
        proof {
            use_type_invariant(self);
        }
        self.bytes
    }

    /// Whether a packet of `packet_len` bytes still fits under both limits.
    pub fn can_hold(&self, packet_len: usize) -> (r: bool)
        ensures
            r == (self@.len() < MAX_HELD_PACKETS && held_bytes(self@) + packet_len
                <= MAX_HELD_BYTES),
    {
        proof {
            use_type_invariant(self);
        }
        self.packets.len() < MAX_HELD_PACKETS && self.bytes.saturating_add(packet_len)
            <= MAX_HELD_BYTES
    }

    /// Holds a packet at the back of the queue.
    pub fn push(&mut self, packet: Packet)
        requires
            old(self)@.len() < MAX_HELD_PACKETS,
            held_bytes(old(self)@) + packet.data@.len() <= MAX_HELD_BYTES,
        ensures
            final(self)@ == old(self)@.push(packet),
    {
        let len = packet.data.len();
        let mut taken = HeldQueue::new();
        std::mem::swap(&mut taken, self);
        proof {
            use_type_invariant(&taken);
        }
        let HeldQueue { mut packets, bytes } = taken;
        packets.push_back(packet);
        assert(packets@.drop_last() =~= taken@);
        *self = HeldQueue { packets, bytes: bytes + len };
    }

    /// Takes the oldest held packet, if any.
    pub fn pop_front(&mut self) -> (r: Option<Packet>)
        ensures
            match r {
                Some(p) => old(self)@.len() > 0 && p == old(self)@[0] && final(self)@ == old(
                    self,
                )@.drop_first(),
                None => old(self)@.len() == 0 && final(self)@ == old(self)@,
            },
    {
        let mut taken = HeldQueue::new();
        std::mem::swap(&mut taken, self);
        proof {
            use_type_invariant(&taken);
        }
        let HeldQueue { mut packets, bytes } = taken;
        match packets.pop_front() {
            Some(p) => {
                proof {
                    lemma_held_bytes_front(taken@);
                }
                assert(packets@ =~= taken@.drop_first());
                *self = HeldQueue { packets, bytes: bytes - p.data.len() };
                Some(p)
            },
            None => {
                *self = HeldQueue { packets, bytes };
                None
            },
        }
    }

    /// Takes up to `maximum` of the oldest held packets, oldest first.
    pub fn drain_batch(&mut self, maximum: usize) -> (r: Vec<Packet>)
        ensures
            r@.len() == if maximum < old(self)@.len() {
                maximum as int
            } else {
                old(self)@.len() as int
            },
            r@ == old(self)@.take(r@.len() as int),
            final(self)@ == old(self)@.skip(r@.len() as int),
            held_bytes(final(self)@) + held_bytes(r@) == held_bytes(old(self)@),
            maximum >= MAX_HELD_PACKETS ==> final(self)@.len() == 0,
    {
        proof {
            use_type_invariant(&*self);
        }
        let ghost start = self@;
        let mut batch: Vec<Packet> = Vec::new();
        assert(start.skip(0) =~= start);
        while batch.len() < maximum
            invariant
                batch@.len() <= maximum,
                batch@.len() <= start.len(),
                batch@ == start.take(batch@.len() as int),
                self@ == start.skip(batch@.len() as int),
                held_bytes(self@) + held_bytes(batch@) == held_bytes(start),
            ensures
                batch@.len() == if maximum < start.len() {
                    maximum as int
                } else {
                    start.len() as int
                },
                batch@ == start.take(batch@.len() as int),
                self@ == start.skip(batch@.len() as int),
                held_bytes(self@) + held_bytes(batch@) == held_bytes(start),
            decreases maximum - batch@.len(),
        {
            let ghost before = self@;
            match self.pop_front() {
                Some(p) => {
                    proof {
                        lemma_held_bytes_front(before);
                    }
                    batch.push(p);
                    assert(batch@.drop_last() =~= start.take(batch@.len() - 1));
                    assert(batch@ =~= start.take(batch@.len() as int));
                    assert(self@ =~= start.skip(batch@.len() as int));
                },
                None => {
                    assert(batch@.len() == start.len());
                    break;
                },
            }
        }
        batch
    }
}


/// The latest thing that happened, as the dashboard reports it.
#[allow(inconsistent_fields)]
pub enum LastEvent {
    Waiting,
    OpeningCapture,
    ThrottleOn { hold_ms: u64, matched: u64, queue: usize },
    PacketQueued { bytes: u32, queue: usize, total: u64 },
    QueueLimitReached { queued: usize, bytes: usize, passed_through: u64 },
    NoTraffic { summary: String },
    AutoBurst { hold_ms: u64, matched: u64, queue: usize },
    Released { count: usize, remaining: usize },
    ReleaseFailed { windows_error: u32, total_failures: u64 },
    ReleaseComplete { sent: u64 },
    ReleaseWithFailures { sent: u64, failed: u64 },
    StillQueued { remaining: usize },
    Error(String),
}

/// The state of the capture, shared between the capture session and the dashboard.
pub struct State {
    /// Whether a hold window is open.
    pub throttling: bool,
    /// Whether a capture session (hold, then release) is under way.
    pub session_active: bool,
    /// When the open hold window started, in the caller's milliseconds.
    pub throttle_started_ms: Option<u64>,
    /// How long the open hold window lasts.
    pub hold_ms: Option<u64>,
    /// `matched_total` when the open hold window started.
    pub matched_at_throttle_start: u64,
    pub matched_total: u64,
    pub queued_total: u64,
    pub burst_total: u64,
    pub release_failures: u64,
    pub passed_through_total: u64,
    pub last_event: LastEvent,
    /// The packets being held.
    pub held: HeldQueue,
}

/// Whether `event` reports that no traffic matching `rule` arrived.
pub open spec fn ended_quietly(event: LastEvent, rule: TrafficRule) -> bool {
    event matches LastEvent::NoTraffic { summary } && summary@ == rule_summary(rule)
}

/// The description of a traffic rule, as `TrafficRule::summary` gives it.
pub open spec fn rule_summary(rule: TrafficRule) -> Seq<char> {
    kind_menu_name(rule.protocol) + " port "@ + port_text(rule.port)
}

/// How a piece of event text is shown.
#[derive(Clone, Copy, Debug, PartialEq, Eq, Structural)]
pub enum EventTone {
    Plain,
    Dim,
    Green,
    BoldCyan,
    BoldYellow,
    BoldGreen,
    BoldRed,
}

/// The text of an event, piece by piece with how each piece is shown. The
/// two events that report a hold length in seconds have none here: that
/// length is printed as a fraction.
pub open spec fn event_spans(e: LastEvent) -> Option<Seq<(Seq<char>, EventTone)>> {
    match e {
        LastEvent::Waiting => Some(seq![("waiting for keybind"@, EventTone::Dim)]),
        LastEvent::OpeningCapture => Some(seq![("opening capture window"@, EventTone::Dim)]),
        LastEvent::ThrottleOn { .. } => None,
        LastEvent::PacketQueued { bytes, queue, total } => Some(
            seq![
                ("queued packet "@, EventTone::Dim),
                (decimal(bytes as nat) + " bytes"@, EventTone::BoldCyan),
                (", queue "@, EventTone::Dim),
                (decimal(queue as nat), EventTone::BoldYellow),
                (", total queued "@, EventTone::Dim),
                (decimal(total as nat), EventTone::BoldYellow),
            ],
        ),
        LastEvent::QueueLimitReached { queued, bytes, passed_through } => Some(
            seq![
                ("queue limit reached: "@, EventTone::BoldYellow),
                (decimal(queued as nat), EventTone::BoldYellow),
                (" held / "@, EventTone::Plain),
                (decimal(bytes as nat / 1048576) + " MiB"@, EventTone::BoldYellow),
                (", passed through "@, EventTone::Plain),
                (decimal(passed_through as nat), EventTone::BoldCyan),
            ],
        ),
        LastEvent::NoTraffic { summary } => Some(
            seq![("no matching "@ + summary@ + " traffic during hold window"@, EventTone::Plain)],
        ),
        LastEvent::AutoBurst { .. } => None,
        LastEvent::Released { count, remaining } => Some(
            seq![
                ("released "@, EventTone::Plain),
                (decimal(count as nat), EventTone::BoldGreen),
                (" packets, remaining "@, EventTone::Plain),
                (decimal(remaining as nat), EventTone::BoldCyan),
            ],
        ),
        LastEvent::ReleaseFailed { windows_error, total_failures } => Some(
            seq![
                ("release failed "@, EventTone::BoldRed),
                ("(Windows error "@ + decimal(windows_error as nat) + ", "@, EventTone::Plain),
                (decimal(total_failures as nat), EventTone::BoldRed),
                (" total failures)"@, EventTone::Plain),
            ],
        ),
        LastEvent::ReleaseComplete { sent } => Some(
            seq![
                ("release completed: "@, EventTone::Dim),
                (decimal(sent as nat), EventTone::BoldGreen),
                (" packets sent"@, EventTone::Green),
            ],
        ),
        LastEvent::ReleaseWithFailures { sent, failed } => Some(
            seq![
                ("release completed: "@, EventTone::Dim),
                (decimal(sent as nat) + " sent"@, EventTone::BoldGreen),
                (", "@, EventTone::Plain),
                (decimal(failed as nat) + " failed"@, EventTone::BoldRed),
            ],
        ),
        LastEvent::StillQueued { remaining } => Some(
            seq![
                ("release ended with "@, EventTone::Plain),
                (decimal(remaining as nat), EventTone::BoldYellow),
                (" packets still queued"@, EventTone::Plain),
            ],
        ),
        LastEvent::Error(message) => Some(seq![(message@, EventTone::BoldRed)]),
    }
}

/// The whole text of a run of pieces.
pub open spec fn joined_text(pieces: Seq<(Seq<char>, EventTone)>) -> Seq<char>
    decreases pieces.len(),
{
    if pieces.len() == 0 {
        Seq::empty()
    } else {
        joined_text(pieces.drop_last()) + pieces.last().0
    }
}

/// Each event reads with every count after its own label: released packets
/// after "released " and those still held after "remaining", sent and failed
/// packets each with their own word, the held bytes in whole MiB, and the
/// error code of a failed send before the number of failures.
pub proof fn law_event_texts_show_each_count_in_place(
    a: u64,
    b: u64,
    c: u64,
    bytes32: u32,
    n1: usize,
    n2: usize,
    code: u32,
    summary: String,
    message: String,
)
    ensures
        event_spans(LastEvent::Released { count: n1, remaining: n2 }) matches Some(p)
            && joined_text(p) == "released "@ + decimal(n1 as nat) + " packets, remaining "@
            + decimal(n2 as nat),
        event_spans(LastEvent::PacketQueued { bytes: bytes32, queue: n1, total: a }) matches Some(p)
            && joined_text(p) == "queued packet "@ + decimal(bytes32 as nat) + " bytes"@
            + ", queue "@ + decimal(n1 as nat) + ", total queued "@ + decimal(a as nat),
        event_spans(LastEvent::QueueLimitReached { queued: n1, bytes: n2, passed_through: a })
            matches Some(p) && joined_text(p) == "queue limit reached: "@ + decimal(n1 as nat)
            + " held / "@ + decimal(n2 as nat / 1048576) + " MiB"@ + ", passed through "@
            + decimal(a as nat),
        event_spans(LastEvent::ReleaseFailed { windows_error: code, total_failures: a })
            matches Some(p) && joined_text(p) == "release failed "@ + "(Windows error "@
            + decimal(code as nat) + ", "@ + decimal(a as nat) + " total failures)"@,
        event_spans(LastEvent::ReleaseComplete { sent: a }) matches Some(p) && joined_text(p)
            == "release completed: "@ + decimal(a as nat) + " packets sent"@,
        event_spans(LastEvent::ReleaseWithFailures { sent: a, failed: b }) matches Some(p)
            && joined_text(p) == "release completed: "@ + decimal(a as nat) + " sent"@ + ", "@
            + decimal(b as nat) + " failed"@,
        event_spans(LastEvent::StillQueued { remaining: n1 }) matches Some(p) && joined_text(p)
            == "release ended with "@ + decimal(n1 as nat) + " packets still queued"@,
        event_spans(LastEvent::NoTraffic { summary }) matches Some(p) && joined_text(p)
            == "no matching "@ + summary@ + " traffic during hold window"@,
        event_spans(LastEvent::Error(message)) matches Some(p) && joined_text(p) == message@,
        event_spans(LastEvent::Waiting) matches Some(p) && joined_text(p) == "waiting for keybind"@,
        event_spans(LastEvent::OpeningCapture) matches Some(p) && joined_text(p)
            == "opening capture window"@,
        event_spans(LastEvent::ThrottleOn { hold_ms: a, matched: b, queue: n1 }) is None,
        event_spans(LastEvent::AutoBurst { hold_ms: a, matched: b, queue: n1 }) is None,
{
    reveal_with_fuel(joined_text, 7);
    assert(joined_text(event_spans(LastEvent::Released { count: n1, remaining: n2 })->Some_0)
        =~= "released "@ + decimal(n1 as nat) + " packets, remaining "@ + decimal(n2 as nat));
    assert(joined_text(event_spans(LastEvent::PacketQueued { bytes: bytes32, queue: n1, total: a })->Some_0)
        =~= "queued packet "@ + decimal(bytes32 as nat) + " bytes"@ + ", queue "@ + decimal(n1 as nat)
        + ", total queued "@ + decimal(a as nat));
    assert(joined_text(event_spans(LastEvent::QueueLimitReached { queued: n1, bytes: n2, passed_through: a })->Some_0)
        =~= "queue limit reached: "@ + decimal(n1 as nat) + " held / "@ + decimal(n2 as nat / 1048576)
        + " MiB"@ + ", passed through "@ + decimal(a as nat));
    assert(joined_text(event_spans(LastEvent::ReleaseFailed { windows_error: code, total_failures: a })->Some_0)
        =~= "release failed "@ + "(Windows error "@ + decimal(code as nat) + ", "@ + decimal(a as nat)
        + " total failures)"@);
    assert(joined_text(event_spans(LastEvent::ReleaseComplete { sent: a })->Some_0)
        =~= "release completed: "@ + decimal(a as nat) + " packets sent"@);
    assert(joined_text(event_spans(LastEvent::ReleaseWithFailures { sent: a, failed: b })->Some_0)
        =~= "release completed: "@ + decimal(a as nat) + " sent"@ + ", "@ + decimal(b as nat)
        + " failed"@);
    assert(joined_text(event_spans(LastEvent::StillQueued { remaining: n1 })->Some_0)
        =~= "release ended with "@ + decimal(n1 as nat) + " packets still queued"@);
    assert(joined_text(event_spans(LastEvent::NoTraffic { summary })->Some_0)
        =~= "no matching "@ + summary@ + " traffic during hold window"@);
    assert(joined_text(event_spans(LastEvent::Error(message))->Some_0) =~= message@);
    assert(joined_text(event_spans(LastEvent::Waiting)->Some_0) =~= "waiting for keybind"@);
    assert(joined_text(event_spans(LastEvent::OpeningCapture)->Some_0) =~= "opening capture window"@);
}

/// The text of each piece.
pub open spec fn spans_text(v: Seq<(String, EventTone)>) -> Seq<(Seq<char>, EventTone)> {
    v.map_values(|p: (String, EventTone)| (p.0@, p.1))
}

/// A piece of text: `prefix`, then `n` in decimal, then `suffix`.
fn numbered(prefix: &str, n: u64, suffix: &str, tone: EventTone) -> (r: (String, EventTone))
    ensures
        r.0@ == prefix@ + decimal(n as nat) + suffix@,
        r.1 == tone,
{
    let mut t = String::from_str(prefix);
    push_decimal(&mut t, n);
    t.append(suffix);
    (t, tone)
}

/// A piece of fixed text.
fn plain_piece(text: &str, tone: EventTone) -> (r: (String, EventTone))
    ensures
        r.0@ == text@,
        r.1 == tone,
{
    (String::from_str(text), tone)
}

/// The text of an event, as `event_spans` gives it.
pub fn event_text(event: &LastEvent) -> (r: Option<Vec<(String, EventTone)>>)
    ensures
        match event_spans(*event) {
            None => r is None,
            Some(spans) => r is Some && spans_text(r->Some_0@) == spans,
        },
{
    let mut v: Vec<(String, EventTone)> = Vec::new();
    match event {
        LastEvent::Waiting => {
            v.push(plain_piece("waiting for keybind", EventTone::Dim));
        },
        LastEvent::OpeningCapture => {
            v.push(plain_piece("opening capture window", EventTone::Dim));
        },
        LastEvent::ThrottleOn { .. } => {
            return None;
        },
        LastEvent::PacketQueued { bytes, queue, total } => {
            v.push(plain_piece("queued packet ", EventTone::Dim));
            v.push(numbered("", *bytes as u64, " bytes", EventTone::BoldCyan));
            v.push(plain_piece(", queue ", EventTone::Dim));
            v.push(numbered("", *queue as u64, "", EventTone::BoldYellow));
            v.push(plain_piece(", total queued ", EventTone::Dim));
            v.push(numbered("", *total, "", EventTone::BoldYellow));
        },
        LastEvent::QueueLimitReached { queued, bytes, passed_through } => {
            v.push(plain_piece("queue limit reached: ", EventTone::BoldYellow));
            v.push(numbered("", *queued as u64, "", EventTone::BoldYellow));
            v.push(plain_piece(" held / ", EventTone::Plain));
            v.push(numbered("", (*bytes / 1048576) as u64, " MiB", EventTone::BoldYellow));
            v.push(plain_piece(", passed through ", EventTone::Plain));
            v.push(numbered("", *passed_through, "", EventTone::BoldCyan));
        },
        LastEvent::NoTraffic { summary } => {
            let mut t = String::from_str("no matching ");
            t.append(summary.as_str());
            t.append(" traffic during hold window");
            v.push((t, EventTone::Plain));
        },
        LastEvent::AutoBurst { .. } => {
            return None;
        },
        LastEvent::Released { count, remaining } => {
            v.push(plain_piece("released ", EventTone::Plain));
            v.push(numbered("", *count as u64, "", EventTone::BoldGreen));
            v.push(plain_piece(" packets, remaining ", EventTone::Plain));
            v.push(numbered("", *remaining as u64, "", EventTone::BoldCyan));
        },
        LastEvent::ReleaseFailed { windows_error, total_failures } => {
            v.push(plain_piece("release failed ", EventTone::BoldRed));
            v.push(numbered("(Windows error ", *windows_error as u64, ", ", EventTone::Plain));
            v.push(numbered("", *total_failures, "", EventTone::BoldRed));
            v.push(plain_piece(" total failures)", EventTone::Plain));
        },
        LastEvent::ReleaseComplete { sent } => {
            v.push(plain_piece("release completed: ", EventTone::Dim));
            v.push(numbered("", *sent, "", EventTone::BoldGreen));
            v.push(plain_piece(" packets sent", EventTone::Green));
        },
        LastEvent::ReleaseWithFailures { sent, failed } => {
            v.push(plain_piece("release completed: ", EventTone::Dim));
            v.push(numbered("", *sent, " sent", EventTone::BoldGreen));
            v.push(plain_piece(", ", EventTone::Plain));
            v.push(numbered("", *failed, " failed", EventTone::BoldRed));
        },
        LastEvent::StillQueued { remaining } => {
            v.push(plain_piece("release ended with ", EventTone::Plain));
            v.push(numbered("", *remaining as u64, "", EventTone::BoldYellow));
            v.push(plain_piece(" packets still queued", EventTone::Plain));
        },
        LastEvent::Error(message) => {
            v.push((message.clone(), EventTone::BoldRed));
        },
    }
    proof {
        reveal_strlit("");
    }
    assert(spans_text(v@) =~= event_spans(*event)->Some_0);
    Some(v)
}

/// Every packet matched during a hold window is counted once, as held or as
/// passed through. Each step of a capture session keeps this.
pub open spec fn packets_accounted(s: State) -> bool {
    s.matched_total == s.queued_total + s.passed_through_total
}

impl State {
    pub fn new() -> (r: Self)
        ensures
            packets_accounted(r),
            !r.throttling,
            !r.session_active,
            r.throttle_started_ms is None,
            r.hold_ms is None,
            r.matched_at_throttle_start == 0,
            r.matched_total == 0,
            r.queued_total == 0,
            r.burst_total == 0,
            r.release_failures == 0,
            r.passed_through_total == 0,
            r.last_event == LastEvent::Waiting,
            r.held@ == Seq::<Packet>::empty(),
    {
        State {
            throttling: false,
            session_active: false,
            throttle_started_ms: None,
            hold_ms: None,
            matched_at_throttle_start: 0,
            matched_total: 0,
            queued_total: 0,
            burst_total: 0,
            release_failures: 0,
            passed_through_total: 0,
            last_event: LastEvent::Waiting,
            held: HeldQueue::new(),
        }
    }

    pub fn queue_len(&self) -> (r: usize)
        ensures
            r == self.held@.len(),
    {
        self.held.len()
    }

    /// The number of bytes being held.
    pub fn queue_bytes(&self) -> (r: usize)
        ensures
            r == held_bytes(self.held@),
    {
        self.held.byte_count()
    }

    pub fn can_hold(&self, packet_len: usize) -> (r: bool)
        ensures
            r == (self.held@.len() < MAX_HELD_PACKETS && held_bytes(self.held@) + packet_len
                <= MAX_HELD_BYTES),
    {
        self.held.can_hold(packet_len)
    }

    pub fn drain_batch(&mut self, maximum: usize) -> (r: Vec<Packet>)
        ensures
            packets_accounted(*old(self)) ==> packets_accounted(*final(self)),
            *final(self) == (State { held: final(self).held, ..*old(self) }),
            r@.len() == if maximum < old(self).held@.len() {
                maximum as int
            } else {
                old(self).held@.len() as int
            },
            r@ == old(self).held@.take(r@.len() as int),
            final(self).held@ == old(self).held@.skip(r@.len() as int),
            held_bytes(final(self).held@) + held_bytes(r@) == held_bytes(old(self).held@),
            maximum >= MAX_HELD_PACKETS ==> final(self).held@.len() == 0,
            final(self).matched_total == old(self).matched_total,
            final(self).burst_total == old(self).burst_total,
            final(self).release_failures == old(self).release_failures,
    {
        self.held.drain_batch(maximum)
    }

    /// Starts a capture session unless one is under way; tells whether it did.
    pub fn try_open_session(&mut self) -> (r: bool)
        ensures
            packets_accounted(*old(self)) ==> packets_accounted(*final(self)),
            *final(self) == (State {
                session_active: final(self).session_active,
                last_event: final(self).last_event,
                ..*old(self)
            }),
            r == !old(self).session_active,
            final(self).session_active,
            r ==> final(self).last_event == LastEvent::OpeningCapture,
            !r ==> final(self).last_event == old(self).last_event,
            final(self).held@ == old(self).held@,
    {
        if self.session_active {
            return false;
        }
        self.session_active = true;
        self.last_event = LastEvent::OpeningCapture;
        true
    }

    /// Ends a session that could not capture, reporting why.
    pub fn finish_failed_session(&mut self, message: String)
        ensures
            packets_accounted(*old(self)) ==> packets_accounted(*final(self)),
            *final(self) == (State {
                throttling: final(self).throttling,
                session_active: final(self).session_active,
                throttle_started_ms: final(self).throttle_started_ms,
                hold_ms: final(self).hold_ms,
                last_event: final(self).last_event,
                ..*old(self)
            }),
            !final(self).throttling,
            !final(self).session_active,
            final(self).throttle_started_ms is None,
            final(self).hold_ms is None,
            final(self).last_event == LastEvent::Error(message),
            final(self).held@ == old(self).held@,
            final(self).matched_total == old(self).matched_total,
    {
        self.throttling = false;
        self.session_active = false;
        self.throttle_started_ms = None;
        self.hold_ms = None;
        self.last_event = LastEvent::Error(message);
    }

    /// Opens a hold window of `hold_ms` starting at `started_ms`.
    pub fn begin_hold(&mut self, started_ms: u64, hold_ms: u64)
        ensures
            packets_accounted(*old(self)) ==> packets_accounted(*final(self)),
            *final(self) == (State {
                throttling: final(self).throttling,
                throttle_started_ms: final(self).throttle_started_ms,
                hold_ms: final(self).hold_ms,
                matched_at_throttle_start: final(self).matched_at_throttle_start,
                last_event: final(self).last_event,
                ..*old(self)
            }),
            final(self).throttling,
            final(self).session_active == old(self).session_active,
            final(self).throttle_started_ms == Some(started_ms),
            final(self).hold_ms == Some(hold_ms),
            final(self).matched_total == old(self).matched_total,
            final(self).matched_at_throttle_start == old(self).matched_total,
            final(self).last_event == (LastEvent::ThrottleOn {
                hold_ms,
                matched: old(self).matched_total,
                queue: old(self).held@.len() as usize,
            }),
            final(self).held@ == old(self).held@,
    {
        self.throttling = true;
        self.throttle_started_ms = Some(started_ms);
        self.hold_ms = Some(hold_ms);
        self.matched_at_throttle_start = self.matched_total;
        self.last_event = LastEvent::ThrottleOn {
            hold_ms,
            matched: self.matched_total,
            queue: self.held.len(),
        };
    }

    /// Takes a packet captured during a hold window: it is held if it fits
    /// under both limits, and handed back to be passed through otherwise.
    pub fn receive_packet(&mut self, packet: Packet) -> (r: Option<Packet>)
        requires
            old(self).matched_total < u64::MAX,
            old(self).queued_total < u64::MAX,
            old(self).passed_through_total < u64::MAX,
            packet.data@.len() <= u32::MAX,
        ensures
            packets_accounted(*old(self)) ==> packets_accounted(*final(self)),
            *final(self) == (State {
                matched_total: final(self).matched_total,
                queued_total: final(self).queued_total,
                passed_through_total: final(self).passed_through_total,
                last_event: final(self).last_event,
                held: final(self).held,
                ..*old(self)
            }),
            final(self).matched_total == old(self).matched_total + 1,
            final(self).matched_at_throttle_start == old(self).matched_at_throttle_start,
            final(self).throttling == old(self).throttling,
            final(self).session_active == old(self).session_active,
            final(self).burst_total == old(self).burst_total,
            final(self).release_failures == old(self).release_failures,
            if old(self).held@.len() < MAX_HELD_PACKETS && held_bytes(old(self).held@)
                + packet.data@.len() <= MAX_HELD_BYTES {
                &&& r is None
                &&& final(self).held@ == old(self).held@.push(packet)
                &&& final(self).queued_total == old(self).queued_total + 1
                &&& final(self).passed_through_total == old(self).passed_through_total
                &&& if final(self).held@.len() == 1 || final(self).held@.len() % 25 == 0 {
                    final(self).last_event == (LastEvent::PacketQueued {
                        bytes: packet.data@.len() as u32,
                        queue: final(self).held@.len() as usize,
                        total: final(self).queued_total,
                    })
                } else {
                    final(self).last_event == old(self).last_event
                }
            } else {
                &&& r == Some(packet)
                &&& final(self).held@ == old(self).held@
                &&& final(self).queued_total == old(self).queued_total
                &&& final(self).passed_through_total == old(self).passed_through_total + 1
                &&& final(self).last_event == (LastEvent::QueueLimitReached {
                    queued: old(self).held@.len() as usize,
                    bytes: held_bytes(old(self).held@) as usize,
                    passed_through: final(self).passed_through_total,
                })
            },
    {
        self.matched_total = self.matched_total + 1;
        let packet_len = packet.data.len();
        if self.held.can_hold(packet_len) {
            self.held.push(packet);
            self.queued_total = self.queued_total + 1;
            let queue = self.held.len();
            if queue == 1 || queue % 25 == 0 {
                self.last_event = LastEvent::PacketQueued {
                    bytes: packet_len as u32,
                    queue,
                    total: self.queued_total,
                };
            }
            None
        } else {
            self.passed_through_total = self.passed_through_total + 1;
            self.last_event = LastEvent::QueueLimitReached {
                queued: self.held.len(),
                bytes: self.held.byte_count(),
                passed_through: self.passed_through_total,
            };
            Some(packet)
        }
    }

    /// Records that a packet passed through could not be sent.
    pub fn record_pass_through_failure(&mut self, windows_error: u32)
        requires
            old(self).release_failures < u64::MAX,
        ensures
            packets_accounted(*old(self)) ==> packets_accounted(*final(self)),
            *final(self) == (State {
                release_failures: final(self).release_failures,
                last_event: final(self).last_event,
                ..*old(self)
            }),
            final(self).release_failures == old(self).release_failures + 1,
            final(self).last_event == (LastEvent::ReleaseFailed {
                windows_error,
                total_failures: final(self).release_failures,
            }),
            final(self).held@ == old(self).held@,
            final(self).matched_total == old(self).matched_total,
            final(self).matched_at_throttle_start == old(self).matched_at_throttle_start,
            final(self).burst_total == old(self).burst_total,
    {
        self.release_failures = self.release_failures + 1;
        self.last_event = LastEvent::ReleaseFailed {
            windows_error,
            total_failures: self.release_failures,
        };
    }

    /// Closes the hold window of `hold_ms` for `rule`, reporting whether any
    /// matching traffic arrived during it.
    pub fn end_hold(&mut self, rule: TrafficRule, hold_ms: u64)
        requires
            old(self).matched_at_throttle_start <= old(self).matched_total,
        ensures
            packets_accounted(*old(self)) ==> packets_accounted(*final(self)),
            *final(self) == (State {
                throttling: final(self).throttling,
                throttle_started_ms: final(self).throttle_started_ms,
                hold_ms: final(self).hold_ms,
                matched_at_throttle_start: final(self).matched_at_throttle_start,
                last_event: final(self).last_event,
                ..*old(self)
            }),
            !final(self).throttling,
            final(self).session_active == old(self).session_active,
            final(self).throttle_started_ms is None,
            final(self).hold_ms is None,
            final(self).matched_total == old(self).matched_total,
            final(self).matched_at_throttle_start == old(self).matched_total,
            final(self).held@ == old(self).held@,
            final(self).burst_total == old(self).burst_total,
            final(self).release_failures == old(self).release_failures,
            old(self).matched_total == old(self).matched_at_throttle_start ==> ended_quietly(
                final(self).last_event,
                rule,
            ),
            old(self).matched_total != old(self).matched_at_throttle_start ==> final(self).last_event
                == (LastEvent::AutoBurst {
                hold_ms,
                matched: (old(self).matched_total - old(self).matched_at_throttle_start) as u64,
                queue: old(self).held@.len() as usize,
            }),
    {
        let matched_during_hold = self.matched_total - self.matched_at_throttle_start;
        self.throttling = false;
        self.throttle_started_ms = None;
        self.hold_ms = None;
        self.matched_at_throttle_start = self.matched_total;
        self.last_event = if matched_during_hold == 0 {
            LastEvent::NoTraffic { summary: rule.summary() }
        } else {
            LastEvent::AutoBurst { hold_ms, matched: matched_during_hold, queue: self.held.len() }
        };
    }

    /// Records the outcome of sending one release batch of `attempted`
    /// packets, `sent` of which went out.
    pub fn record_release(&mut self, attempted: usize, sent: u64, last_error: Option<u32>)
        requires
            sent <= attempted,
            old(self).burst_total + sent <= u64::MAX,
            old(self).release_failures + (attempted - sent) <= u64::MAX,
        ensures
            packets_accounted(*old(self)) ==> packets_accounted(*final(self)),
            *final(self) == (State {
                burst_total: final(self).burst_total,
                release_failures: final(self).release_failures,
                last_event: final(self).last_event,
                ..*old(self)
            }),
            final(self).burst_total == old(self).burst_total + sent,
            final(self).release_failures == old(self).release_failures + (attempted - sent),
            final(self).held@ == old(self).held@,
            final(self).session_active == old(self).session_active,
            final(self).matched_total == old(self).matched_total,
            sent < attempted ==> final(self).last_event == (LastEvent::ReleaseFailed {
                windows_error: match last_error {
                    Some(e) => e,
                    None => 0,
                },
                total_failures: final(self).release_failures,
            }),
            sent == attempted ==> final(self).last_event == (LastEvent::Released {
                count: sent as usize,
                remaining: old(self).held@.len() as usize,
            }),
    {
        let failed = attempted as u64 - sent;
        self.burst_total = self.burst_total + sent;
        self.release_failures = self.release_failures + failed;
        self.last_event = if failed > 0 {
            LastEvent::ReleaseFailed {
                windows_error: match last_error {
                    Some(e) => e,
                    None => 0,
                },
                total_failures: self.release_failures,
            }
        } else {
            LastEvent::Released { count: sent as usize, remaining: self.held.len() }
        };
    }

    /// Ends a capture session whose release began with `failures_before`
    /// release failures and `released_before` released packets, reporting
    /// how the release went.
    pub fn finish_session(&mut self, failures_before: u64, released_before: u64)
        requires
            failures_before <= old(self).release_failures,
            released_before <= old(self).burst_total,
        ensures
            packets_accounted(*old(self)) ==> packets_accounted(*final(self)),
            *final(self) == (State {
                session_active: final(self).session_active,
                last_event: final(self).last_event,
                ..*old(self)
            }),
            !final(self).session_active,
            final(self).held@ == old(self).held@,
            final(self).burst_total == old(self).burst_total,
            final(self).release_failures == old(self).release_failures,
            final(self).matched_total == old(self).matched_total,
            old(self).release_failures > failures_before ==> final(self).last_event == (
            LastEvent::ReleaseWithFailures {
                sent: (old(self).burst_total - released_before) as u64,
                failed: (old(self).release_failures - failures_before) as u64,
            }),
            old(self).release_failures == failures_before && old(self).burst_total
                > released_before ==> final(self).last_event == (LastEvent::ReleaseComplete {
                sent: (old(self).burst_total - released_before) as u64,
            }),
            old(self).release_failures == failures_before && old(self).burst_total
                == released_before && old(self).held@.len() > 0 ==> final(self).last_event == (
            LastEvent::StillQueued { remaining: old(self).held@.len() as usize }),
            old(self).release_failures == failures_before && old(self).burst_total
                == released_before && old(self).held@.len() == 0 ==> final(self).last_event == old(
                self,
            ).last_event,
    {
        self.session_active = false;
        let failed_this_release = self.release_failures - failures_before;
        let released_this_session = self.burst_total - released_before;
        if failed_this_release > 0 {
            self.last_event = LastEvent::ReleaseWithFailures {
                sent: released_this_session,
                failed: failed_this_release,
            };
        } else if released_this_session > 0 {
            self.last_event = LastEvent::ReleaseComplete { sent: released_this_session };
        } else if self.held.len() > 0 {
            self.last_event = LastEvent::StillQueued { remaining: self.held.len() };
        }
    }

    /// The milliseconds left in the open hold window at `now_ms`, if one is open.
    pub fn remaining_hold_ms(&self, now_ms: u64) -> (r: Option<u64>)
        ensures
            !self.throttling ==> r is None,
            self.throttling ==> match (self.throttle_started_ms, self.hold_ms) {
                (Some(start), Some(hold)) => {
                    let elapsed = if now_ms >= start {
                        now_ms - start
                    } else {
                        0
                    };
                    r == Some(if hold >= elapsed {
                        (hold - elapsed) as u64
                    } else {
                        0u64
                    })
                },
                _ => r is None,
            },
    {
        if !self.throttling {
            return None;
        }
        match (self.throttle_started_ms, self.hold_ms) {
            (Some(start), Some(hold)) => Some(hold.saturating_sub(now_ms.saturating_sub(start))),
            _ => None,
        }
    }

    /// The status word of the dashboard.
    pub fn status_label(&self) -> (r: &'static str)
        ensures
            r@ == if self.throttling {
                "throttling"@
            } else if self.session_active {
                "releasing"@
            } else {
                "armed"@
            },
    {
        if self.throttling {
            "throttling"
        } else if self.session_active {
            "releasing"
        } else {
            "armed"
        }
    }
}

/// How many packets go out per release batch: all that can be held when
/// returning to the menu, the pacing's batch size otherwise.
pub fn release_batch_size(pacing: &ReleasePacing, returning_to_menu: bool) -> (r: usize)
    ensures
        r == if returning_to_menu {
            MAX_HELD_PACKETS
        } else {
            pacing_batch(*pacing)
        },
{
    if returning_to_menu {
        MAX_HELD_PACKETS
    } else {
        pacing.packet_batch_size()
    }
}

/// The pause after a release batch: none when returning to the menu, the
/// pacing's pause otherwise.
pub fn release_pause(pacing: &ReleasePacing, returning_to_menu: bool) -> (r: Option<u64>)
    ensures
        r == if returning_to_menu {
            None
        } else {
            Some(pacing_pause(*pacing))
        },
{
    if returning_to_menu {
        None
    } else {
        Some(pacing.batch_pause_ms())
    }
}

/// The bits of `n` mixed with two rotations of itself.
pub open spec fn mixed_bits(n: u64) -> u64 {
    n ^ ((n << 13u64) | (n >> 51u64)) ^ ((n >> 7u64) | (n << 57u64))
}

/// A hold length in `[min, max]` of the window, chosen from a clock reading
/// in nanoseconds (only `min` when the window's maximum is below its minimum).
pub fn random_hold_ms(hold_window: &HoldWindow, nanos: u64) -> (r: u64)
    requires
        !(window_min(*hold_window) == 0 && window_max(*hold_window) == u64::MAX),
    ensures
        ({
            let min = window_min(*hold_window);
            let max = window_max(*hold_window);
            let span: int = if max >= min {
                max - min
            } else {
                0
            };
            &&& r == min + mixed_bits(nanos) as int % (span + 1)
            &&& min <= r
            &&& r <= min + span
        }),
{
    let mixed = nanos ^ ((nanos << 13u64) | (nanos >> 51u64)) ^ ((nanos >> 7u64) | (nanos << 57u64));
    let min_ms = hold_window.min_ms();
    let max_ms = hold_window.max_ms();
    let span = max_ms.saturating_sub(min_ms);
    min_ms + (mixed % (span + 1))
}

/// Whether the trigger was just pressed: down now, and not before.
pub fn trigger_pressed(is_down: bool, was_down: bool) -> (r: bool)
    ensures
        r == (is_down && !was_down),
{
    is_down && !was_down
}

} // verus!
