use vstd::prelude::*;
use crate::text::push_str;

verus! {

// The Retry-After header.

/// A byte a header value may hold and still read as text: a visible ASCII
/// character, a space or a tab.
pub open spec fn is_header_text(b: u8) -> bool {
    (32 <= b && b < 127) || b == 9
}

/// The value of a decimal number.
pub open spec fn decimal_value(digits: Seq<u8>) -> nat
    decreases digits.len(),
{
    if digits.len() == 0 {
        0
    } else {
        decimal_value(digits.drop_last()) * 10 + (digits.last() - 48) as nat
    }
}

/// A run of decimal digits.
pub open spec fn all_digits(s: Seq<u8>) -> bool {
    forall|i: int| 0 <= i < s.len() ==> 48 <= #[trigger] s[i] <= 57
}

/// How a `u32` reads from text: an optional plus sign, then one or more
/// decimal digits, whose value fits.
pub open spec fn parse_u32_spec(s: Seq<u8>) -> Option<u32> {
    let digits = if s.len() > 0 && s[0] == 43 { s.drop_first() } else { s };
    if digits.len() > 0 && all_digits(digits) && decimal_value(digits) <= u32::MAX {
        Some(decimal_value(digits) as u32)
    } else {
        None
    }
}

/// The seconds a Retry-After header asks to wait: its value read as text,
/// then as a `u32`; absent or unreadable, none.
pub open spec fn retry_after_spec(header: Option<Seq<u8>>) -> Option<u32> {
    match header {
        None => None,
        Some(h) => if forall|i: int| 0 <= i < h.len() ==> is_header_text(#[trigger] h[i]) {
            parse_u32_spec(h)
        } else {
            None
        },
    }
}

proof fn lemma_decimal_grows(digits: Seq<u8>, i: int)
    requires
        0 <= i <= digits.len(),
        all_digits(digits),
    ensures
        decimal_value(digits.take(i)) <= decimal_value(digits),
    decreases digits.len() - i,
{
    if i < digits.len() {
        lemma_decimal_grows(digits, i + 1);
        assert(digits.take(i + 1).drop_last() =~= digits.take(i));
        assert(48 <= digits[i] <= 57);
    } else {
        assert(digits.take(i) =~= digits);
    }
}

/// The seconds a Retry-After header asks to wait (see `retry_after_spec`).
pub fn retry_after(header: Option<&[u8]>) -> (r: Option<u32>)
    ensures
        r == retry_after_spec(
            match header {
                Some(h) => Some(h@),
                None => None,
            },
        ),
{
    match header {
        None => None,
        Some(h) => retry_after_of(h),
    }
}

/// The seconds a present Retry-After header asks to wait.
fn retry_after_of(h: &[u8]) -> (r: Option<u32>)
    ensures
        r == retry_after_spec(Some(h@)),
{
    let n = h.len();
    let mut i: usize = 0;
    while i < n
        invariant
            n == h@.len(),
            i <= n,
            forall|j: int| 0 <= j < i ==> is_header_text(#[trigger] h@[j]),
        decreases n - i,
    {
        if !((32 <= h[i] && h[i] < 127) || h[i] == 9) {
            proof {
                assert(!is_header_text(h@[i as int]));
                assert(!(forall|j: int| 0 <= j < h@.len() ==> is_header_text(#[trigger] h@[j])));
            }
            return None;
        }
        i = i + 1;
    }
    let start: usize = if n > 0 && h[0] == 43 { 1 } else { 0 };
    let ghost digits = if h@.len() > 0 && h@[0] == 43 { h@.drop_first() } else { h@ };
    assert(digits =~= h@.skip(start as int));
    if start == n {
        return None;
    }
    let mut value: u64 = 0;
    let mut k: usize = start;
    while k < n
        invariant
            n == h@.len(),
            start <= k <= n,
            start < n,
            digits =~= h@.skip(start as int),
            value == decimal_value(digits.take(k - start)),
            value <= u32::MAX,
            all_digits(digits.take(k - start)),
            forall|j: int| 0 <= j < n ==> is_header_text(#[trigger] h@[j]),
            digits == (if h@.len() > 0 && h@[0] == 43 { h@.drop_first() } else { h@ }),
        decreases n - k,
    {
        let b = h[k];
        assert(digits[k - start] == b);
        if b < 48 || b > 57 {
            proof {
                assert(!all_digits(digits)) by {
                    assert(!(48 <= digits[k - start] <= 57));
                }
            }
            return None;
        }
        assert(digits.take(k - start + 1).drop_last() =~= digits.take(k - start));
        let next = value * 10 + (b - 48) as u64;
        if next > 0xffff_ffff {
            proof {
                assert(all_digits(digits.take(k - start + 1)));
                assert(digits.take(k - start + 1).last() == b);
                assert(decimal_value(digits.take(k - start + 1)) == value * 10 + (b - 48));
                if all_digits(digits) {
                    lemma_decimal_grows(digits, k - start + 1);
                }
            }
            return None;
        }
        value = next;
        k = k + 1;
    }
    assert(digits.take(n - start) =~= digits);
    Some(value as u32)
}

/// The decimal digits of a number, most significant first, as ASCII.
pub open spec fn decimal_bytes(n: nat) -> Seq<u8>
    decreases n,
{
    if n < 10 {
        seq![(n + 48) as u8]
    } else {
        decimal_bytes(n / 10).push(((n % 10) + 48) as u8)
    }
}

proof fn lemma_decimal_bytes(n: nat)
    ensures
        decimal_bytes(n).len() > 0,
        all_digits(decimal_bytes(n)),
        decimal_value(decimal_bytes(n)) == n,
        decimal_bytes(n)[0] != 43,
    decreases n,
{
    if n >= 10 {
        lemma_decimal_bytes(n / 10);
        let d = decimal_bytes(n);
        assert(d.drop_last() =~= decimal_bytes(n / 10));
        assert(d.last() == ((n % 10) + 48) as u8);
        assert((n / 10) * 10 + n % 10 == n) by (nonlinear_arith);
        assert forall|i: int| 0 <= i < d.len() implies 48 <= #[trigger] d[i] <= 57 by {
            if i < d.len() - 1 {
                assert(d[i] == decimal_bytes(n / 10)[i]);
            }
        }
    } else {
        let d = seq![(n + 48) as u8];
        assert(d.drop_last() =~= Seq::<u8>::empty());
        assert(d.last() == (n + 48) as u8);
        assert(decimal_value(d) == decimal_value(d.drop_last()) * 10 + (d.last() - 48) as nat);
    }
}

/// Law: the Retry-After value the server writes (the seconds in decimal)
/// reads back as the same number.
pub proof fn law_retry_after_reads_back(n: u32)
    ensures
        retry_after_spec(Some(decimal_bytes(n as nat))) == Some(n),
{
    lemma_decimal_bytes(n as nat);
    let d = decimal_bytes(n as nat);
    assert forall|i: int| 0 <= i < d.len() implies is_header_text(#[trigger] d[i]) by {
        assert(48 <= d[i] <= 57);
    }
}

// Offering a connection through the signaling server.

/// The server's answer to opening a room.
#[derive(Debug)]
pub enum PutOfferReply {
    /// A room of that name is open; its offer (none when it is full).
    Conflict(Option<String>),
    /// The room is open and a guest had answered.
    CreatedWithAnswer(String),
    /// The room is open: wait that many seconds, then keep it with the key.
    CreatedWithKey(u32, String),
}

/// The server's answer to keeping a room.
#[derive(Debug)]
pub enum KeepReply {
    BadRequest,
    /// A guest answered (none when the body is not an opponent's answer).
    Answered(Option<String>),
    /// No answer yet: wait that many seconds.
    NoContent(u32),
}

/// What happened since the last action.
#[derive(Debug)]
pub enum OfferEvent {
    /// The reply to opening the room.
    Put(PutOfferReply),
    /// The wait ended, because its time was up or because the player gave
    /// up (`true`).
    Waited(bool),
    /// The room was closed.
    Deleted,
    /// The reply to keeping the room.
    Keep(KeepReply),
    /// A request failed, with this message.
    Failed(String),
}

/// How an offer ends: the offer of the room's host (we answer it), or the
/// answer of a guest (to our offer).
#[derive(Debug)]
pub enum OfferResponse {
    Offer(String),
    Answer(String),
}

/// What to do next.
#[derive(Debug)]
pub enum OfferAction {
    /// Open the room at the URL with the offer.
    Put(String, String),
    /// Wait that many seconds, unless the player gives up.
    Wait(u32),
    /// Close the room at the URL with the key.
    Delete(String, String),
    /// Keep the room at the URL with the key.
    Keep(String, String),
    /// Done.
    Done(OfferResponse),
    /// Give up with this error.
    Fail(String),
}

/// The phase of an offer: what was asked last.
#[derive(Clone, Copy, Debug, PartialEq, Eq, Structural)]
pub enum OfferPhase {
    Putting,
    WaitingAfterPut,
    Keeping,
    WaitingAfterKeep,
    Deleting,
    Finished,
}

/// `OfferAction` as values.
pub enum OfferActionView {
    Put(Seq<char>, Seq<char>),
    Wait(u32),
    Delete(Seq<char>, Seq<char>),
    Keep(Seq<char>, Seq<char>),
    Offer(Seq<char>),
    Answer(Seq<char>),
    Fail(Seq<char>),
}

pub open spec fn offer_action_view(a: OfferAction) -> OfferActionView {
    match a {
        OfferAction::Put(u, o) => OfferActionView::Put(u@, o@),
        OfferAction::Wait(s) => OfferActionView::Wait(s),
        OfferAction::Delete(u, k) => OfferActionView::Delete(u@, k@),
        OfferAction::Keep(u, k) => OfferActionView::Keep(u@, k@),
        OfferAction::Done(OfferResponse::Offer(o)) => OfferActionView::Offer(o@),
        OfferAction::Done(OfferResponse::Answer(a)) => OfferActionView::Answer(a@),
        OfferAction::Fail(e) => OfferActionView::Fail(e@),
    }
}

/// An offer in progress, for the room at `url`.
pub struct OfferFlow {
    url: String,
    phase: OfferPhase,
    key: Option<String>,
}

/// `OfferFlow` as values.
pub struct OfferFlowView {
    pub url: Seq<char>,
    pub phase: OfferPhase,
    pub key: Option<Seq<char>>,
}

impl View for OfferFlow {
    type V = OfferFlowView;

    closed spec fn view(&self) -> OfferFlowView {
        OfferFlowView {
            url: self.url@,
            phase: self.phase,
            key: match self.key {
                Some(k) => Some(k@),
                None => None,
            },
        }
    }
}

pub open spec fn keep_suffix() -> Seq<char> {
    seq!['/', 'k', 'e', 'e', 'p']
}

pub open spec fn msg_room_is_full() -> Seq<char> {
    seq!['r', 'o', 'o', 'm', ' ', 'i', 's', ' ', 'f', 'u', 'l', 'l']
}

pub open spec fn msg_abort() -> Seq<char> {
    seq!['a', 'b', 'o', 'r', 't']
}

pub open spec fn msg_bad_request() -> Seq<char> {
    seq!['b', 'a', 'd', ' ', 'r', 'e', 'q', 'u', 'e', 's', 't']
}

pub open spec fn msg_invalid_response() -> Seq<char> {
    seq!['i', 'n', 'v', 'a', 'l', 'i', 'd', ' ', 'r', 'e', 's', 'p', 'o', 'n', 's', 'e']
}

pub open spec fn msg_unexpected() -> Seq<char> {
    seq!['u', 'n', 'e', 'x', 'p', 'e', 'c', 't', 'e', 'd', ' ', 'e', 'v', 'e', 'n', 't']
}

/// An offer takes an event: the flow after it and what to do next. A
/// conflict yields the host's offer (a full room, without one, fails); an
/// answer ends it; a key is kept after the wait the server asked for, with
/// the room kept until a guest answers; giving up during a wait closes the
/// room and fails. A failed request fails the whole, as does an event that
/// does not fit.
pub open spec fn offer_next(v: OfferFlowView, e: OfferEventView) -> (OfferFlowView, OfferActionView) {
    let finished = OfferFlowView { phase: OfferPhase::Finished, ..v };
    let unexpected = (finished, OfferActionView::Fail(msg_unexpected()));
    match e {
        OfferEventView::Failed(m) => (finished, OfferActionView::Fail(m)),
        _ => match v.phase {
            OfferPhase::Putting => match e {
                OfferEventView::PutConflict(Some(o)) => (finished, OfferActionView::Offer(o)),
                OfferEventView::PutConflict(None) => (finished, OfferActionView::Fail(msg_room_is_full())),
                OfferEventView::PutAnswer(a) => (finished, OfferActionView::Answer(a)),
                OfferEventView::PutKey(s, k) => (
                    OfferFlowView { phase: OfferPhase::WaitingAfterPut, key: Some(k), ..v },
                    OfferActionView::Wait(s),
                ),
                _ => unexpected,
            },
            OfferPhase::WaitingAfterPut | OfferPhase::WaitingAfterKeep => match e {
                OfferEventView::Waited(false) => (
                    OfferFlowView { phase: OfferPhase::Keeping, ..v },
                    OfferActionView::Keep(v.url + keep_suffix(), v.key.unwrap_or(Seq::empty())),
                ),
                OfferEventView::Waited(true) => (
                    OfferFlowView { phase: OfferPhase::Deleting, ..v },
                    OfferActionView::Delete(v.url, v.key.unwrap_or(Seq::empty())),
                ),
                _ => unexpected,
            },
            OfferPhase::Deleting => match e {
                OfferEventView::Deleted => (finished, OfferActionView::Fail(msg_abort())),
                _ => unexpected,
            },
            OfferPhase::Keeping => match e {
                OfferEventView::KeepBadRequest => (finished, OfferActionView::Fail(msg_bad_request())),
                OfferEventView::KeepOk(Some(a)) => (finished, OfferActionView::Answer(a)),
                OfferEventView::KeepOk(None) => (finished, OfferActionView::Fail(msg_invalid_response())),
                OfferEventView::KeepNoContent(s) => (
                    OfferFlowView { phase: OfferPhase::WaitingAfterKeep, ..v },
                    OfferActionView::Wait(s),
                ),
                _ => unexpected,
            },
            OfferPhase::Finished => unexpected,
        },
    }
}

/// Law: giving up during any wait closes the room with the key it was
/// opened with, and then fails.
pub proof fn law_give_up_closes_the_room(url: Seq<char>, secs: u32, key: Seq<char>, again: u32)
    ensures
        ({
            let v0 = OfferFlowView { url, phase: OfferPhase::Putting, key: None };
            let (v1, a1) = offer_next(v0, OfferEventView::PutKey(secs, key));
            let (v2, a2) = offer_next(v1, OfferEventView::Waited(true));
            let (v3, a3) = offer_next(v2, OfferEventView::Deleted);
            &&& a1 == OfferActionView::Wait(secs)
            &&& a2 == OfferActionView::Delete(url, key)
            &&& a3 == OfferActionView::Fail(msg_abort())
            &&& v3.phase == OfferPhase::Finished
        }),
        ({
            let kept = OfferFlowView { url, phase: OfferPhase::Keeping, key: Some(key) };
            let (v1, a1) = offer_next(kept, OfferEventView::KeepNoContent(again));
            let (_, a2) = offer_next(v1, OfferEventView::Waited(true));
            a1 == OfferActionView::Wait(again) && a2 == OfferActionView::Delete(url, key)
        }),
{
}

/// `OfferEvent` as values.
pub enum OfferEventView {
    PutConflict(Option<Seq<char>>),
    PutAnswer(Seq<char>),
    PutKey(u32, Seq<char>),
    Waited(bool),
    Deleted,
    KeepBadRequest,
    KeepOk(Option<Seq<char>>),
    KeepNoContent(u32),
    Failed(Seq<char>),
}

pub open spec fn offer_event_view(e: OfferEvent) -> OfferEventView {
    match e {
        OfferEvent::Put(PutOfferReply::Conflict(o)) => OfferEventView::PutConflict(
            match o {
                Some(x) => Some(x@),
                None => None,
            },
        ),
        OfferEvent::Put(PutOfferReply::CreatedWithAnswer(a)) => OfferEventView::PutAnswer(a@),
        OfferEvent::Put(PutOfferReply::CreatedWithKey(s, k)) => OfferEventView::PutKey(s, k@),
        OfferEvent::Waited(b) => OfferEventView::Waited(b),
        OfferEvent::Deleted => OfferEventView::Deleted,
        OfferEvent::Keep(KeepReply::BadRequest) => OfferEventView::KeepBadRequest,
        OfferEvent::Keep(KeepReply::Answered(a)) => OfferEventView::KeepOk(
            match a {
                Some(x) => Some(x@),
                None => None,
            },
        ),
        OfferEvent::Keep(KeepReply::NoContent(s)) => OfferEventView::KeepNoContent(s),
        OfferEvent::Failed(m) => OfferEventView::Failed(m@),
    }
}

fn message(text: &str) -> (r: String)
    ensures
        r@ == text@,
{
    text.to_string()
}

fn key_or_empty(key: &Option<String>) -> (r: String)
    ensures
        r@ == match key {
            Some(k) => k@,
            None => Seq::<char>::empty(),
        },
{
    match key {
        Some(k) => k.clone(),
        None => String::new(),
    }
}

impl OfferFlow {
    /// Starts offering `offer` to the room at `url`.
    pub fn start(url: String, offer: String) -> (r: (OfferFlow, OfferAction))
        ensures
            r.0@ == (OfferFlowView { url: url@, phase: OfferPhase::Putting, key: None }),
            offer_action_view(r.1) == OfferActionView::Put(url@, offer@),
    {
        (OfferFlow { url: url.clone(), phase: OfferPhase::Putting, key: None }, OfferAction::Put(url, offer))
    }

    /// The key of the room, once it was opened.
    pub fn key(&self) -> (r: Option<&String>)
        ensures
            match r {
                Some(k) => self@.key == Some(k@),
                None => self@.key is None,
            },
    {
        self.key.as_ref()
    }

    /// Takes an event; returns what to do next (see `offer_next`).
    pub fn on_event(&mut self, event: OfferEvent) -> (r: OfferAction)
        ensures
            offer_next(old(self)@, offer_event_view(event)) == (final(self)@, offer_action_view(r)),
    {
        proof {
            reveal_strlit("room is full");
            reveal_strlit("abort");
            reveal_strlit("bad request");
            reveal_strlit("invalid response");
            reveal_strlit("unexpected event");
            reveal_strlit("/keep");
        }
        let phase = self.phase;
        if let OfferEvent::Failed(m) = event {
            self.phase = OfferPhase::Finished;
            return OfferAction::Fail(m);
        }
        match phase {
            OfferPhase::Putting => match event {
                OfferEvent::Put(PutOfferReply::Conflict(Some(o))) => {
                    self.phase = OfferPhase::Finished;
                    OfferAction::Done(OfferResponse::Offer(o))
                },
                OfferEvent::Put(PutOfferReply::Conflict(None)) => {
                    self.phase = OfferPhase::Finished;
                    let m = message("room is full");
                    assert(m@ =~= msg_room_is_full());
                    OfferAction::Fail(m)
                },
                OfferEvent::Put(PutOfferReply::CreatedWithAnswer(a)) => {
                    self.phase = OfferPhase::Finished;
                    OfferAction::Done(OfferResponse::Answer(a))
                },
                OfferEvent::Put(PutOfferReply::CreatedWithKey(s, k)) => {
                    self.phase = OfferPhase::WaitingAfterPut;
                    self.key = Some(k);
                    OfferAction::Wait(s)
                },
                _ => self.unexpected(),
            },
            OfferPhase::WaitingAfterPut | OfferPhase::WaitingAfterKeep => match event {
                OfferEvent::Waited(aborted) => {
                    let key = key_or_empty(&self.key);
                    if !aborted {
                        self.phase = OfferPhase::Keeping;
                        let mut url = self.url.clone();
                        push_str(&mut url, "/keep");
                        assert("/keep"@ =~= keep_suffix());
                        OfferAction::Keep(url, key)
                    } else {
                        self.phase = OfferPhase::Deleting;
                        OfferAction::Delete(self.url.clone(), key)
                    }
                },
                _ => self.unexpected(),
            },
            OfferPhase::Deleting => match event {
                OfferEvent::Deleted => {
                    self.phase = OfferPhase::Finished;
                    let m = message("abort");
                    assert(m@ =~= msg_abort());
                    OfferAction::Fail(m)
                },
                _ => self.unexpected(),
            },
            OfferPhase::Keeping => match event {
                OfferEvent::Keep(KeepReply::BadRequest) => {
                    self.phase = OfferPhase::Finished;
                    let m = message("bad request");
                    assert(m@ =~= msg_bad_request());
                    OfferAction::Fail(m)
                },
                OfferEvent::Keep(KeepReply::Answered(Some(a))) => {
                    self.phase = OfferPhase::Finished;
                    OfferAction::Done(OfferResponse::Answer(a))
                },
                OfferEvent::Keep(KeepReply::Answered(None)) => {
                    self.phase = OfferPhase::Finished;
                    let m = message("invalid response");
                    assert(m@ =~= msg_invalid_response());
                    OfferAction::Fail(m)
                },
                OfferEvent::Keep(KeepReply::NoContent(s)) => {
                    self.phase = OfferPhase::WaitingAfterKeep;
                    OfferAction::Wait(s)
                },
                _ => self.unexpected(),
            },
            OfferPhase::Finished => self.unexpected(),
        }
    }

    fn unexpected(&mut self) -> (r: OfferAction)
        ensures
            final(self)@ == (OfferFlowView { phase: OfferPhase::Finished, ..old(self)@ }),
            offer_action_view(r) == OfferActionView::Fail(msg_unexpected()),
    {
        proof {
            reveal_strlit("unexpected event");
        }
        self.phase = OfferPhase::Finished;
        let m = message("unexpected event");
        assert(m@ =~= msg_unexpected());
        OfferAction::Fail(m)
    }
}

// The sockets.

/// Offering through a shared room of the server at `origin`.
pub struct SignalingServerSocket {
    origin: String,
    room_name: String,
}

/// The URL of a room: the origin, the API's path, then the room name.
pub open spec fn room_url(origin: Seq<char>, path: Seq<char>, room_name: Seq<char>) -> Seq<char> {
    origin + path + room_name
}

fn make_url(origin: &String, path: &str, room_name: &String) -> (r: String)
    ensures
        r@ == room_url(origin@, path@, room_name@),
{
    let mut url = origin.clone();
    push_str(&mut url, path);
    push_str(&mut url, room_name.as_str());
    url
}

impl SignalingServerSocket {
    pub fn new(origin: String, room_name: String) -> (r: SignalingServerSocket)
        ensures
            r.origin_view() == origin@,
            r.room_name_view() == room_name@,
    {
        SignalingServerSocket { origin, room_name }
    }

    pub closed spec fn origin_view(&self) -> Seq<char> {
        self.origin@
    }

    pub closed spec fn room_name_view(&self) -> Seq<char> {
        self.room_name@
    }

    /// The origin and the room name.
    pub fn into_inner(self) -> (r: (String, String))
        ensures
            r.0@ == self.origin_view(),
            r.1@ == self.room_name_view(),
    {
        (self.origin, self.room_name)
    }

    /// Starts offering `desc` through "{origin}/custom/{room name}".
    pub fn offer(&self, desc: String) -> (r: (OfferFlow, OfferAction))
        ensures
            r.0@ == (OfferFlowView {
                url: room_url(self.origin_view(), "/custom/"@, self.room_name_view()),
                phase: OfferPhase::Putting,
                key: None,
            }),
            offer_action_view(r.1) == OfferActionView::Put(
                room_url(self.origin_view(), "/custom/"@, self.room_name_view()),
                desc@,
            ),
    {
        let url = make_url(&self.origin, "/custom/", &self.room_name);
        OfferFlow::start(url, desc)
    }
}

/// Offering through a reserved room of the server at `origin`, as the
/// player who opens it; the room's key is kept once known.
pub struct SignalingServerReservedRoomOpponentSocket {
    origin: String,
    room_name: String,
    key: Option<String>,
}

impl SignalingServerReservedRoomOpponentSocket {
    pub fn new(origin: String, room_name: String) -> (r: SignalingServerReservedRoomOpponentSocket)
        ensures
            r.origin_view() == origin@,
            r.room_name_view() == room_name@,
            r.key_view() is None,
    {
        SignalingServerReservedRoomOpponentSocket { origin, room_name, key: None }
    }

    pub closed spec fn origin_view(&self) -> Seq<char> {
        self.origin@
    }

    pub closed spec fn room_name_view(&self) -> Seq<char> {
        self.room_name@
    }

    pub closed spec fn key_view(&self) -> Option<Seq<char>> {
        match self.key {
            Some(k) => Some(k@),
            None => None,
        }
    }

    /// The key of the room, once it was opened.
    pub fn into_key(self) -> (r: Option<String>)
        ensures
            match r {
                Some(k) => self.key_view() == Some(k@),
                None => self.key_view() is None,
            },
    {
        self.key
    }

    /// Records the key of the opened room (from the flow).
    pub fn set_key(&mut self, flow: &OfferFlow)
        ensures
            final(self).key_view() == flow@.key,
            final(self).origin_view() == old(self).origin_view(),
            final(self).room_name_view() == old(self).room_name_view(),
    {
        self.key = match flow.key() {
            Some(k) => Some(k.clone()),
            None => None,
        };
    }

    /// Starts offering `desc` through "{origin}/reserved-room/{room name}".
    pub fn offer(&self, desc: String) -> (r: (OfferFlow, OfferAction))
        ensures
            r.0@ == (OfferFlowView {
                url: room_url(self.origin_view(), "/reserved-room/"@, self.room_name_view()),
                phase: OfferPhase::Putting,
                key: None,
            }),
            offer_action_view(r.1) == OfferActionView::Put(
                room_url(self.origin_view(), "/reserved-room/"@, self.room_name_view()),
                desc@,
            ),
    {
        let url = make_url(&self.origin, "/reserved-room/", &self.room_name);
        OfferFlow::start(url, desc)
    }
}

/// Why a spectator cannot get a reserved room's offer.
#[derive(Clone, Copy, Debug, PartialEq, Eq, Structural)]
pub enum SignalingServerReservedRoomSpectatorSocketError {
    RoomNotFound,
    MatchIsNotStarted,
}

impl SignalingServerReservedRoomSpectatorSocketError {
    /// The message of the error.
    pub fn message(&self) -> (r: &'static str)
        ensures
            r@ == match self {
                SignalingServerReservedRoomSpectatorSocketError::RoomNotFound => "room not found"@,
                SignalingServerReservedRoomSpectatorSocketError::MatchIsNotStarted => "match is not started"@,
            },
    {
        match self {
            SignalingServerReservedRoomSpectatorSocketError::RoomNotFound => "room not found",
            SignalingServerReservedRoomSpectatorSocketError::MatchIsNotStarted => "match is not started",
        }
    }
}

/// What the server says of a reserved room a spectator asks about.
#[derive(Debug)]
pub enum SpectatedRoom {
    NotFound,
    /// The room, whether a player's offer is still open in it, and the
    /// spectator offer, if one is there.
    Found(bool, Option<String>),
}

/// What a spectator does after asking about the room.
#[derive(Debug)]
pub enum SpectatorPoll {
    /// Answer this offer.
    Offer(String),
    /// Ask again after that many seconds.
    Wait(u32),
    /// Give up.
    Error(SignalingServerReservedRoomSpectatorSocketError),
}

/// A spectator's look at a reserved room: a reply without a Retry-After
/// header is an error; a missing room, or one whose match has not started
/// (a player's offer is still open), cannot be spectated; a spectator offer
/// is answered; otherwise the spectator asks again later.
pub fn spectator_poll(retry_after: Option<u32>, room: SpectatedRoom) -> (r: Result<SpectatorPoll, ()>)
    ensures
        retry_after is None ==> r is Err,
        retry_after matches Some(s) ==> match room {
            SpectatedRoom::NotFound => r matches Ok(SpectatorPoll::Error(e))
                && e == SignalingServerReservedRoomSpectatorSocketError::RoomNotFound,
            SpectatedRoom::Found(opponent, offer) => if opponent {
                r matches Ok(SpectatorPoll::Error(e)) && e == SignalingServerReservedRoomSpectatorSocketError::MatchIsNotStarted
            } else {
                match offer {
                    Some(o) => r matches Ok(SpectatorPoll::Offer(x)) && x@ == o@,
                    None => r matches Ok(SpectatorPoll::Wait(w)) && w == s,
                }
            },
        },
{
    let s = match retry_after {
        None => return Err(()),
        Some(s) => s,
    };
    match room {
        SpectatedRoom::NotFound => Ok(SpectatorPoll::Error(SignalingServerReservedRoomSpectatorSocketError::RoomNotFound)),
        SpectatedRoom::Found(opponent, offer) => {
            if opponent {
                Ok(SpectatorPoll::Error(SignalingServerReservedRoomSpectatorSocketError::MatchIsNotStarted))
            } else {
                match offer {
                    Some(o) => Ok(SpectatorPoll::Offer(o)),
                    None => Ok(SpectatorPoll::Wait(s)),
                }
            }
        },
    }
}

/// Law: opening a room that a guest had already answered ends the offer
/// with that answer.
pub proof fn law_early_answer_is_an_answer(v: OfferFlowView, a: Seq<char>)
    requires
        v.phase == OfferPhase::Putting,
    ensures
        offer_next(v, OfferEventView::PutAnswer(a)) == (
            OfferFlowView { phase: OfferPhase::Finished, ..v },
            OfferActionView::Answer(a),
        ),
{
}

/// Law: an offer ends with a host's offer only when opening the room found
/// it taken by that host, and with an answer only when a guest's answer
/// came back, on opening or on keeping the room.
pub proof fn law_offer_ends_by_what_came_back(v: OfferFlowView, e: OfferEventView)
    ensures
        offer_next(v, e).1 matches OfferActionView::Offer(o) ==> v.phase == OfferPhase::Putting && e
            == OfferEventView::PutConflict(Some(o)),
        offer_next(v, e).1 matches OfferActionView::Answer(a) ==> (v.phase == OfferPhase::Putting && e
            == OfferEventView::PutAnswer(a)) || (v.phase == OfferPhase::Keeping && e == OfferEventView::KeepOk(Some(a))),
{
}

} // verus!
