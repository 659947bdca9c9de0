use vstd::prelude::*;
use crate::room_utils::{now_sec, ttl_sec, OFFER_TTL_DURATION_SEC, RETRY_AFTER_INTERVAL_SEC};
use crate::signaling_server::{
    clock_out_of_range, ends_with_at, find_slash, is_name, is_uuid, named_with_suffix, new_room_key, opt_str,
    parses_as_uuid, unexpected_reply, Answer, AnswerView, GuestFor, HttpMethod, PutOutcome, PutOutcomeView,
};

verus! {

// Records of the reserved-room table.

/// A reserved room: a room name that the host keeps, with the offer for
/// an opponent and, once the match runs, the offer for a spectator.
#[derive(Clone, Debug)]
pub struct ReservedRoom {
    name: String,
    key: String,
    opponent_offer_sdp: Option<String>,
    spectator_offer_sdp: Option<String>,
    ttl_sec: u64,
}

/// `ReservedRoom` as values.
pub struct ReservedRoomView {
    pub name: Seq<char>,
    /// Proves that a request comes from the room's owner.
    pub key: Seq<char>,
    /// The offer to an opponent, while one is awaited.
    pub opponent_offer_sdp: Option<Seq<char>>,
    /// The offer to a spectator, while one is awaited.
    pub spectator_offer_sdp: Option<Seq<char>>,
    pub ttl_sec: u64,
}

impl View for ReservedRoom {
    type V = ReservedRoomView;

    closed spec fn view(&self) -> ReservedRoomView {
        ReservedRoomView {
            name: self.name@,
            key: self.key@,
            opponent_offer_sdp: opt_str(self.opponent_offer_sdp),
            spectator_offer_sdp: opt_str(self.spectator_offer_sdp),
            ttl_sec: self.ttl_sec,
        }
    }
}

fn copy_opt(s: &Option<String>) -> (r: Option<String>)
    ensures
        opt_str(r) == opt_str(*s),
{
    match s {
        Some(x) => Some(x.clone()),
        None => None,
    }
}

impl ReservedRoom {
    pub fn new(
        name: String,
        key: String,
        opponent_offer_sdp: Option<String>,
        spectator_offer_sdp: Option<String>,
        ttl_sec: u64,
    ) -> (r: ReservedRoom)
        ensures
            r@ == (ReservedRoomView {
                name: name@,
                key: key@,
                opponent_offer_sdp: opt_str(opponent_offer_sdp),
                spectator_offer_sdp: opt_str(spectator_offer_sdp),
                ttl_sec,
            }),
    {
        ReservedRoom { name, key, opponent_offer_sdp, spectator_offer_sdp, ttl_sec }
    }

    pub fn name(&self) -> (r: &String)
        ensures
            r@ == self@.name,
    {
        &self.name
    }

    pub fn key(&self) -> (r: &String)
        ensures
            r@ == self@.key,
    {
        &self.key
    }

    pub fn opponent_offer_sdp(&self) -> (r: &Option<String>)
        ensures
            opt_str(*r) == self@.opponent_offer_sdp,
    {
        &self.opponent_offer_sdp
    }

    pub fn spectator_offer_sdp(&self) -> (r: &Option<String>)
        ensures
            opt_str(*r) == self@.spectator_offer_sdp,
    {
        &self.spectator_offer_sdp
    }

    /// The second after which the room is gone.
    pub fn ttl_sec(&self) -> (r: u64)
        ensures
            r == self@.ttl_sec,
    {
        self.ttl_sec
    }

    /// Whether the room is gone at `now_sec`.
    pub fn is_expired(&self, now_sec: u64) -> (r: bool)
        ensures
            r == (now_sec > self@.ttl_sec),
    {
        now_sec > self.ttl_sec
    }

    /// The offer to an opponent, if one is awaited.
    pub fn into_opponent_offer_sdp(self) -> (r: Option<String>)
        ensures
            opt_str(r) == self@.opponent_offer_sdp,
    {
        self.opponent_offer_sdp
    }

    /// Both offers.
    pub fn into_opponent_offer_sdp_spectator_offer_sdp(self) -> (r: (Option<String>, Option<String>))
        ensures
            opt_str(r.0) == self@.opponent_offer_sdp,
            opt_str(r.1) == self@.spectator_offer_sdp,
    {
        (self.opponent_offer_sdp, self.spectator_offer_sdp)
    }

    /// A copy.
    pub fn duplicate(&self) -> (r: ReservedRoom)
        ensures
            r@ == self@,
    {
        ReservedRoom {
            name: self.name.clone(),
            key: self.key.clone(),
            opponent_offer_sdp: copy_opt(&self.opponent_offer_sdp),
            spectator_offer_sdp: copy_opt(&self.spectator_offer_sdp),
            ttl_sec: self.ttl_sec,
        }
    }
}

// Routing.

/// What a path under the reserved-room prefix names: a room ("{name}"), or
/// its join, spectate or keep request ("{name}/join", "{name}/spectate",
/// "{name}/keep"), or nothing. The name is the path segment as it came.
pub enum ReservedTarget {
    Room(Seq<char>),
    Join(Seq<char>),
    Spectate(Seq<char>),
    Keep(Seq<char>),
    NotFound,
}

pub open spec fn join_suffix() -> Seq<char> {
    seq!['/', 'j', 'o', 'i', 'n']
}

pub open spec fn spectate_suffix() -> Seq<char> {
    seq!['/', 's', 'p', 'e', 'c', 't', 'a', 't', 'e']
}

pub open spec fn keep_suffix() -> Seq<char> {
    seq!['/', 'k', 'e', 'e', 'p']
}

/// The target of a path.
pub open spec fn reserved_target(s: Seq<char>) -> ReservedTarget {
    if is_name(s) {
        ReservedTarget::Room(s)
    } else if named_with_suffix(s, join_suffix()) {
        ReservedTarget::Join(s.take(s.len() - 5))
    } else if named_with_suffix(s, spectate_suffix()) {
        ReservedTarget::Spectate(s.take(s.len() - 9))
    } else if named_with_suffix(s, keep_suffix()) {
        ReservedTarget::Keep(s.take(s.len() - 5))
    } else {
        ReservedTarget::NotFound
    }
}

/// What the server does with a request to a reserved room. Each carries
/// the room name as it stands in the path.
#[derive(Debug)]
pub enum ReservedEndpoint {
    /// Open the room (the body holds the offer).
    PutRoom(String),
    /// Read the room's offers.
    GetRoom(String),
    /// Close the room (the body holds its key).
    DeleteRoom(String),
    /// Answer the opponent offer (the body holds the answer).
    PostRoomJoin(String),
    /// Answer the spectator offer (the body holds the answer).
    PostRoomSpectate(String),
    /// Keep the room open (the body holds its key and maybe a spectator offer).
    PostRoomKeep(String),
    /// 405.
    MethodNotAllowed,
    /// 404.
    NotFound,
}

/// `ReservedEndpoint` as values.
pub enum ReservedEndpointView {
    PutRoom(Seq<char>),
    GetRoom(Seq<char>),
    DeleteRoom(Seq<char>),
    PostRoomJoin(Seq<char>),
    PostRoomSpectate(Seq<char>),
    PostRoomKeep(Seq<char>),
    MethodNotAllowed,
    NotFound,
}

pub open spec fn reserved_endpoint_view(e: ReservedEndpoint) -> ReservedEndpointView {
    match e {
        ReservedEndpoint::PutRoom(n) => ReservedEndpointView::PutRoom(n@),
        ReservedEndpoint::GetRoom(n) => ReservedEndpointView::GetRoom(n@),
        ReservedEndpoint::DeleteRoom(n) => ReservedEndpointView::DeleteRoom(n@),
        ReservedEndpoint::PostRoomJoin(n) => ReservedEndpointView::PostRoomJoin(n@),
        ReservedEndpoint::PostRoomSpectate(n) => ReservedEndpointView::PostRoomSpectate(n@),
        ReservedEndpoint::PostRoomKeep(n) => ReservedEndpointView::PostRoomKeep(n@),
        ReservedEndpoint::MethodNotAllowed => ReservedEndpointView::MethodNotAllowed,
        ReservedEndpoint::NotFound => ReservedEndpointView::NotFound,
    }
}

/// Where a request goes: a room takes PUT, GET and DELETE; its join,
/// spectate and keep requests take POST; other methods are not allowed,
/// other paths not found.
pub open spec fn reserved_route_spec(s: Seq<char>, method: HttpMethod) -> ReservedEndpointView {
    let post_only = |e: ReservedEndpointView|
        if method == HttpMethod::Post {
            e
        } else {
            ReservedEndpointView::MethodNotAllowed
        };
    match reserved_target(s) {
        ReservedTarget::Room(n) => match method {
            HttpMethod::Put => ReservedEndpointView::PutRoom(n),
            HttpMethod::Get => ReservedEndpointView::GetRoom(n),
            HttpMethod::Delete => ReservedEndpointView::DeleteRoom(n),
            _ => ReservedEndpointView::MethodNotAllowed,
        },
        ReservedTarget::Join(n) => post_only(ReservedEndpointView::PostRoomJoin(n)),
        ReservedTarget::Spectate(n) => post_only(ReservedEndpointView::PostRoomSpectate(n)),
        ReservedTarget::Keep(n) => post_only(ReservedEndpointView::PostRoomKeep(n)),
        ReservedTarget::NotFound => ReservedEndpointView::NotFound,
    }
}

/// With its first slash at `i > 0`, `s` is a name followed by a suffix
/// that starts with a slash exactly when the suffix is what follows `i`.
proof fn lemma_suffix_after_slash(s: Seq<char>, i: int, suffix: Seq<char>)
    requires
        0 < i < s.len(),
        s[i] == '/',
        !s.take(i).contains('/'),
        suffix.len() > 0,
        suffix[0] == '/',
    ensures
        named_with_suffix(s, suffix) <==> (s.skip(i) == suffix),
{
    if named_with_suffix(s, suffix) {
        let k = s.len() - suffix.len();
        assert(s.skip(k)[0] == suffix[0]);
        assert(s[k] == '/');
        if i < k {
            assert(s.take(k)[i] == '/');
        } else if i > k {
            assert(s.take(i)[k] == '/');
        }
    }
    if s.skip(i) == suffix {
        assert(s.len() - suffix.len() == i);
        assert(is_name(s.take(i)));
    }
}

/// Where a reserved-room request goes (see `reserved_route_spec`).
pub fn route(relative_uri: &str, method: HttpMethod) -> (r: ReservedEndpoint)
    ensures
        reserved_endpoint_view(r) == reserved_route_spec(relative_uri@, method),
{
    let s = relative_uri;
    let n = s.unicode_len();
    let join = "/join";
    let spectate = "/spectate";
    let keep = "/keep";
    proof {
        reveal_strlit("/join");
        reveal_strlit("/spectate");
        reveal_strlit("/keep");
        assert(join@ =~= join_suffix());
        assert(spectate@ =~= spectate_suffix());
        assert(keep@ =~= keep_suffix());
    }
    match find_slash(s) {
        None => {
            if n == 0 {
                return ReservedEndpoint::NotFound;
            }
            let name = s.to_string();
            match method {
                HttpMethod::Put => ReservedEndpoint::PutRoom(name),
                HttpMethod::Get => ReservedEndpoint::GetRoom(name),
                HttpMethod::Delete => ReservedEndpoint::DeleteRoom(name),
                _ => ReservedEndpoint::MethodNotAllowed,
            }
        },
        Some(i) => {
            proof {
                assert(s@.contains('/')) by {
                    assert(s@[i as int] == '/');
                }
            }
            if i == 0 {
                proof {
                    lemma_first_slash_at_start(s@);
                }
                return ReservedEndpoint::NotFound;
            }
            proof {
                lemma_suffix_after_slash(s@, i as int, join_suffix());
                lemma_suffix_after_slash(s@, i as int, spectate_suffix());
                lemma_suffix_after_slash(s@, i as int, keep_suffix());
            }
            let name = s.substring_char(0, i).to_string();
            assert(name@ =~= s@.take(i as int));
            if ends_with_at(s, i, join) {
                assert(s@.len() - 5 == i);
                if method == HttpMethod::Post {
                    ReservedEndpoint::PostRoomJoin(name)
                } else {
                    ReservedEndpoint::MethodNotAllowed
                }
            } else if ends_with_at(s, i, spectate) {
                assert(s@.len() - 9 == i);
                if method == HttpMethod::Post {
                    ReservedEndpoint::PostRoomSpectate(name)
                } else {
                    ReservedEndpoint::MethodNotAllowed
                }
            } else if ends_with_at(s, i, keep) {
                assert(s@.len() - 5 == i);
                if method == HttpMethod::Post {
                    ReservedEndpoint::PostRoomKeep(name)
                } else {
                    ReservedEndpoint::MethodNotAllowed
                }
            } else {
                ReservedEndpoint::NotFound
            }
        },
    }
}

/// A path that starts with a slash is no name followed by a suffix.
proof fn lemma_first_slash_at_start(s: Seq<char>)
    requires
        s.len() > 0,
        s[0] == '/',
    ensures
        !named_with_suffix(s, join_suffix()),
        !named_with_suffix(s, spectate_suffix()),
        !named_with_suffix(s, keep_suffix()),
{
    if named_with_suffix(s, join_suffix()) {
        assert(s.take(s.len() - 5)[0] == '/');
    }
    if named_with_suffix(s, spectate_suffix()) {
        assert(s.take(s.len() - 9)[0] == '/');
    }
    if named_with_suffix(s, keep_suffix()) {
        assert(s.take(s.len() - 5)[0] == '/');
    }
}

// The reserved-room requests, as exchanges with the tables.

/// A request to the reserved-room tables.
#[derive(Debug)]
pub enum ReservedDbRequest {
    /// The room of that name, if any.
    FindRoom(String),
    /// Remove the room of that name (only with that key, when one is given);
    /// replies whether one was removed.
    RemoveRoom(String, Option<String>),
    /// Remove and return the opponent's answer to the room of that name.
    RemoveOpponentAnswer(String),
    /// Remove and return the spectator's answer to the room of that name.
    RemoveSpectatorAnswer(String),
    /// Clear the opponent offer of the room of that name; replies whether
    /// it was cleared.
    RemoveOpponentOffer(String),
    /// Clear the spectator offer of the room of that name; replies whether
    /// it was cleared.
    RemoveSpectatorOffer(String),
    /// Write a room, unless one of its name exists.
    PutRoom(ReservedRoom),
    /// Extend the life of the room of that name and key to that second,
    /// setting its spectator offer when one is given; replies with the room
    /// as it then is, if there was one.
    KeepRoom(String, String, Option<String>, u64),
    /// Write an opponent's answer, unless one to that room exists.
    PutOpponentAnswer(Answer),
    /// Write a spectator's answer, unless one to that room exists.
    PutSpectatorAnswer(Answer),
}

/// A reply of the reserved-room tables.
#[derive(Debug)]
pub enum ReservedDbReply {
    Room(Option<ReservedRoom>),
    Flag(bool),
    Answer(Option<Answer>),
    Put(PutOutcome),
    /// The request failed, with this message.
    Failed(String),
}

/// The server's answer to a reserved-room request. Answers that ask the
/// client to come back say so after `RETRY_AFTER_INTERVAL_SEC`.
#[derive(Debug)]
pub enum ReservedRoomResponse {
    /// The room is open; the key proves ownership.
    CreatedWithKey(String),
    /// The room is open and an opponent had already answered.
    CreatedWithAnswer(String),
    /// A room of that name is open; its opponent offer, if one is awaited.
    Conflict(Option<String>),
    /// The room's opponent offer and spectator offer.
    Found(Option<String>, Option<String>),
    /// No live room of that name.
    NotFound,
    /// The room is kept and the opponent answered.
    KeepOpponentAnswer(String),
    /// The room is kept and a spectator answered.
    KeepSpectatorAnswer(String),
    /// The room is kept; no answer yet.
    KeepNoContent,
    /// The key is malformed or does not open the room.
    BadRequest,
    /// The room is closed.
    DeleteNoContent,
    /// The answer is stored.
    AnswerOk,
    /// An answer of that kind to that room is already stored.
    AnswerConflict,
}

/// What to do next in a reserved-room request.
#[derive(Debug)]
pub enum ReservedStep {
    /// Send this request to the tables and hand the reply to `on_reply`.
    Ask(ReservedDbRequest),
    /// Answer the client.
    Respond(ReservedRoomResponse),
    /// Give up with this error.
    Fail(String),
}

/// How far the removal of an expired room has come: the room, then the
/// opponent's answer, then the spectator's answer.
#[derive(Clone, Copy, Debug, PartialEq, Eq, Structural)]
pub enum ClearStage {
    Room,
    OpponentAnswer,
    SpectatorAnswer,
}

/// Where a reserved-room request stands: what was asked of the tables last.
#[derive(Debug)]
pub enum ReservedRoomFlow {
    /// Opening `room`: looked the name up (`retry`: writes that conflicted).
    PutFinding { room: ReservedRoom, retry: u32, now: u64 },
    /// Opening `room`: removing the expired room `expired` and its answers.
    PutClearing { room: ReservedRoom, retry: u32, now: u64, expired: String, stage: ClearStage },
    /// Opening `room`: writing it.
    PutPutting { room: ReservedRoom, retry: u32, now: u64 },
    /// Reading a room: looked the name up.
    GetFinding { now: u64 },
    /// Reading a room: removing the expired room `expired` and its answers.
    GetClearing { expired: String, stage: ClearStage },
    /// Looking for the opponent's answer to the room `name` (opened with `key`).
    OpponentFinding { name: String, key: String, target: GuestFor },
    /// The opponent answered `answer`: clearing the opponent offer.
    OpponentOfferRemoving { answer: String, target: GuestFor },
    /// Looking for a spectator's answer to the room `name`.
    SpectatorFinding { name: String },
    /// A spectator answered `answer`: clearing the spectator offer.
    SpectatorOfferRemoving { answer: String },
    /// Keeping the room `name`.
    Keeping { name: String },
    /// Closing the room `name`.
    Deleting { name: String },
    /// Closed: removing the opponent's answer to it.
    DeletingAnswer,
    /// Storing an answer.
    Answering,
    /// Done.
    Finished,
}

/// `ReservedDbRequest` as values.
pub enum ReservedDbRequestView {
    FindRoom(Seq<char>),
    RemoveRoom(Seq<char>, Option<Seq<char>>),
    RemoveOpponentAnswer(Seq<char>),
    RemoveSpectatorAnswer(Seq<char>),
    RemoveOpponentOffer(Seq<char>),
    RemoveSpectatorOffer(Seq<char>),
    PutRoom(ReservedRoomView),
    KeepRoom(Seq<char>, Seq<char>, Option<Seq<char>>, u64),
    PutOpponentAnswer(AnswerView),
    PutSpectatorAnswer(AnswerView),
}

/// `ReservedDbReply` as values.
pub enum ReservedDbReplyView {
    Room(Option<ReservedRoomView>),
    Flag(bool),
    Answer(Option<AnswerView>),
    Put(PutOutcomeView),
    Failed(Seq<char>),
}

/// `ReservedRoomResponse` as values.
pub enum ReservedRoomResponseView {
    CreatedWithKey(Seq<char>),
    CreatedWithAnswer(Seq<char>),
    Conflict(Option<Seq<char>>),
    Found(Option<Seq<char>>, Option<Seq<char>>),
    NotFound,
    KeepOpponentAnswer(Seq<char>),
    KeepSpectatorAnswer(Seq<char>),
    KeepNoContent,
    BadRequest,
    DeleteNoContent,
    AnswerOk,
    AnswerConflict,
}

/// `ReservedStep` as values.
pub enum ReservedStepView {
    Ask(ReservedDbRequestView),
    Respond(ReservedRoomResponseView),
    Fail(Seq<char>),
}

/// `ReservedRoomFlow` as values.
pub enum ReservedFlowView {
    PutFinding { room: ReservedRoomView, retry: u32, now: u64 },
    PutClearing { room: ReservedRoomView, retry: u32, now: u64, expired: Seq<char>, stage: ClearStage },
    PutPutting { room: ReservedRoomView, retry: u32, now: u64 },
    GetFinding { now: u64 },
    GetClearing { expired: Seq<char>, stage: ClearStage },
    OpponentFinding { name: Seq<char>, key: Seq<char>, target: GuestFor },
    OpponentOfferRemoving { answer: Seq<char>, target: GuestFor },
    SpectatorFinding { name: Seq<char> },
    SpectatorOfferRemoving { answer: Seq<char> },
    Keeping { name: Seq<char> },
    Deleting { name: Seq<char> },
    DeletingAnswer,
    Answering,
    Finished,
}

pub open spec fn outcome_view(o: PutOutcome) -> PutOutcomeView {
    match o {
        PutOutcome::Written => PutOutcomeView::Written,
        PutOutcome::Conflict => PutOutcomeView::Conflict,
        PutOutcome::Failed(e) => PutOutcomeView::Failed(e@),
    }
}

pub open spec fn reserved_request_view(q: ReservedDbRequest) -> ReservedDbRequestView {
    match q {
        ReservedDbRequest::FindRoom(n) => ReservedDbRequestView::FindRoom(n@),
        ReservedDbRequest::RemoveRoom(n, k) => ReservedDbRequestView::RemoveRoom(n@, opt_str(k)),
        ReservedDbRequest::RemoveOpponentAnswer(n) => ReservedDbRequestView::RemoveOpponentAnswer(n@),
        ReservedDbRequest::RemoveSpectatorAnswer(n) => ReservedDbRequestView::RemoveSpectatorAnswer(n@),
        ReservedDbRequest::RemoveOpponentOffer(n) => ReservedDbRequestView::RemoveOpponentOffer(n@),
        ReservedDbRequest::RemoveSpectatorOffer(n) => ReservedDbRequestView::RemoveSpectatorOffer(n@),
        ReservedDbRequest::PutRoom(r) => ReservedDbRequestView::PutRoom(r@),
        ReservedDbRequest::KeepRoom(n, k, o, t) => ReservedDbRequestView::KeepRoom(n@, k@, opt_str(o), t),
        ReservedDbRequest::PutOpponentAnswer(a) => ReservedDbRequestView::PutOpponentAnswer(a@),
        ReservedDbRequest::PutSpectatorAnswer(a) => ReservedDbRequestView::PutSpectatorAnswer(a@),
    }
}

pub open spec fn reserved_reply_view(r: ReservedDbReply) -> ReservedDbReplyView {
    match r {
        ReservedDbReply::Room(x) => ReservedDbReplyView::Room(
            match x {
                Some(room) => Some(room@),
                None => None,
            },
        ),
        ReservedDbReply::Flag(b) => ReservedDbReplyView::Flag(b),
        ReservedDbReply::Answer(x) => ReservedDbReplyView::Answer(
            match x {
                Some(a) => Some(a@),
                None => None,
            },
        ),
        ReservedDbReply::Put(o) => ReservedDbReplyView::Put(outcome_view(o)),
        ReservedDbReply::Failed(e) => ReservedDbReplyView::Failed(e@),
    }
}

pub open spec fn reserved_response_view(r: ReservedRoomResponse) -> ReservedRoomResponseView {
    match r {
        ReservedRoomResponse::CreatedWithKey(k) => ReservedRoomResponseView::CreatedWithKey(k@),
        ReservedRoomResponse::CreatedWithAnswer(a) => ReservedRoomResponseView::CreatedWithAnswer(a@),
        ReservedRoomResponse::Conflict(o) => ReservedRoomResponseView::Conflict(opt_str(o)),
        ReservedRoomResponse::Found(o, s) => ReservedRoomResponseView::Found(opt_str(o), opt_str(s)),
        ReservedRoomResponse::NotFound => ReservedRoomResponseView::NotFound,
        ReservedRoomResponse::KeepOpponentAnswer(a) => ReservedRoomResponseView::KeepOpponentAnswer(a@),
        ReservedRoomResponse::KeepSpectatorAnswer(a) => ReservedRoomResponseView::KeepSpectatorAnswer(a@),
        ReservedRoomResponse::KeepNoContent => ReservedRoomResponseView::KeepNoContent,
        ReservedRoomResponse::BadRequest => ReservedRoomResponseView::BadRequest,
        ReservedRoomResponse::DeleteNoContent => ReservedRoomResponseView::DeleteNoContent,
        ReservedRoomResponse::AnswerOk => ReservedRoomResponseView::AnswerOk,
        ReservedRoomResponse::AnswerConflict => ReservedRoomResponseView::AnswerConflict,
    }
}

pub open spec fn reserved_step_view(s: ReservedStep) -> ReservedStepView {
    match s {
        ReservedStep::Ask(q) => ReservedStepView::Ask(reserved_request_view(q)),
        ReservedStep::Respond(r) => ReservedStepView::Respond(reserved_response_view(r)),
        ReservedStep::Fail(e) => ReservedStepView::Fail(e@),
    }
}

pub open spec fn reserved_flow_view(f: ReservedRoomFlow) -> ReservedFlowView {
    match f {
        ReservedRoomFlow::PutFinding { room, retry, now } => ReservedFlowView::PutFinding { room: room@, retry, now },
        ReservedRoomFlow::PutClearing { room, retry, now, expired, stage } => ReservedFlowView::PutClearing {
            room: room@,
            retry,
            now,
            expired: expired@,
            stage,
        },
        ReservedRoomFlow::PutPutting { room, retry, now } => ReservedFlowView::PutPutting { room: room@, retry, now },
        ReservedRoomFlow::GetFinding { now } => ReservedFlowView::GetFinding { now },
        ReservedRoomFlow::GetClearing { expired, stage } => ReservedFlowView::GetClearing { expired: expired@, stage },
        ReservedRoomFlow::OpponentFinding { name, key, target } => ReservedFlowView::OpponentFinding {
            name: name@,
            key: key@,
            target,
        },
        ReservedRoomFlow::OpponentOfferRemoving { answer, target } => ReservedFlowView::OpponentOfferRemoving {
            answer: answer@,
            target,
        },
        ReservedRoomFlow::SpectatorFinding { name } => ReservedFlowView::SpectatorFinding { name: name@ },
        ReservedRoomFlow::SpectatorOfferRemoving { answer } => ReservedFlowView::SpectatorOfferRemoving { answer: answer@ },
        ReservedRoomFlow::Keeping { name } => ReservedFlowView::Keeping { name: name@ },
        ReservedRoomFlow::Deleting { name } => ReservedFlowView::Deleting { name: name@ },
        ReservedRoomFlow::DeletingAnswer => ReservedFlowView::DeletingAnswer,
        ReservedRoomFlow::Answering => ReservedFlowView::Answering,
        ReservedRoomFlow::Finished => ReservedFlowView::Finished,
    }
}

/// The seconds after which an answer asks the client to come back: the
/// answers that leave it waiting (a room opened, a conflict, a room kept
/// without answer) carry `RETRY_AFTER_INTERVAL_SEC`, the others none.
pub open spec fn reserved_retry_after(r: ReservedRoomResponseView) -> Option<u32> {
    match r {
        ReservedRoomResponseView::CreatedWithKey(_) => Some(RETRY_AFTER_INTERVAL_SEC),
        ReservedRoomResponseView::CreatedWithAnswer(_) => Some(RETRY_AFTER_INTERVAL_SEC),
        ReservedRoomResponseView::Conflict(_) => Some(RETRY_AFTER_INTERVAL_SEC),
        ReservedRoomResponseView::KeepNoContent => Some(RETRY_AFTER_INTERVAL_SEC),
        _ => None,
    }
}

impl ReservedRoomResponse {
    /// The Retry-After seconds of the answer (see `reserved_retry_after`).
    pub fn retry_after(&self) -> (r: Option<u32>)
        ensures
            r == reserved_retry_after(reserved_response_view(*self)),
    {
        match self {
            ReservedRoomResponse::CreatedWithKey(_) => Some(RETRY_AFTER_INTERVAL_SEC),
            ReservedRoomResponse::CreatedWithAnswer(_) => Some(RETRY_AFTER_INTERVAL_SEC),
            ReservedRoomResponse::Conflict(_) => Some(RETRY_AFTER_INTERVAL_SEC),
            ReservedRoomResponse::KeepNoContent => Some(RETRY_AFTER_INTERVAL_SEC),
            _ => None,
        }
    }
}

/// The answer an opponent lookup ends with.
pub open spec fn opponent_response(target: GuestFor, key: Seq<char>, answer: Option<Seq<char>>) -> ReservedRoomResponseView {
    match (target, answer) {
        (GuestFor::Put, None) => ReservedRoomResponseView::CreatedWithKey(key),
        (GuestFor::Put, Some(a)) => ReservedRoomResponseView::CreatedWithAnswer(a),
        (GuestFor::Keep, None) => ReservedRoomResponseView::KeepNoContent,
        (GuestFor::Keep, Some(a)) => ReservedRoomResponseView::KeepOpponentAnswer(a),
    }
}

/// The removal of an expired room takes a reply: the next stage and what
/// to ask, or `None` when the spectator's answer is gone too.
pub open spec fn clear_next(stage: ClearStage, expired: Seq<char>, reply: ReservedDbReplyView) -> Option<
    Option<(ClearStage, ReservedDbRequestView)>,
> {
    match (stage, reply) {
        (ClearStage::Room, ReservedDbReplyView::Flag(_)) => Some(
            Some((ClearStage::OpponentAnswer, ReservedDbRequestView::RemoveOpponentAnswer(expired))),
        ),
        (ClearStage::OpponentAnswer, ReservedDbReplyView::Answer(_)) => Some(
            Some((ClearStage::SpectatorAnswer, ReservedDbRequestView::RemoveSpectatorAnswer(expired))),
        ),
        (ClearStage::SpectatorAnswer, ReservedDbReplyView::Answer(_)) => Some(None),
        _ => None,
    }
}

/// A reserved-room request takes the tables' reply: the state after it and
/// what to do next. Opening or reading a room looks its name up; a live
/// room is a conflict (with its opponent offer) for opening, and is read
/// out for reading; an expired one is removed with both answers to it,
/// after which opening writes the room (a conflicting write starts over)
/// and reading finds nothing. A written room, and a kept room with an
/// opponent offer, look for the opponent's answer, which is taken with the
/// offer cleared; a kept room with only a spectator offer does the same
/// for the spectator. Closing needs the key and removes the opponent's
/// answer too. Joining and spectating write the answer unless one exists.
/// A failed request fails the whole, as does a reply that does not fit.
pub open spec fn reserved_flow_next(s: ReservedFlowView, reply: ReservedDbReplyView) -> (ReservedFlowView, ReservedStepView) {
    let unexpected = (ReservedFlowView::Finished, ReservedStepView::Fail(unexpected_reply()));
    let respond = |r: ReservedRoomResponseView| (ReservedFlowView::Finished, ReservedStepView::Respond(r));
    match reply {
        ReservedDbReplyView::Failed(e) => (ReservedFlowView::Finished, ReservedStepView::Fail(e)),
        _ => match s {
            ReservedFlowView::PutFinding { room, retry, now } => match reply {
                ReservedDbReplyView::Room(None) => (
                    ReservedFlowView::PutPutting { room, retry, now },
                    ReservedStepView::Ask(ReservedDbRequestView::PutRoom(room)),
                ),
                ReservedDbReplyView::Room(Some(found)) => if now > found.ttl_sec {
                    (
                        ReservedFlowView::PutClearing { room, retry, now, expired: found.name, stage: ClearStage::Room },
                        ReservedStepView::Ask(ReservedDbRequestView::RemoveRoom(found.name, None)),
                    )
                } else {
                    respond(ReservedRoomResponseView::Conflict(found.opponent_offer_sdp))
                },
                _ => unexpected,
            },
            ReservedFlowView::PutClearing { room, retry, now, expired, stage } => match clear_next(stage, expired, reply) {
                Some(Some((next, q))) => (
                    ReservedFlowView::PutClearing { room, retry, now, expired, stage: next },
                    ReservedStepView::Ask(q),
                ),
                Some(None) => (
                    ReservedFlowView::PutPutting { room, retry, now },
                    ReservedStepView::Ask(ReservedDbRequestView::PutRoom(room)),
                ),
                None => unexpected,
            },
            ReservedFlowView::PutPutting { room, retry, now } => match reply {
                ReservedDbReplyView::Put(PutOutcomeView::Written) => (
                    ReservedFlowView::OpponentFinding { name: room.name, key: room.key, target: GuestFor::Put },
                    ReservedStepView::Ask(ReservedDbRequestView::RemoveOpponentAnswer(room.name)),
                ),
                ReservedDbReplyView::Put(PutOutcomeView::Conflict) => (
                    ReservedFlowView::PutFinding { room, retry: (retry + 1) as u32, now },
                    ReservedStepView::Ask(ReservedDbRequestView::FindRoom(room.name)),
                ),
                ReservedDbReplyView::Put(PutOutcomeView::Failed(e)) => (ReservedFlowView::Finished, ReservedStepView::Fail(e)),
                _ => unexpected,
            },
            ReservedFlowView::GetFinding { now } => match reply {
                ReservedDbReplyView::Room(None) => respond(ReservedRoomResponseView::NotFound),
                ReservedDbReplyView::Room(Some(found)) => if now > found.ttl_sec {
                    (
                        ReservedFlowView::GetClearing { expired: found.name, stage: ClearStage::Room },
                        ReservedStepView::Ask(ReservedDbRequestView::RemoveRoom(found.name, None)),
                    )
                } else {
                    respond(ReservedRoomResponseView::Found(found.opponent_offer_sdp, found.spectator_offer_sdp))
                },
                _ => unexpected,
            },
            ReservedFlowView::GetClearing { expired, stage } => match clear_next(stage, expired, reply) {
                Some(Some((next, q))) => (ReservedFlowView::GetClearing { expired, stage: next }, ReservedStepView::Ask(q)),
                Some(None) => respond(ReservedRoomResponseView::NotFound),
                None => unexpected,
            },
            ReservedFlowView::OpponentFinding { name, key, target } => match reply {
                ReservedDbReplyView::Answer(None) => respond(opponent_response(target, key, None)),
                ReservedDbReplyView::Answer(Some(a)) => (
                    ReservedFlowView::OpponentOfferRemoving { answer: a.sdp, target },
                    ReservedStepView::Ask(ReservedDbRequestView::RemoveOpponentOffer(name)),
                ),
                _ => unexpected,
            },
            ReservedFlowView::OpponentOfferRemoving { answer, target } => match reply {
                ReservedDbReplyView::Flag(_) => respond(opponent_response(target, Seq::empty(), Some(answer))),
                _ => unexpected,
            },
            ReservedFlowView::SpectatorFinding { name } => match reply {
                ReservedDbReplyView::Answer(None) => respond(ReservedRoomResponseView::KeepNoContent),
                ReservedDbReplyView::Answer(Some(a)) => (
                    ReservedFlowView::SpectatorOfferRemoving { answer: a.sdp },
                    ReservedStepView::Ask(ReservedDbRequestView::RemoveSpectatorOffer(name)),
                ),
                _ => unexpected,
            },
            ReservedFlowView::SpectatorOfferRemoving { answer } => match reply {
                ReservedDbReplyView::Flag(_) => respond(ReservedRoomResponseView::KeepSpectatorAnswer(answer)),
                _ => unexpected,
            },
            ReservedFlowView::Keeping { name } => match reply {
                ReservedDbReplyView::Room(None) => respond(ReservedRoomResponseView::BadRequest),
                ReservedDbReplyView::Room(Some(kept)) => if kept.opponent_offer_sdp is Some {
                    (
                        ReservedFlowView::OpponentFinding { name, key: Seq::empty(), target: GuestFor::Keep },
                        ReservedStepView::Ask(ReservedDbRequestView::RemoveOpponentAnswer(name)),
                    )
                } else if kept.spectator_offer_sdp is Some {
                    (
                        ReservedFlowView::SpectatorFinding { name },
                        ReservedStepView::Ask(ReservedDbRequestView::RemoveSpectatorAnswer(name)),
                    )
                } else {
                    respond(ReservedRoomResponseView::KeepNoContent)
                },
                _ => unexpected,
            },
            ReservedFlowView::Deleting { name } => match reply {
                ReservedDbReplyView::Flag(true) => (
                    ReservedFlowView::DeletingAnswer,
                    ReservedStepView::Ask(ReservedDbRequestView::RemoveOpponentAnswer(name)),
                ),
                ReservedDbReplyView::Flag(false) => respond(ReservedRoomResponseView::BadRequest),
                _ => unexpected,
            },
            ReservedFlowView::DeletingAnswer => match reply {
                ReservedDbReplyView::Answer(_) => respond(ReservedRoomResponseView::DeleteNoContent),
                _ => unexpected,
            },
            ReservedFlowView::Answering => match reply {
                ReservedDbReplyView::Put(PutOutcomeView::Written) => respond(ReservedRoomResponseView::AnswerOk),
                ReservedDbReplyView::Put(PutOutcomeView::Conflict) => respond(ReservedRoomResponseView::AnswerConflict),
                ReservedDbReplyView::Put(PutOutcomeView::Failed(e)) => (ReservedFlowView::Finished, ReservedStepView::Fail(e)),
                _ => unexpected,
            },
            ReservedFlowView::Finished => unexpected,
        },
    }
}

/// The entry of a new room: its name, key and opponent offer, no spectator
/// offer, alive until `ttl`.
pub open spec fn new_room_view(name: Seq<char>, key: Seq<char>, offer: Seq<char>, ttl: u64) -> ReservedRoomView {
    ReservedRoomView { name, key, opponent_offer_sdp: Some(offer), spectator_offer_sdp: None, ttl_sec: ttl }
}

/// Opening a room: its entry is made from the name, the key, the offer and
/// the time; first the name is looked up.
pub fn start_put_room(name: String, key: String, offer: String, now: u64) -> (r: (ReservedRoomFlow, ReservedStep))
    requires
        now + OFFER_TTL_DURATION_SEC <= u64::MAX,
    ensures
        reserved_flow_view(r.0) == (ReservedFlowView::PutFinding {
            room: new_room_view(name@, key@, offer@, (now + OFFER_TTL_DURATION_SEC) as u64),
            retry: 0,
            now,
        }),
        reserved_step_view(r.1) == ReservedStepView::Ask(ReservedDbRequestView::FindRoom(name@)),
{
    let room = ReservedRoom::new(name.clone(), key, Some(offer), None, ttl_sec(now));
    (ReservedRoomFlow::PutFinding { room, retry: 0, now }, ReservedStep::Ask(ReservedDbRequest::FindRoom(name)))
}

fn reserved_clock_error() -> (r: (ReservedRoomFlow, ReservedStep))
    ensures
        reserved_flow_view(r.0) == ReservedFlowView::Finished,
        reserved_step_view(r.1) == ReservedStepView::Fail(clock_out_of_range()),
{
    let msg = "clock out of range";
    proof {
        reveal_strlit("clock out of range");
    }
    let m = msg.to_string();
    assert(m@ =~= clock_out_of_range());
    (ReservedRoomFlow::Finished, ReservedStep::Fail(m))
}

/// Opening a room at the current time with a fresh key (see
/// `start_put_room`); fails when the clock reads before the epoch or
/// beyond any expiry time.
pub fn put_room(name: String, offer: String) -> (r: (ReservedRoomFlow, ReservedStep))
    ensures
        reserved_step_view(r.1) == ReservedStepView::Fail(clock_out_of_range()) && reserved_flow_view(r.0)
            == ReservedFlowView::Finished || reserved_step_view(r.1) == ReservedStepView::Ask(
            ReservedDbRequestView::FindRoom(name@),
        ) && (reserved_flow_view(r.0) matches ReservedFlowView::PutFinding { room, retry, now } && room == new_room_view(
            name@,
            room.key,
            offer@,
            (now + OFFER_TTL_DURATION_SEC) as u64,
        ) && room.key.len() == 36 && is_uuid(room.key) && retry == 0),
{
    let now = match now_sec() {
        Some(t) if t <= u64::MAX - OFFER_TTL_DURATION_SEC => t,
        _ => return reserved_clock_error(),
    };
    let key = new_room_key();
    start_put_room(name, key, offer, now)
}

/// Reading a room at `now`: first the name is looked up.
pub fn start_get_room(name: String, now: u64) -> (r: (ReservedRoomFlow, ReservedStep))
    ensures
        reserved_flow_view(r.0) == (ReservedFlowView::GetFinding { now }),
        reserved_step_view(r.1) == ReservedStepView::Ask(ReservedDbRequestView::FindRoom(name@)),
{
    (ReservedRoomFlow::GetFinding { now }, ReservedStep::Ask(ReservedDbRequest::FindRoom(name)))
}

/// Reading a room at the current time (see `start_get_room`).
pub fn get_room(name: String) -> (r: (ReservedRoomFlow, ReservedStep))
    ensures
        reserved_flow_view(r.0) is GetFinding && reserved_step_view(r.1) == ReservedStepView::Ask(
            ReservedDbRequestView::FindRoom(name@),
        ) || reserved_flow_view(r.0) == ReservedFlowView::Finished && reserved_step_view(r.1) == ReservedStepView::Fail(
            clock_out_of_range(),
        ),
{
    match now_sec() {
        Some(now) => start_get_room(name, now),
        None => reserved_clock_error(),
    }
}

/// Closing a room: only with its key.
pub fn delete_room(name: String, key: String) -> (r: (ReservedRoomFlow, ReservedStep))
    ensures
        reserved_flow_view(r.0) == (ReservedFlowView::Deleting { name: name@ }),
        reserved_step_view(r.1) == ReservedStepView::Ask(ReservedDbRequestView::RemoveRoom(name@, Some(key@))),
{
    (ReservedRoomFlow::Deleting { name: name.clone() }, ReservedStep::Ask(ReservedDbRequest::RemoveRoom(name, Some(key))))
}

/// Keeping a room open: a key that is no UUID is refused at once;
/// otherwise the room of that name and key lives on from `now`, with the
/// spectator offer set when one is given.
pub fn start_post_room_keep(
    name: String,
    key: String,
    spectator_offer: Option<String>,
    key_is_uuid: bool,
    now: u64,
) -> (r: (ReservedRoomFlow, ReservedStep))
    requires
        now + OFFER_TTL_DURATION_SEC <= u64::MAX,
    ensures
        !key_is_uuid ==> reserved_flow_view(r.0) == ReservedFlowView::Finished && reserved_step_view(r.1)
            == ReservedStepView::Respond(ReservedRoomResponseView::BadRequest),
        key_is_uuid ==> reserved_flow_view(r.0) == (ReservedFlowView::Keeping { name: name@ }) && reserved_step_view(r.1)
            == ReservedStepView::Ask(
            ReservedDbRequestView::KeepRoom(name@, key@, opt_str(spectator_offer), (now + OFFER_TTL_DURATION_SEC) as u64),
        ),
{
    if !key_is_uuid {
        return (ReservedRoomFlow::Finished, ReservedStep::Respond(ReservedRoomResponse::BadRequest));
    }
    (
        ReservedRoomFlow::Keeping { name: name.clone() },
        ReservedStep::Ask(ReservedDbRequest::KeepRoom(name, key, spectator_offer, ttl_sec(now))),
    )
}

/// Keeping a room open at the current time (see `start_post_room_keep`).
pub fn post_room_keep(name: String, key: String, spectator_offer: Option<String>) -> (r: (ReservedRoomFlow, ReservedStep))
    ensures
        !is_uuid(key@) ==> reserved_flow_view(r.0) == ReservedFlowView::Finished && reserved_step_view(r.1)
            == ReservedStepView::Respond(ReservedRoomResponseView::BadRequest),
        is_uuid(key@) ==> reserved_step_view(r.1) == ReservedStepView::Fail(clock_out_of_range()) || (reserved_flow_view(
            r.0,
        ) == (ReservedFlowView::Keeping { name: name@ }) && (reserved_step_view(r.1) matches ReservedStepView::Ask(
            ReservedDbRequestView::KeepRoom(n, k, o, _),
        ) && n == name@ && k == key@ && o == opt_str(spectator_offer))),
{
    let ok = parses_as_uuid(key.as_str());
    if !ok {
        return (ReservedRoomFlow::Finished, ReservedStep::Respond(ReservedRoomResponse::BadRequest));
    }
    let now = match now_sec() {
        Some(t) if t <= u64::MAX - OFFER_TTL_DURATION_SEC => t,
        _ => return reserved_clock_error(),
    };
    start_post_room_keep(name, key, spectator_offer, ok, now)
}

/// Answering a room's opponent offer: the answer lives from `now`.
pub fn start_post_room_join(name: String, answer: String, now: u64) -> (r: (ReservedRoomFlow, ReservedStep))
    requires
        now + OFFER_TTL_DURATION_SEC <= u64::MAX,
    ensures
        reserved_flow_view(r.0) == ReservedFlowView::Answering,
        reserved_step_view(r.1) == ReservedStepView::Ask(
            ReservedDbRequestView::PutOpponentAnswer(
                AnswerView { name: name@, sdp: answer@, ttl_sec: (now + OFFER_TTL_DURATION_SEC) as u64 },
            ),
        ),
{
    (ReservedRoomFlow::Answering, ReservedStep::Ask(ReservedDbRequest::PutOpponentAnswer(Answer::new(name, answer, ttl_sec(now)))))
}

/// Answering a room's opponent offer at the current time.
pub fn post_room_join(name: String, answer: String) -> (r: (ReservedRoomFlow, ReservedStep))
    ensures
        reserved_step_view(r.1) == ReservedStepView::Fail(clock_out_of_range()) && reserved_flow_view(r.0)
            == ReservedFlowView::Finished || (reserved_flow_view(r.0) == ReservedFlowView::Answering && (reserved_step_view(
            r.1,
        ) matches ReservedStepView::Ask(ReservedDbRequestView::PutOpponentAnswer(a)) && a.name == name@ && a.sdp
            == answer@)),
{
    let now = match now_sec() {
        Some(t) if t <= u64::MAX - OFFER_TTL_DURATION_SEC => t,
        _ => return reserved_clock_error(),
    };
    start_post_room_join(name, answer, now)
}

/// Answering a room's spectator offer: the answer lives from `now`.
pub fn start_post_room_spectate(name: String, answer: String, now: u64) -> (r: (ReservedRoomFlow, ReservedStep))
    requires
        now + OFFER_TTL_DURATION_SEC <= u64::MAX,
    ensures
        reserved_flow_view(r.0) == ReservedFlowView::Answering,
        reserved_step_view(r.1) == ReservedStepView::Ask(
            ReservedDbRequestView::PutSpectatorAnswer(
                AnswerView { name: name@, sdp: answer@, ttl_sec: (now + OFFER_TTL_DURATION_SEC) as u64 },
            ),
        ),
{
    (ReservedRoomFlow::Answering, ReservedStep::Ask(ReservedDbRequest::PutSpectatorAnswer(Answer::new(name, answer, ttl_sec(now)))))
}

/// Answering a room's spectator offer at the current time.
pub fn post_room_spectate(name: String, answer: String) -> (r: (ReservedRoomFlow, ReservedStep))
    ensures
        reserved_step_view(r.1) == ReservedStepView::Fail(clock_out_of_range()) && reserved_flow_view(r.0)
            == ReservedFlowView::Finished || (reserved_flow_view(r.0) == ReservedFlowView::Answering && (reserved_step_view(
            r.1,
        ) matches ReservedStepView::Ask(ReservedDbRequestView::PutSpectatorAnswer(a)) && a.name == name@ && a.sdp
            == answer@)),
{
    let now = match now_sec() {
        Some(t) if t <= u64::MAX - OFFER_TTL_DURATION_SEC => t,
        _ => return reserved_clock_error(),
    };
    start_post_room_spectate(name, answer, now)
}

/// The removal of an expired room, in code (see `clear_next`).
fn clear_step(stage: ClearStage, expired: &String, reply: &ReservedDbReply) -> (r: Option<Option<(ClearStage, ReservedDbRequest)>>)
    ensures
        match (r, clear_next(stage, expired@, reserved_reply_view(*reply))) {
            (Some(Some((s, q))), Some(Some((s2, q2)))) => s == s2 && reserved_request_view(q) == q2,
            (Some(None), Some(None)) => true,
            (None, None) => true,
            _ => false,
        },
{
    match (stage, reply) {
        (ClearStage::Room, ReservedDbReply::Flag(_)) => Some(
            Some((ClearStage::OpponentAnswer, ReservedDbRequest::RemoveOpponentAnswer(expired.clone()))),
        ),
        (ClearStage::OpponentAnswer, ReservedDbReply::Answer(_)) => Some(
            Some((ClearStage::SpectatorAnswer, ReservedDbRequest::RemoveSpectatorAnswer(expired.clone()))),
        ),
        (ClearStage::SpectatorAnswer, ReservedDbReply::Answer(_)) => Some(None),
        _ => None,
    }
}

impl ReservedRoomFlow {
    /// Takes the tables' reply to the last request; returns what to do next
    /// (see `reserved_flow_next`). A third conflicting write of a new room
    /// has no next step: the caller gives up, as on a broken table.
    pub fn on_reply(&mut self, reply: ReservedDbReply) -> (r: ReservedStep)
        requires
            !(reserved_flow_view(*old(self)) matches ReservedFlowView::PutPutting { retry, .. } && retry >= 2
                && reserved_reply_view(reply) == ReservedDbReplyView::Put(PutOutcomeView::Conflict)),
        ensures
            (reserved_flow_view(*final(self)), reserved_step_view(r)) == reserved_flow_next(
                reserved_flow_view(*old(self)),
                reserved_reply_view(reply),
            ),
    {
        let mut state = ReservedRoomFlow::Finished;
        std::mem::swap(&mut state, self);
        if let ReservedDbReply::Failed(e) = reply {
            return ReservedStep::Fail(e);
        }
        let unexpected = "unexpected reply";
        proof {
            reveal_strlit("unexpected reply");
            assert(unexpected@ =~= unexpected_reply());
        }
        match state {
            ReservedRoomFlow::PutFinding { room, retry, now } => match reply {
                ReservedDbReply::Room(None) => {
                    let p = room.duplicate();
                    *self = ReservedRoomFlow::PutPutting { room, retry, now };
                    ReservedStep::Ask(ReservedDbRequest::PutRoom(p))
                },
                ReservedDbReply::Room(Some(found)) => {
                    if found.is_expired(now) {
                        let expired = found.name().clone();
                        *self = ReservedRoomFlow::PutClearing {
                            room,
                            retry,
                            now,
                            expired: expired.clone(),
                            stage: ClearStage::Room,
                        };
                        ReservedStep::Ask(ReservedDbRequest::RemoveRoom(expired, None))
                    } else {
                        ReservedStep::Respond(ReservedRoomResponse::Conflict(found.into_opponent_offer_sdp()))
                    }
                },
                _ => ReservedStep::Fail(unexpected.to_string()),
            },
            ReservedRoomFlow::PutClearing { room, retry, now, expired, stage } => match clear_step(stage, &expired, &reply) {
                Some(Some((next, q))) => {
                    *self = ReservedRoomFlow::PutClearing { room, retry, now, expired, stage: next };
                    ReservedStep::Ask(q)
                },
                Some(None) => {
                    let p = room.duplicate();
                    *self = ReservedRoomFlow::PutPutting { room, retry, now };
                    ReservedStep::Ask(ReservedDbRequest::PutRoom(p))
                },
                None => ReservedStep::Fail(unexpected.to_string()),
            },
            ReservedRoomFlow::PutPutting { room, retry, now } => match reply {
                ReservedDbReply::Put(PutOutcome::Written) => {
                    let name = room.name().clone();
                    *self = ReservedRoomFlow::OpponentFinding {
                        name: name.clone(),
                        key: room.key().clone(),
                        target: GuestFor::Put,
                    };
                    ReservedStep::Ask(ReservedDbRequest::RemoveOpponentAnswer(name))
                },
                ReservedDbReply::Put(PutOutcome::Conflict) => {
                    let name = room.name().clone();
                    *self = ReservedRoomFlow::PutFinding { room, retry: retry + 1, now };
                    ReservedStep::Ask(ReservedDbRequest::FindRoom(name))
                },
                ReservedDbReply::Put(PutOutcome::Failed(e)) => ReservedStep::Fail(e),
                _ => ReservedStep::Fail(unexpected.to_string()),
            },
            ReservedRoomFlow::GetFinding { now } => match reply {
                ReservedDbReply::Room(None) => ReservedStep::Respond(ReservedRoomResponse::NotFound),
                ReservedDbReply::Room(Some(found)) => {
                    if found.is_expired(now) {
                        let expired = found.name().clone();
                        *self = ReservedRoomFlow::GetClearing { expired: expired.clone(), stage: ClearStage::Room };
                        ReservedStep::Ask(ReservedDbRequest::RemoveRoom(expired, None))
                    } else {
                        let (o, s) = found.into_opponent_offer_sdp_spectator_offer_sdp();
                        ReservedStep::Respond(ReservedRoomResponse::Found(o, s))
                    }
                },
                _ => ReservedStep::Fail(unexpected.to_string()),
            },
            ReservedRoomFlow::GetClearing { expired, stage } => match clear_step(stage, &expired, &reply) {
                Some(Some((next, q))) => {
                    *self = ReservedRoomFlow::GetClearing { expired, stage: next };
                    ReservedStep::Ask(q)
                },
                Some(None) => ReservedStep::Respond(ReservedRoomResponse::NotFound),
                None => ReservedStep::Fail(unexpected.to_string()),
            },
            ReservedRoomFlow::OpponentFinding { name, key, target } => match reply {
                ReservedDbReply::Answer(None) => ReservedStep::Respond(
                    match target {
                        GuestFor::Put => ReservedRoomResponse::CreatedWithKey(key),
                        GuestFor::Keep => ReservedRoomResponse::KeepNoContent,
                    },
                ),
                ReservedDbReply::Answer(Some(a)) => {
                    *self = ReservedRoomFlow::OpponentOfferRemoving { answer: a.into_sdp(), target };
                    ReservedStep::Ask(ReservedDbRequest::RemoveOpponentOffer(name))
                },
                _ => ReservedStep::Fail(unexpected.to_string()),
            },
            ReservedRoomFlow::OpponentOfferRemoving { answer, target } => match reply {
                ReservedDbReply::Flag(_) => ReservedStep::Respond(
                    match target {
                        GuestFor::Put => ReservedRoomResponse::CreatedWithAnswer(answer),
                        GuestFor::Keep => ReservedRoomResponse::KeepOpponentAnswer(answer),
                    },
                ),
                _ => ReservedStep::Fail(unexpected.to_string()),
            },
            ReservedRoomFlow::SpectatorFinding { name } => match reply {
                ReservedDbReply::Answer(None) => ReservedStep::Respond(ReservedRoomResponse::KeepNoContent),
                ReservedDbReply::Answer(Some(a)) => {
                    *self = ReservedRoomFlow::SpectatorOfferRemoving { answer: a.into_sdp() };
                    ReservedStep::Ask(ReservedDbRequest::RemoveSpectatorOffer(name))
                },
                _ => ReservedStep::Fail(unexpected.to_string()),
            },
            ReservedRoomFlow::SpectatorOfferRemoving { answer } => match reply {
                ReservedDbReply::Flag(_) => ReservedStep::Respond(ReservedRoomResponse::KeepSpectatorAnswer(answer)),
                _ => ReservedStep::Fail(unexpected.to_string()),
            },
            ReservedRoomFlow::Keeping { name } => match reply {
                ReservedDbReply::Room(None) => ReservedStep::Respond(ReservedRoomResponse::BadRequest),
                ReservedDbReply::Room(Some(kept)) => {
                    if kept.opponent_offer_sdp().is_some() {
                        *self = ReservedRoomFlow::OpponentFinding {
                            name: name.clone(),
                            key: String::new(),
                            target: GuestFor::Keep,
                        };
                        ReservedStep::Ask(ReservedDbRequest::RemoveOpponentAnswer(name))
                    } else if kept.spectator_offer_sdp().is_some() {
                        *self = ReservedRoomFlow::SpectatorFinding { name: name.clone() };
                        ReservedStep::Ask(ReservedDbRequest::RemoveSpectatorAnswer(name))
                    } else {
                        ReservedStep::Respond(ReservedRoomResponse::KeepNoContent)
                    }
                },
                _ => ReservedStep::Fail(unexpected.to_string()),
            },
            ReservedRoomFlow::Deleting { name } => match reply {
                ReservedDbReply::Flag(removed) => {
                    if removed {
                        *self = ReservedRoomFlow::DeletingAnswer;
                        ReservedStep::Ask(ReservedDbRequest::RemoveOpponentAnswer(name))
                    } else {
                        ReservedStep::Respond(ReservedRoomResponse::BadRequest)
                    }
                },
                _ => ReservedStep::Fail(unexpected.to_string()),
            },
            ReservedRoomFlow::DeletingAnswer => match reply {
                ReservedDbReply::Answer(_) => ReservedStep::Respond(ReservedRoomResponse::DeleteNoContent),
                _ => ReservedStep::Fail(unexpected.to_string()),
            },
            ReservedRoomFlow::Answering => match reply {
                ReservedDbReply::Put(PutOutcome::Written) => ReservedStep::Respond(ReservedRoomResponse::AnswerOk),
                ReservedDbReply::Put(PutOutcome::Conflict) => ReservedStep::Respond(ReservedRoomResponse::AnswerConflict),
                ReservedDbReply::Put(PutOutcome::Failed(e)) => ReservedStep::Fail(e),
                _ => ReservedStep::Fail(unexpected.to_string()),
            },
            ReservedRoomFlow::Finished => ReservedStep::Fail(unexpected.to_string()),
        }
    }
}

// Laws of the reserved-room requests.

/// An expired room is never handed out: reading it removes the room, then
/// the opponent's answer, then the spectator's answer, whatever the tables
/// reply to these removals, and then finds nothing.
pub proof fn law_expired_room_is_cleared(
    found: ReservedRoomView,
    now: u64,
    removed: bool,
    opponent_answer: Option<AnswerView>,
    spectator_answer: Option<AnswerView>,
)
    requires
        now > found.ttl_sec,
    ensures
        ({
            let (s1, q1) = reserved_flow_next(ReservedFlowView::GetFinding { now }, ReservedDbReplyView::Room(Some(found)));
            let (s2, q2) = reserved_flow_next(s1, ReservedDbReplyView::Flag(removed));
            let (s3, q3) = reserved_flow_next(s2, ReservedDbReplyView::Answer(opponent_answer));
            let (s4, q4) = reserved_flow_next(s3, ReservedDbReplyView::Answer(spectator_answer));
            &&& q1 == ReservedStepView::Ask(ReservedDbRequestView::RemoveRoom(found.name, None))
            &&& q2 == ReservedStepView::Ask(ReservedDbRequestView::RemoveOpponentAnswer(found.name))
            &&& q3 == ReservedStepView::Ask(ReservedDbRequestView::RemoveSpectatorAnswer(found.name))
            &&& q4 == ReservedStepView::Respond(ReservedRoomResponseView::NotFound)
            &&& s4 == ReservedFlowView::Finished
        }),
{
}

/// A live room of the name is never overwritten: opening it again, at any
/// retry, answers a conflict with the live room's opponent offer, and
/// reading it gives both of its offers.
pub proof fn law_live_reserved_room_is_kept(room: ReservedRoomView, retry: u32, now: u64, found: ReservedRoomView)
    requires
        now <= found.ttl_sec,
    ensures
        reserved_flow_next(
            ReservedFlowView::PutFinding { room, retry, now },
            ReservedDbReplyView::Room(Some(found)),
        ) == (ReservedFlowView::Finished, ReservedStepView::Respond(
            ReservedRoomResponseView::Conflict(found.opponent_offer_sdp),
        )),
        reserved_flow_next(ReservedFlowView::GetFinding { now }, ReservedDbReplyView::Room(Some(found))) == (
            ReservedFlowView::Finished,
            ReservedStepView::Respond(
                ReservedRoomResponseView::Found(found.opponent_offer_sdp, found.spectator_offer_sdp),
            ),
        ),
{
}

/// An opponent's answer reaches the host once: when a kept room awaits an
/// opponent, the answer is taken out of its table, the room's opponent
/// offer is cleared, and only then is the answer handed over.
pub proof fn law_answer_is_handed_over_once(name: Seq<char>, kept: ReservedRoomView, answer: AnswerView, cleared: bool)
    requires
        kept.opponent_offer_sdp is Some,
    ensures
        ({
            let (s1, q1) = reserved_flow_next(ReservedFlowView::Keeping { name }, ReservedDbReplyView::Room(Some(kept)));
            let (s2, q2) = reserved_flow_next(s1, ReservedDbReplyView::Answer(Some(answer)));
            let (s3, q3) = reserved_flow_next(s2, ReservedDbReplyView::Flag(cleared));
            &&& q1 == ReservedStepView::Ask(ReservedDbRequestView::RemoveOpponentAnswer(name))
            &&& q2 == ReservedStepView::Ask(ReservedDbRequestView::RemoveOpponentOffer(name))
            &&& q3 == ReservedStepView::Respond(ReservedRoomResponseView::KeepOpponentAnswer(answer.sdp))
            &&& s3 == ReservedFlowView::Finished
        }),
{
}
} // verus!
