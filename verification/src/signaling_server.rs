use vstd::prelude::*;
use crate::room_utils::{now_sec, ttl_sec, OFFER_TTL_DURATION_SEC, RETRY_AFTER_INTERVAL_SEC};

verus! {

// Records of the shared-room tables.

/// A shared room: the host's offer, waiting for a guest.
#[derive(Clone, Debug)]
pub struct SharedRoom {
    name: String,
    key: String,
    sdp: String,
    ttl_sec: u64,
}

/// `SharedRoom` as values.
pub struct SharedRoomView {
    pub name: Seq<char>,
    /// Proves that a request comes from the room's owner.
    pub key: Seq<char>,
    pub sdp: Seq<char>,
    pub ttl_sec: u64,
}

impl View for SharedRoom {
    type V = SharedRoomView;

    closed spec fn view(&self) -> SharedRoomView {
        SharedRoomView { name: self.name@, key: self.key@, sdp: self.sdp@, ttl_sec: self.ttl_sec }
    }
}

impl SharedRoom {
    pub fn new(name: String, key: String, sdp: String, ttl_sec: u64) -> (r: SharedRoom)
        ensures
            r@ == (SharedRoomView { name: name@, key: key@, sdp: sdp@, ttl_sec }),
    {
        SharedRoom { name, key, sdp, ttl_sec }
    }

    pub fn name(&self) -> (r: &String)
        ensures
            r@ == self@.name,
    {
        &self.name
    }

    pub fn key(&self) -> (r: &String)
        ensures
            r@ == self@.key,
    {
        &self.key
    }

    pub fn sdp(&self) -> (r: &String)
        ensures
            r@ == self@.sdp,
    {
        &self.sdp
    }

    /// The second after which the room is gone.
    pub fn ttl_sec(&self) -> (r: u64)
        ensures
            r == self@.ttl_sec,
    {
        self.ttl_sec
    }

    /// The host's offer.
    pub fn into_sdp(self) -> (r: String)
        ensures
            r@ == self@.sdp,
    {
        self.sdp
    }

    /// A copy.
    pub fn duplicate(&self) -> (r: SharedRoom)
        ensures
            r@ == self@,
    {
        SharedRoom { name: self.name.clone(), key: self.key.clone(), sdp: self.sdp.clone(), ttl_sec: self.ttl_sec }
    }

    /// Whether the room is gone at `now_sec`.
    pub fn is_expired(&self, now_sec: u64) -> (r: bool)
        ensures
            r == (now_sec > self@.ttl_sec),
    {
        now_sec > self.ttl_sec
    }
}

/// A guest's answer to the offer of a room.
#[derive(Clone, Debug)]
pub struct Answer {
    name: String,
    sdp: String,
    ttl_sec: u64,
}

/// `Answer` as values.
pub struct AnswerView {
    pub name: Seq<char>,
    pub sdp: Seq<char>,
    pub ttl_sec: u64,
}

impl View for Answer {
    type V = AnswerView;

    closed spec fn view(&self) -> AnswerView {
        AnswerView { name: self.name@, sdp: self.sdp@, ttl_sec: self.ttl_sec }
    }
}

impl Answer {
    pub fn new(name: String, sdp: String, ttl_sec: u64) -> (r: Answer)
        ensures
            r@ == (AnswerView { name: name@, sdp: sdp@, ttl_sec }),
    {
        Answer { name, sdp, ttl_sec }
    }

    pub fn name(&self) -> (r: &String)
        ensures
            r@ == self@.name,
    {
        &self.name
    }

    pub fn sdp(&self) -> (r: &String)
        ensures
            r@ == self@.sdp,
    {
        &self.sdp
    }

    /// The guest's answer.
    pub fn into_sdp(self) -> (r: String)
        ensures
            r@ == self@.sdp,
    {
        self.sdp
    }
}

/// Why a write to a table failed.
#[derive(Debug)]
pub enum PutError {
    /// An entry with that name exists.
    Conflict,
    /// Anything else, with its message.
    Unknown(String),
}

// Routing.

/// Where a request to the signaling server goes: the rest of the path
/// under "/custom/", if it is under it (the rest answers 404).
pub open spec fn custom_path(path: Seq<char>) -> Option<Seq<char>> {
    let prefix = seq!['/', 'c', 'u', 's', 't', 'o', 'm', '/'];
    if path.len() >= prefix.len() && path.take(prefix.len() as int) == prefix {
        Some(path.skip(prefix.len() as int))
    } else {
        None
    }
}

/// The part of a request's path under "/custom/", if any.
pub fn routes(path: &str) -> (r: Option<String>)
    ensures
        match r {
            Some(s) => custom_path(path@) == Some(s@),
            None => custom_path(path@) is None,
        },
{
    let prefix = "/custom/";
    proof {
        reveal_strlit("/custom/");
    }
    let n = path.unicode_len();
    if n < 8 {
        return None;
    }
    let mut i: usize = 0;
    while i < 8
        invariant
            i <= 8,
            n == path@.len(),
            n >= 8,
            prefix@ == seq!['/', 'c', 'u', 's', 't', 'o', 'm', '/'],
            forall|j: int| 0 <= j < i ==> path@[j] == prefix@[j],
        decreases 8 - i,
    {
        if path.get_char(i) != prefix.get_char(i) {
            proof {
                assert(path@.take(8)[i as int] != prefix@[i as int]);
            }
            return None;
        }
        i = i + 1;
    }
    assert(path@.take(8) =~= prefix@);
    let rest = path.substring_char(8, n);
    proof {
        assert(rest@ =~= path@.skip(8));
    }
    Some(rest.to_string())
}

/// The HTTP methods the server tells apart.
#[derive(Clone, Copy, Debug, PartialEq, Eq, Structural)]
pub enum HttpMethod {
    Get,
    Put,
    Post,
    Delete,
    Other,
}

/// What a path under "/custom/" names: a room ("{name}"), the join or keep
/// request of a room ("{name}/join", "{name}/keep"), or nothing. A name is
/// not empty and has no slash.
pub enum RouteTarget {
    Room(Seq<char>),
    Join(Seq<char>),
    Keep(Seq<char>),
    NotFound,
}

/// A room name: not empty, without a slash.
pub open spec fn is_name(s: Seq<char>) -> bool {
    s.len() > 0 && !s.contains('/')
}

/// `s` is `name` followed by `suffix`, with a room name.
pub open spec fn named_with_suffix(s: Seq<char>, suffix: Seq<char>) -> bool {
    s.len() > suffix.len() && s.skip(s.len() - suffix.len()) == suffix && is_name(s.take(s.len() - suffix.len()))
}

/// The target of a path under "/custom/".
pub open spec fn route_target(s: Seq<char>) -> RouteTarget {
    let join = seq!['/', 'j', 'o', 'i', 'n'];
    let keep = seq!['/', 'k', 'e', 'e', 'p'];
    if is_name(s) {
        RouteTarget::Room(s)
    } else if named_with_suffix(s, join) {
        RouteTarget::Join(s.take(s.len() - 5))
    } else if named_with_suffix(s, keep) {
        RouteTarget::Keep(s.take(s.len() - 5))
    } else {
        RouteTarget::NotFound
    }
}

/// What the server does with a request to a shared room.
#[derive(Debug)]
pub enum Endpoint {
    /// Open the room (the body holds the offer).
    PutRoom(String),
    /// Close the room (the body holds its key).
    DeleteRoom(String),
    /// Answer the room's offer (the body holds the answer).
    PostRoomJoin(String),
    /// Keep the room open (the body holds its key).
    PostRoomKeep(String),
    /// 405.
    MethodNotAllowed,
    /// 404.
    NotFound,
}

/// `Endpoint` as values.
pub enum EndpointView {
    PutRoom(Seq<char>),
    DeleteRoom(Seq<char>),
    PostRoomJoin(Seq<char>),
    PostRoomKeep(Seq<char>),
    MethodNotAllowed,
    NotFound,
}

/// The value of an endpoint.
pub open spec fn endpoint_view(e: Endpoint) -> EndpointView {
    match e {
        Endpoint::PutRoom(n) => EndpointView::PutRoom(n@),
        Endpoint::DeleteRoom(n) => EndpointView::DeleteRoom(n@),
        Endpoint::PostRoomJoin(n) => EndpointView::PostRoomJoin(n@),
        Endpoint::PostRoomKeep(n) => EndpointView::PostRoomKeep(n@),
        Endpoint::MethodNotAllowed => EndpointView::MethodNotAllowed,
        Endpoint::NotFound => EndpointView::NotFound,
    }
}

/// Where a request goes: a room takes PUT and DELETE, its join and keep
/// requests take POST; other methods are not allowed, other paths not found.
pub open spec fn route_spec(s: Seq<char>, method: HttpMethod) -> EndpointView {
    match route_target(s) {
        RouteTarget::Room(n) => match method {
            HttpMethod::Put => EndpointView::PutRoom(n),
            HttpMethod::Delete => EndpointView::DeleteRoom(n),
            _ => EndpointView::MethodNotAllowed,
        },
        RouteTarget::Join(n) => if method == HttpMethod::Post {
            EndpointView::PostRoomJoin(n)
        } else {
            EndpointView::MethodNotAllowed
        },
        RouteTarget::Keep(n) => if method == HttpMethod::Post {
            EndpointView::PostRoomKeep(n)
        } else {
            EndpointView::MethodNotAllowed
        },
        RouteTarget::NotFound => EndpointView::NotFound,
    }
}

/// The index of the first slash, if any.
pub(crate) fn find_slash(s: &str) -> (r: Option<usize>)
    ensures
        match r {
            Some(i) => i < s@.len() && s@[i as int] == '/' && !s@.take(i as int).contains('/'),
            None => !s@.contains('/'),
        },
{
    let n = s.unicode_len();
    let mut i: usize = 0;
    while i < n
        invariant
            n == s@.len(),
            i <= n,
            forall|j: int| 0 <= j < i ==> s@[j] != '/',
        decreases n - i,
    {
        if s.get_char(i) == '/' {
            proof {
                assert forall|j: int| 0 <= j < s@.take(i as int).len() implies s@.take(i as int)[j] != '/' by {}
            }
            return Some(i);
        }
        i = i + 1;
    }
    None
}

/// Whether `s` from `start` on is `suffix`.
pub(crate) fn ends_with_at(s: &str, start: usize, suffix: &str) -> (r: bool)
    requires
        start <= s@.len(),
    ensures
        r == (s@.skip(start as int) == suffix@),
{
    let n = s.unicode_len();
    let m = suffix.unicode_len();
    if n - start != m {
        proof {
            assert(s@.skip(start as int).len() != suffix@.len());
        }
        return false;
    }
    let mut i: usize = 0;
    while i < m
        invariant
            n == s@.len(),
            m == suffix@.len(),
            start + m == n,
            i <= m,
            forall|j: int| 0 <= j < i ==> s@[start + j] == suffix@[j],
        decreases m - i,
    {
        if s.get_char(start + i) != suffix.get_char(i) {
            proof {
                assert(s@.skip(start as int)[i as int] != suffix@[i as int]);
            }
            return false;
        }
        i = i + 1;
    }
    assert(s@.skip(start as int) =~= suffix@);
    true
}

/// With its first slash at `i`, and not where a five-character suffix
/// would start after a name, `s` is no name followed by that suffix.
proof fn lemma_no_suffix(s: Seq<char>, i: int, suffix: Seq<char>)
    requires
        0 <= i < s.len(),
        s[i] == '/',
        !s.take(i).contains('/'),
        i == 0 || s.len() - i != 5,
        suffix.len() == 5,
        suffix[0] == '/',
    ensures
        !named_with_suffix(s, suffix),
{
    if named_with_suffix(s, suffix) {
        let k = s.len() - 5;
        assert(s.skip(k)[0] == suffix[0]);
        assert(s[k] == '/');
        if i < k {
            assert(s.take(k)[i] == '/');
        } else if i > k {
            assert(s.take(i)[k] == '/');
        } else {
            assert(s.take(k).len() == 0);
        }
    }
}

/// Where a request under "/custom/" goes (see `route_spec`).
pub fn route(relative_uri: &str, method: HttpMethod) -> (r: Endpoint)
    ensures
        endpoint_view(r) == route_spec(relative_uri@, method),
{
    let s = relative_uri;
    let n = s.unicode_len();
    let join = "/join";
    let keep = "/keep";
    proof {
        reveal_strlit("/join");
        reveal_strlit("/keep");
        assert(join@ =~= seq!['/', 'j', 'o', 'i', 'n']);
        assert(keep@ =~= seq!['/', 'k', 'e', 'e', 'p']);
    }
    match find_slash(s) {
        None => {
            if n == 0 {
                return Endpoint::NotFound;
            }
            let name = s.to_string();
            match method {
                HttpMethod::Put => Endpoint::PutRoom(name),
                HttpMethod::Delete => Endpoint::DeleteRoom(name),
                _ => Endpoint::MethodNotAllowed,
            }
        },
        Some(i) => {
            proof {
                assert(s@.contains('/')) by {
                    assert(s@[i as int] == '/');
                }
            }
            if i == 0 || n - i != 5 {
                proof {
                    lemma_no_suffix(s@, i as int, join@);
                    lemma_no_suffix(s@, i as int, keep@);
                }
                return Endpoint::NotFound;
            }
            let name = s.substring_char(0, i).to_string();
            assert(name@ =~= s@.take(n - 5));
            if ends_with_at(s, i, join) {
                if method == HttpMethod::Post {
                    Endpoint::PostRoomJoin(name)
                } else {
                    Endpoint::MethodNotAllowed
                }
            } else if ends_with_at(s, i, keep) {
                if method == HttpMethod::Post {
                    Endpoint::PostRoomKeep(name)
                } else {
                    Endpoint::MethodNotAllowed
                }
            } else {
                Endpoint::NotFound
            }
        },
    }
}

// The shared-room requests, as exchanges with the tables.

/// The outcome of a write to a table.
#[derive(Debug)]
pub enum PutOutcome {
    Written,
    Conflict,
    Failed(String),
}

/// A request to the shared-room tables.
#[derive(Debug)]
pub enum DbRequest {
    /// The room of that name, if any.
    FindRoom(String),
    /// Remove the room of that name (only with that key, when one is given);
    /// replies whether one was removed.
    RemoveRoom(String, Option<String>),
    /// Remove and return the answer to the room of that name.
    RemoveAnswer(String),
    /// Write a room, unless one of its name exists.
    PutRoom(SharedRoom),
    /// Extend the life of the room of that name and key to that second;
    /// replies whether there was one.
    KeepRoom(String, String, u64),
    /// Write an answer, unless one to that room exists.
    PutAnswer(Answer),
}

/// A reply of the shared-room tables.
#[derive(Debug)]
pub enum DbReply {
    Room(Option<SharedRoom>),
    Flag(bool),
    Answer(Option<Answer>),
    Put(PutOutcome),
    /// The request failed, with this message.
    Failed(String),
}

/// The server's answer to a shared-room request. Answers that ask the
/// client to come back say so after `RETRY_AFTER_INTERVAL_SEC`.
#[derive(Debug)]
pub enum SharedRoomResponse {
    /// The room is open; the key proves ownership.
    CreatedWithKey(String),
    /// The room is open and a guest had already answered.
    CreatedWithAnswer(String),
    /// A room of that name is open; its offer.
    Conflict(String),
    /// The room is kept and a guest answered.
    KeepOk(String),
    /// The room is kept; no answer yet.
    KeepNoContent,
    /// The key is malformed or does not open the room.
    BadRequest,
    /// The room is closed.
    DeleteNoContent,
    /// The answer is stored.
    JoinOk,
    /// An answer to that room is already stored.
    JoinConflict,
}

/// What to do next in a shared-room request.
#[derive(Debug)]
pub enum FlowStep {
    /// Send this request to the tables and hand the reply to `on_reply`.
    Ask(DbRequest),
    /// Answer the client.
    Respond(SharedRoomResponse),
    /// Give up with this error.
    Fail(String),
}

/// For whom a guest's answer is looked up.
#[derive(Clone, Copy, Debug, PartialEq, Eq, Structural)]
pub enum GuestFor {
    Put,
    Keep,
}

/// Where a shared-room request stands: what was asked of the tables last.
#[derive(Debug)]
pub enum SharedRoomFlow {
    /// Opening `room`: looked the name up (`retry`: writes that conflicted).
    PutFinding { room: SharedRoom, retry: u32, now: u64 },
    /// Opening `room`: removing an expired room of that name.
    PutRemovingExpired { room: SharedRoom, retry: u32, now: u64, expired: String },
    /// Opening `room`: removing the answer to the expired room.
    PutRemovingExpiredAnswer { room: SharedRoom, retry: u32, now: u64 },
    /// Opening `room`: writing it.
    PutPutting { room: SharedRoom, retry: u32, now: u64 },
    /// Looking for a guest's answer to the room `name` (opened with `key`).
    GuestFinding { name: String, key: String, target: GuestFor },
    /// A guest answered `answer`: closing the room `name`.
    GuestRemovingRoom { name: String, answer: String, target: GuestFor },
    /// Keeping the room `name`.
    Keeping { name: String },
    /// Closing the room `name`.
    Deleting { name: String },
    /// Closed: removing the answer to it.
    DeletingAnswer { name: String },
    /// Storing an answer.
    Joining,
    /// Done.
    Finished,
}

/// `DbRequest` as values.
pub enum DbRequestView {
    FindRoom(Seq<char>),
    RemoveRoom(Seq<char>, Option<Seq<char>>),
    RemoveAnswer(Seq<char>),
    PutRoom(SharedRoomView),
    KeepRoom(Seq<char>, Seq<char>, u64),
    PutAnswer(AnswerView),
}

/// `PutOutcome` as values.
pub enum PutOutcomeView {
    Written,
    Conflict,
    Failed(Seq<char>),
}

/// `DbReply` as values.
pub enum DbReplyView {
    Room(Option<SharedRoomView>),
    Flag(bool),
    Answer(Option<AnswerView>),
    Put(PutOutcomeView),
    Failed(Seq<char>),
}

/// `SharedRoomResponse` as values.
pub enum SharedRoomResponseView {
    CreatedWithKey(Seq<char>),
    CreatedWithAnswer(Seq<char>),
    Conflict(Seq<char>),
    KeepOk(Seq<char>),
    KeepNoContent,
    BadRequest,
    DeleteNoContent,
    JoinOk,
    JoinConflict,
}

/// `FlowStep` as values.
pub enum FlowStepView {
    Ask(DbRequestView),
    Respond(SharedRoomResponseView),
    Fail(Seq<char>),
}

/// `SharedRoomFlow` as values.
pub enum FlowView {
    PutFinding { room: SharedRoomView, retry: u32, now: u64 },
    PutRemovingExpired { room: SharedRoomView, retry: u32, now: u64, expired: Seq<char> },
    PutRemovingExpiredAnswer { room: SharedRoomView, retry: u32, now: u64 },
    PutPutting { room: SharedRoomView, retry: u32, now: u64 },
    GuestFinding { name: Seq<char>, key: Seq<char>, target: GuestFor },
    GuestRemovingRoom { name: Seq<char>, answer: Seq<char>, target: GuestFor },
    Keeping { name: Seq<char> },
    Deleting { name: Seq<char> },
    DeletingAnswer { name: Seq<char> },
    Joining,
    Finished,
}

pub open spec fn opt_str(s: Option<String>) -> Option<Seq<char>> {
    match s {
        Some(x) => Some(x@),
        None => None,
    }
}

pub open spec fn request_view(q: DbRequest) -> DbRequestView {
    match q {
        DbRequest::FindRoom(n) => DbRequestView::FindRoom(n@),
        DbRequest::RemoveRoom(n, k) => DbRequestView::RemoveRoom(n@, opt_str(k)),
        DbRequest::RemoveAnswer(n) => DbRequestView::RemoveAnswer(n@),
        DbRequest::PutRoom(r) => DbRequestView::PutRoom(r@),
        DbRequest::KeepRoom(n, k, t) => DbRequestView::KeepRoom(n@, k@, t),
        DbRequest::PutAnswer(a) => DbRequestView::PutAnswer(a@),
    }
}

pub open spec fn reply_view(r: DbReply) -> DbReplyView {
    match r {
        DbReply::Room(x) => DbReplyView::Room(
            match x {
                Some(room) => Some(room@),
                None => None,
            },
        ),
        DbReply::Flag(b) => DbReplyView::Flag(b),
        DbReply::Answer(x) => DbReplyView::Answer(
            match x {
                Some(a) => Some(a@),
                None => None,
            },
        ),
        DbReply::Put(o) => DbReplyView::Put(
            match o {
                PutOutcome::Written => PutOutcomeView::Written,
                PutOutcome::Conflict => PutOutcomeView::Conflict,
                PutOutcome::Failed(e) => PutOutcomeView::Failed(e@),
            },
        ),
        DbReply::Failed(e) => DbReplyView::Failed(e@),
    }
}

pub open spec fn response_view(r: SharedRoomResponse) -> SharedRoomResponseView {
    match r {
        SharedRoomResponse::CreatedWithKey(k) => SharedRoomResponseView::CreatedWithKey(k@),
        SharedRoomResponse::CreatedWithAnswer(a) => SharedRoomResponseView::CreatedWithAnswer(a@),
        SharedRoomResponse::Conflict(o) => SharedRoomResponseView::Conflict(o@),
        SharedRoomResponse::KeepOk(a) => SharedRoomResponseView::KeepOk(a@),
        SharedRoomResponse::KeepNoContent => SharedRoomResponseView::KeepNoContent,
        SharedRoomResponse::BadRequest => SharedRoomResponseView::BadRequest,
        SharedRoomResponse::DeleteNoContent => SharedRoomResponseView::DeleteNoContent,
        SharedRoomResponse::JoinOk => SharedRoomResponseView::JoinOk,
        SharedRoomResponse::JoinConflict => SharedRoomResponseView::JoinConflict,
    }
}

pub open spec fn step_view(s: FlowStep) -> FlowStepView {
    match s {
        FlowStep::Ask(q) => FlowStepView::Ask(request_view(q)),
        FlowStep::Respond(r) => FlowStepView::Respond(response_view(r)),
        FlowStep::Fail(e) => FlowStepView::Fail(e@),
    }
}

pub open spec fn flow_view(f: SharedRoomFlow) -> FlowView {
    match f {
        SharedRoomFlow::PutFinding { room, retry, now } => FlowView::PutFinding { room: room@, retry, now },
        SharedRoomFlow::PutRemovingExpired { room, retry, now, expired } => FlowView::PutRemovingExpired {
            room: room@,
            retry,
            now,
            expired: expired@,
        },
        SharedRoomFlow::PutRemovingExpiredAnswer { room, retry, now } => FlowView::PutRemovingExpiredAnswer {
            room: room@,
            retry,
            now,
        },
        SharedRoomFlow::PutPutting { room, retry, now } => FlowView::PutPutting { room: room@, retry, now },
        SharedRoomFlow::GuestFinding { name, key, target } => FlowView::GuestFinding { name: name@, key: key@, target },
        SharedRoomFlow::GuestRemovingRoom { name, answer, target } => FlowView::GuestRemovingRoom {
            name: name@,
            answer: answer@,
            target,
        },
        SharedRoomFlow::Keeping { name } => FlowView::Keeping { name: name@ },
        SharedRoomFlow::Deleting { name } => FlowView::Deleting { name: name@ },
        SharedRoomFlow::DeletingAnswer { name } => FlowView::DeletingAnswer { name: name@ },
        SharedRoomFlow::Joining => FlowView::Joining,
        SharedRoomFlow::Finished => FlowView::Finished,
    }
}

/// The seconds after which an answer asks the client to come back: the
/// answers that leave it waiting (a room opened, a conflict, a room kept
/// without answer) carry `RETRY_AFTER_INTERVAL_SEC`, the others none.
pub open spec fn response_retry_after(r: SharedRoomResponseView) -> Option<u32> {
    match r {
        SharedRoomResponseView::CreatedWithKey(_) => Some(RETRY_AFTER_INTERVAL_SEC),
        SharedRoomResponseView::CreatedWithAnswer(_) => Some(RETRY_AFTER_INTERVAL_SEC),
        SharedRoomResponseView::Conflict(_) => Some(RETRY_AFTER_INTERVAL_SEC),
        SharedRoomResponseView::KeepNoContent => Some(RETRY_AFTER_INTERVAL_SEC),
        _ => None,
    }
}

impl SharedRoomResponse {
    /// The Retry-After seconds of the answer (see `response_retry_after`).
    pub fn retry_after(&self) -> (r: Option<u32>)
        ensures
            r == response_retry_after(response_view(*self)),
    {
        match self {
            SharedRoomResponse::CreatedWithKey(_) => Some(RETRY_AFTER_INTERVAL_SEC),
            SharedRoomResponse::CreatedWithAnswer(_) => Some(RETRY_AFTER_INTERVAL_SEC),
            SharedRoomResponse::Conflict(_) => Some(RETRY_AFTER_INTERVAL_SEC),
            SharedRoomResponse::KeepNoContent => Some(RETRY_AFTER_INTERVAL_SEC),
            _ => None,
        }
    }
}

/// The answer a guest lookup ends with.
pub open spec fn guest_response(target: GuestFor, key: Seq<char>, answer: Option<Seq<char>>) -> SharedRoomResponseView {
    match (target, answer) {
        (GuestFor::Put, None) => SharedRoomResponseView::CreatedWithKey(key),
        (GuestFor::Put, Some(a)) => SharedRoomResponseView::CreatedWithAnswer(a),
        (GuestFor::Keep, None) => SharedRoomResponseView::KeepNoContent,
        (GuestFor::Keep, Some(a)) => SharedRoomResponseView::KeepOk(a),
    }
}

/// The message for a reply that does not fit what was asked.
pub open spec fn unexpected_reply() -> Seq<char> {
    seq!['u', 'n', 'e', 'x', 'p', 'e', 'c', 't', 'e', 'd', ' ', 'r', 'e', 'p', 'l', 'y']
}

/// A shared-room request takes the tables' reply: the state after it and
/// what to do next. Opening a room looks its name up; a live room of that
/// name is a conflict (its offer is returned), an expired one is removed
/// with its answer; then the room is written (a conflicting write starts
/// over); then a guest's answer is looked for, and taken with the room
/// closed, else the key is returned. Keeping a room looks for an answer
/// the same way. Closing needs the key, and removes the answer too.
/// Joining writes the answer unless one exists. A failed request fails the
/// whole, as does a reply that does not fit.
pub open spec fn flow_next(s: FlowView, reply: DbReplyView) -> (FlowView, FlowStepView) {
    let unexpected = (FlowView::Finished, FlowStepView::Fail(unexpected_reply()));
    match reply {
        DbReplyView::Failed(e) => (FlowView::Finished, FlowStepView::Fail(e)),
        _ => match s {
            FlowView::PutFinding { room, retry, now } => match reply {
                DbReplyView::Room(None) => (
                    FlowView::PutPutting { room, retry, now },
                    FlowStepView::Ask(DbRequestView::PutRoom(room)),
                ),
                DbReplyView::Room(Some(found)) => if now > found.ttl_sec {
                    (
                        FlowView::PutRemovingExpired { room, retry, now, expired: found.name },
                        FlowStepView::Ask(DbRequestView::RemoveRoom(found.name, None)),
                    )
                } else {
                    (FlowView::Finished, FlowStepView::Respond(SharedRoomResponseView::Conflict(found.sdp)))
                },
                _ => unexpected,
            },
            FlowView::PutRemovingExpired { room, retry, now, expired } => match reply {
                DbReplyView::Flag(_) => (
                    FlowView::PutRemovingExpiredAnswer { room, retry, now },
                    FlowStepView::Ask(DbRequestView::RemoveAnswer(expired)),
                ),
                _ => unexpected,
            },
            FlowView::PutRemovingExpiredAnswer { room, retry, now } => match reply {
                DbReplyView::Answer(_) => (
                    FlowView::PutPutting { room, retry, now },
                    FlowStepView::Ask(DbRequestView::PutRoom(room)),
                ),
                _ => unexpected,
            },
            FlowView::PutPutting { room, retry, now } => match reply {
                DbReplyView::Put(PutOutcomeView::Written) => (
                    FlowView::GuestFinding { name: room.name, key: room.key, target: GuestFor::Put },
                    FlowStepView::Ask(DbRequestView::RemoveAnswer(room.name)),
                ),
                DbReplyView::Put(PutOutcomeView::Conflict) => (
                    FlowView::PutFinding { room, retry: (retry + 1) as u32, now },
                    FlowStepView::Ask(DbRequestView::FindRoom(room.name)),
                ),
                DbReplyView::Put(PutOutcomeView::Failed(e)) => (FlowView::Finished, FlowStepView::Fail(e)),
                _ => unexpected,
            },
            FlowView::GuestFinding { name, key, target } => match reply {
                DbReplyView::Answer(None) => (
                    FlowView::Finished,
                    FlowStepView::Respond(guest_response(target, key, None)),
                ),
                DbReplyView::Answer(Some(a)) => (
                    FlowView::GuestRemovingRoom { name, answer: a.sdp, target },
                    FlowStepView::Ask(DbRequestView::RemoveRoom(name, None)),
                ),
                _ => unexpected,
            },
            FlowView::GuestRemovingRoom { answer, target, .. } => match reply {
                DbReplyView::Flag(_) => (
                    FlowView::Finished,
                    FlowStepView::Respond(guest_response(target, Seq::empty(), Some(answer))),
                ),
                _ => unexpected,
            },
            FlowView::Keeping { name } => match reply {
                DbReplyView::Flag(true) => (
                    FlowView::GuestFinding { name, key: Seq::empty(), target: GuestFor::Keep },
                    FlowStepView::Ask(DbRequestView::RemoveAnswer(name)),
                ),
                DbReplyView::Flag(false) => (FlowView::Finished, FlowStepView::Respond(SharedRoomResponseView::BadRequest)),
                _ => unexpected,
            },
            FlowView::Deleting { name } => match reply {
                DbReplyView::Flag(true) => (
                    FlowView::DeletingAnswer { name },
                    FlowStepView::Ask(DbRequestView::RemoveAnswer(name)),
                ),
                DbReplyView::Flag(false) => (FlowView::Finished, FlowStepView::Respond(SharedRoomResponseView::BadRequest)),
                _ => unexpected,
            },
            FlowView::DeletingAnswer { .. } => match reply {
                DbReplyView::Answer(_) => (FlowView::Finished, FlowStepView::Respond(SharedRoomResponseView::DeleteNoContent)),
                _ => unexpected,
            },
            FlowView::Joining => match reply {
                DbReplyView::Put(PutOutcomeView::Written) => (FlowView::Finished, FlowStepView::Respond(SharedRoomResponseView::JoinOk)),
                DbReplyView::Put(PutOutcomeView::Conflict) => (
                    FlowView::Finished,
                    FlowStepView::Respond(SharedRoomResponseView::JoinConflict),
                ),
                DbReplyView::Put(PutOutcomeView::Failed(e)) => (FlowView::Finished, FlowStepView::Fail(e)),
                _ => unexpected,
            },
            FlowView::Finished => unexpected,
        },
    }
}

/// Opening a room: its entry is made from the name, the key, the offer and
/// the time; first the name is looked up.
pub fn start_put_room(name: String, key: String, offer: String, now: u64) -> (r: (SharedRoomFlow, FlowStep))
    requires
        now + OFFER_TTL_DURATION_SEC <= u64::MAX,
    ensures
        flow_view(r.0) == (FlowView::PutFinding {
            room: SharedRoomView { name: name@, key: key@, sdp: offer@, ttl_sec: (now + OFFER_TTL_DURATION_SEC) as u64 },
            retry: 0,
            now,
        }),
        step_view(r.1) == FlowStepView::Ask(DbRequestView::FindRoom(name@)),
{
    let room = SharedRoom::new(name.clone(), key, offer, ttl_sec(now));
    (SharedRoomFlow::PutFinding { room, retry: 0, now }, FlowStep::Ask(DbRequest::FindRoom(name)))
}

/// A fresh random key in UUID form (`Uuid::new_v4().to_string()`, which
/// prints the hyphenated form): 36 characters, hexadecimal digits in
/// groups separated by hyphens. The digits are random; only the form is
/// promised.
#[verifier::external_body]
pub(crate) fn new_room_key() -> (r: String)
    ensures
        r@.len() == 36,
        uuid_hyphenated(r@),
{
    uuid::Uuid::new_v4().to_string()
}

/// The message when the clock reads before the Unix epoch or beyond any
/// expiry time.
pub open spec fn clock_out_of_range() -> Seq<char> {
    seq!['c', 'l', 'o', 'c', 'k', ' ', 'o', 'u', 't', ' ', 'o', 'f', ' ', 'r', 'a', 'n', 'g', 'e']
}

fn clock_error() -> (r: (SharedRoomFlow, FlowStep))
    ensures
        flow_view(r.0) == FlowView::Finished,
        step_view(r.1) == FlowStepView::Fail(clock_out_of_range()),
{
    let msg = "clock out of range";
    proof {
        reveal_strlit("clock out of range");
    }
    let m = msg.to_string();
    assert(m@ =~= clock_out_of_range());
    (SharedRoomFlow::Finished, FlowStep::Fail(m))
}

/// Opening a room at the current time with a fresh key (see
/// `start_put_room`); fails when the clock reads before the epoch or
/// beyond any expiry time.
pub fn put_room(name: String, offer: String) -> (r: (SharedRoomFlow, FlowStep))
    ensures
        step_view(r.1) == FlowStepView::Fail(clock_out_of_range()) && flow_view(r.0) == FlowView::Finished
            || step_view(r.1) == FlowStepView::Ask(DbRequestView::FindRoom(name@)) && (flow_view(r.0) matches FlowView::PutFinding {
            room,
            retry,
            now,
        } && room.name == name@ && room.sdp == offer@ && room.key.len() == 36 && is_uuid(room.key)
            && room.ttl_sec == now + OFFER_TTL_DURATION_SEC && retry == 0),
{
    let now = match now_sec() {
        Some(t) if t <= u64::MAX - OFFER_TTL_DURATION_SEC => t,
        _ => return clock_error(),
    };
    let key = new_room_key();
    start_put_room(name, key, offer, now)
}

/// A hexadecimal digit, in either case.
pub open spec fn is_hex_digit(c: char) -> bool {
    ('0' <= c && c <= '9') || ('a' <= c && c <= 'f') || ('A' <= c && c <= 'F')
}

/// Thirty-two hexadecimal digits.
pub open spec fn uuid_simple(s: Seq<char>) -> bool {
    s.len() == 32 && forall|i: int| 0 <= i < 32 ==> is_hex_digit(#[trigger] s[i])
}

/// The hyphenated form: hexadecimal digits in groups of 8, 4, 4, 4 and 12
/// separated by hyphens.
pub open spec fn uuid_hyphenated(s: Seq<char>) -> bool {
    &&& s.len() == 36
    &&& forall|i: int| 0 <= i < 36 ==> if i == 8 || i == 13 || i == 18 || i == 23 {
        #[trigger] s[i] == '-'
    } else {
        is_hex_digit(s[i])
    }
}

/// A character of "urn:uuid:", in either case.
pub open spec fn urn_prefix_char(c: char, i: int) -> bool {
    let lower = seq!['u', 'r', 'n', ':', 'u', 'u', 'i', 'd', ':'];
    let upper = seq!['U', 'R', 'N', ':', 'U', 'U', 'I', 'D', ':'];
    c == lower[i] || c == upper[i]
}

/// Whether the text parses as a UUID (`Uuid::parse_str(s).is_ok()`): in
/// the crate's parser, 32 hexadecimal digits, the hyphenated form, the
/// hyphenated form in braces, or "urn:uuid:" (in any case) before it.
pub open spec fn is_uuid(s: Seq<char>) -> bool {
    ||| uuid_simple(s)
    ||| uuid_hyphenated(s)
    ||| s.len() == 38 && s[0] == '{' && s[37] == '}' && uuid_hyphenated(s.subrange(1, 37))
    ||| s.len() == 45 && (forall|i: int| 0 <= i < 9 ==> urn_prefix_char(#[trigger] s[i], i)) && uuid_hyphenated(
        s.skip(9),
    )
}

/// Whether the text parses as a UUID, by `uuid::Uuid::parse_str` (whose
/// length tests count bytes; the forms it accepts are all ASCII, so they
/// count characters alike).
#[verifier::external_body]
pub(crate) fn parses_as_uuid(s: &str) -> (r: bool)
    ensures
        r == is_uuid(s@),
{
    uuid::Uuid::parse_str(s).is_ok()
}

/// Keeping a room open: a key that is no UUID is refused at once;
/// otherwise the room of that name and key lives on from `now`.
pub fn start_post_room_keep(name: String, key: String, key_is_uuid: bool, now: u64) -> (r: (SharedRoomFlow, FlowStep))
    requires
        now + OFFER_TTL_DURATION_SEC <= u64::MAX,
    ensures
        !key_is_uuid ==> flow_view(r.0) == FlowView::Finished && step_view(r.1) == FlowStepView::Respond(
            SharedRoomResponseView::BadRequest,
        ),
        key_is_uuid ==> flow_view(r.0) == (FlowView::Keeping { name: name@ }) && step_view(r.1) == FlowStepView::Ask(
            DbRequestView::KeepRoom(name@, key@, (now + OFFER_TTL_DURATION_SEC) as u64),
        ),
{
    if !key_is_uuid {
        return (SharedRoomFlow::Finished, FlowStep::Respond(SharedRoomResponse::BadRequest));
    }
    (SharedRoomFlow::Keeping { name: name.clone() }, FlowStep::Ask(DbRequest::KeepRoom(name, key, ttl_sec(now))))
}

/// Keeping a room open at the current time (see `start_post_room_keep`).
pub fn post_room_keep(name: String, key: String) -> (r: (SharedRoomFlow, FlowStep))
    ensures
        !is_uuid(key@) ==> flow_view(r.0) == FlowView::Finished && step_view(r.1) == FlowStepView::Respond(
            SharedRoomResponseView::BadRequest,
        ),
        is_uuid(key@) ==> step_view(r.1) == FlowStepView::Fail(clock_out_of_range()) || (flow_view(r.0) == (FlowView::Keeping {
            name: name@,
        }) && (step_view(r.1) matches FlowStepView::Ask(DbRequestView::KeepRoom(n, k, _)) && n == name@ && k == key@)),
{
    let ok = parses_as_uuid(key.as_str());
    if !ok {
        return (SharedRoomFlow::Finished, FlowStep::Respond(SharedRoomResponse::BadRequest));
    }
    let now = match now_sec() {
        Some(t) if t <= u64::MAX - OFFER_TTL_DURATION_SEC => t,
        _ => return clock_error(),
    };
    start_post_room_keep(name, key, ok, now)
}

/// Closing a room: only with its key.
pub fn delete_room(name: String, key: String) -> (r: (SharedRoomFlow, FlowStep))
    ensures
        flow_view(r.0) == (FlowView::Deleting { name: name@ }),
        step_view(r.1) == FlowStepView::Ask(DbRequestView::RemoveRoom(name@, Some(key@))),
{
    (SharedRoomFlow::Deleting { name: name.clone() }, FlowStep::Ask(DbRequest::RemoveRoom(name, Some(key))))
}

/// Answering a room's offer: the answer lives from `now`.
pub fn start_post_room_join(name: String, answer: String, now: u64) -> (r: (SharedRoomFlow, FlowStep))
    requires
        now + OFFER_TTL_DURATION_SEC <= u64::MAX,
    ensures
        flow_view(r.0) == FlowView::Joining,
        step_view(r.1) == FlowStepView::Ask(
            DbRequestView::PutAnswer(AnswerView { name: name@, sdp: answer@, ttl_sec: (now + OFFER_TTL_DURATION_SEC) as u64 }),
        ),
{
    (SharedRoomFlow::Joining, FlowStep::Ask(DbRequest::PutAnswer(Answer::new(name, answer, ttl_sec(now)))))
}

/// Answering a room's offer at the current time.
pub fn post_room_join(name: String, answer: String) -> (r: (SharedRoomFlow, FlowStep))
    ensures
        step_view(r.1) == FlowStepView::Fail(clock_out_of_range()) && flow_view(r.0) == FlowView::Finished || (flow_view(r.0)
            == FlowView::Joining && (step_view(r.1) matches FlowStepView::Ask(DbRequestView::PutAnswer(a)) && a.name == name@
            && a.sdp == answer@)),
{
    let now = match now_sec() {
        Some(t) if t <= u64::MAX - OFFER_TTL_DURATION_SEC => t,
        _ => return clock_error(),
    };
    start_post_room_join(name, answer, now)
}

impl SharedRoomFlow {
    /// Takes the tables' reply to the last request; returns what to do next
    /// (see `flow_next`). A third conflicting write of a new room has no
    /// next step: the caller gives up, as on a broken table.
    pub fn on_reply(&mut self, reply: DbReply) -> (r: FlowStep)
        requires
            !(flow_view(*old(self)) matches FlowView::PutPutting { retry, .. } && retry >= 2 && reply_view(reply)
                == DbReplyView::Put(PutOutcomeView::Conflict)),
        ensures
            (flow_view(*final(self)), step_view(r)) == flow_next(flow_view(*old(self)), reply_view(reply)),
    {
        let mut state = SharedRoomFlow::Finished;
        std::mem::swap(&mut state, self);
        if let DbReply::Failed(e) = reply {
            return FlowStep::Fail(e);
        }
        let unexpected = "unexpected reply";
        proof {
            reveal_strlit("unexpected reply");
            assert(unexpected@ =~= unexpected_reply());
        }
        match (state, reply) {
            (SharedRoomFlow::PutFinding { room, retry, now }, DbReply::Room(found)) => match found {
                None => {
                    let p = room.duplicate();
                    *self = SharedRoomFlow::PutPutting { room, retry, now };
                    FlowStep::Ask(DbRequest::PutRoom(p))
                },
                Some(f) => {
                    if f.is_expired(now) {
                        let expired = f.name().clone();
                        *self = SharedRoomFlow::PutRemovingExpired { room, retry, now, expired: expired.clone() };
                        FlowStep::Ask(DbRequest::RemoveRoom(expired, None))
                    } else {
                        FlowStep::Respond(SharedRoomResponse::Conflict(f.into_sdp()))
                    }
                },
            },
            (SharedRoomFlow::PutRemovingExpired { room, retry, now, expired }, DbReply::Flag(_)) => {
                *self = SharedRoomFlow::PutRemovingExpiredAnswer { room, retry, now };
                FlowStep::Ask(DbRequest::RemoveAnswer(expired))
            },
            (SharedRoomFlow::PutRemovingExpiredAnswer { room, retry, now }, DbReply::Answer(_)) => {
                let p = room.duplicate();
                *self = SharedRoomFlow::PutPutting { room, retry, now };
                FlowStep::Ask(DbRequest::PutRoom(p))
            },
            (SharedRoomFlow::PutPutting { room, retry, now }, DbReply::Put(outcome)) => match outcome {
                PutOutcome::Written => {
                    let name = room.name().clone();
                    *self = SharedRoomFlow::GuestFinding {
                        name: name.clone(),
                        key: room.key().clone(),
                        target: GuestFor::Put,
                    };
                    FlowStep::Ask(DbRequest::RemoveAnswer(name))
                },
                PutOutcome::Conflict => {
                    let name = room.name().clone();
                    *self = SharedRoomFlow::PutFinding { room, retry: retry + 1, now };
                    FlowStep::Ask(DbRequest::FindRoom(name))
                },
                PutOutcome::Failed(e) => FlowStep::Fail(e),
            },
            (SharedRoomFlow::GuestFinding { name, key, target }, DbReply::Answer(found)) => match found {
                None => FlowStep::Respond(
                    match target {
                        GuestFor::Put => SharedRoomResponse::CreatedWithKey(key),
                        GuestFor::Keep => SharedRoomResponse::KeepNoContent,
                    },
                ),
                Some(a) => {
                    *self = SharedRoomFlow::GuestRemovingRoom { name: name.clone(), answer: a.into_sdp(), target };
                    FlowStep::Ask(DbRequest::RemoveRoom(name, None))
                },
            },
            (SharedRoomFlow::GuestRemovingRoom { answer, target, .. }, DbReply::Flag(_)) => FlowStep::Respond(
                match target {
                    GuestFor::Put => SharedRoomResponse::CreatedWithAnswer(answer),
                    GuestFor::Keep => SharedRoomResponse::KeepOk(answer),
                },
            ),
            (SharedRoomFlow::Keeping { name }, DbReply::Flag(kept)) => {
                if kept {
                    *self = SharedRoomFlow::GuestFinding {
                        name: name.clone(),
                        key: String::new(),
                        target: GuestFor::Keep,
                    };
                    FlowStep::Ask(DbRequest::RemoveAnswer(name))
                } else {
                    FlowStep::Respond(SharedRoomResponse::BadRequest)
                }
            },
            (SharedRoomFlow::Deleting { name }, DbReply::Flag(removed)) => {
                if removed {
                    *self = SharedRoomFlow::DeletingAnswer { name: name.clone() };
                    FlowStep::Ask(DbRequest::RemoveAnswer(name))
                } else {
                    FlowStep::Respond(SharedRoomResponse::BadRequest)
                }
            },
            (SharedRoomFlow::DeletingAnswer { .. }, DbReply::Answer(_)) => FlowStep::Respond(
                SharedRoomResponse::DeleteNoContent,
            ),
            (SharedRoomFlow::Joining, DbReply::Put(outcome)) => match outcome {
                PutOutcome::Written => FlowStep::Respond(SharedRoomResponse::JoinOk),
                PutOutcome::Conflict => FlowStep::Respond(SharedRoomResponse::JoinConflict),
                PutOutcome::Failed(e) => FlowStep::Fail(e),
            },
            _ => FlowStep::Fail(unexpected.to_string()),
        }
    }
}

// The tables kept in a file.

/// Whether a room of that name is among the rooms.
pub open spec fn has_room_named(rooms: Seq<SharedRoom>, name: Seq<char>) -> bool {
    exists|i: int| 0 <= i < rooms.len() && (#[trigger] rooms[i])@.name == name
}

/// Whether an answer to that room is among the answers.
pub open spec fn has_answer_named(answers: Seq<Answer>, name: Seq<char>) -> bool {
    exists|i: int| 0 <= i < answers.len() && (#[trigger] answers[i])@.name == name
}

/// The first room of that name, if any.
pub open spec fn first_room_named(rooms: Seq<SharedRoom>, name: Seq<char>) -> Option<int>
    decreases rooms.len(),
{
    if rooms.len() == 0 {
        None
    } else {
        match first_room_named(rooms.drop_last(), name) {
            Some(i) => Some(i),
            None => if rooms.last()@.name == name { Some(rooms.len() - 1) } else { None },
        }
    }
}

/// The tables of a server that keeps them in a JSON file: the caller reads
/// the rooms and answers from the file and writes them back.
pub struct File;

impl File {
    /// Adds a room to the rooms, unless one of that name is there.
    pub fn put_room(offers: &mut Vec<SharedRoom>, offer: SharedRoom) -> (r: Result<(), PutError>)
        ensures
            has_room_named(old(offers)@, offer@.name) ==> (r matches Err(PutError::Conflict) && final(offers)@ == old(offers)@),
            !has_room_named(old(offers)@, offer@.name) ==> r is Ok && final(offers)@ == old(offers)@.push(offer),
    {
        let mut i: usize = 0;
        while i < offers.len()
            invariant
                i <= offers@.len(),
                forall|j: int| 0 <= j < i ==> (#[trigger] offers@[j])@.name != offer@.name,
            decreases offers.len() - i,
        {
            if crate::cui::same_text(offers[i].name().as_str(), offer.name().as_str()) {
                proof {
                    assert(offers@[i as int]@.name == offer@.name);
                }
                return Err(PutError::Conflict);
            }
            i = i + 1;
        }
        offers.push(offer);
        Ok(())
    }

    /// The first room of that name, if any.
    pub fn find_room(offers: &Vec<SharedRoom>, name: &str) -> (r: Option<SharedRoom>)
        ensures
            match first_room_named(offers@, name@) {
                Some(i) => r matches Some(x) && x@ == offers@[i]@,
                None => r is None,
            },
    {
        let mut i: usize = 0;
        while i < offers.len()
            invariant
                i <= offers@.len(),
                first_room_named(offers@.take(i as int), name@) is None,
            decreases offers.len() - i,
        {
            assert(offers@.take(i + 1).drop_last() =~= offers@.take(i as int));
            if crate::cui::same_text(offers[i].name().as_str(), name) {
                proof {
                    lemma_first_room_prefix(offers@, i as int + 1, name@);
                }
                return Some(offers[i].duplicate());
            }
            i = i + 1;
        }
        assert(offers@.take(offers@.len() as int) =~= offers@);
        None
    }

    /// Adds an answer to the answers, unless one to that room is there.
    pub fn put_room_opponent_answer(answers: &mut Vec<Answer>, answer: Answer) -> (r: Result<(), PutError>)
        ensures
            has_answer_named(old(answers)@, answer@.name) ==> (r matches Err(PutError::Conflict) && final(answers)@
                == old(answers)@),
            !has_answer_named(old(answers)@, answer@.name) ==> r is Ok && final(answers)@ == old(answers)@.push(answer),
    {
        let mut i: usize = 0;
        while i < answers.len()
            invariant
                i <= answers@.len(),
                forall|j: int| 0 <= j < i ==> (#[trigger] answers@[j])@.name != answer@.name,
            decreases answers.len() - i,
        {
            if crate::cui::same_text(answers[i].name().as_str(), answer.name().as_str()) {
                proof {
                    assert(answers@[i as int]@.name == answer@.name);
                }
                return Err(PutError::Conflict);
            }
            i = i + 1;
        }
        answers.push(answer);
        Ok(())
    }
}

/// The rooms as values.
pub open spec fn room_views(rooms: Seq<SharedRoom>) -> Seq<SharedRoomView> {
    rooms.map_values(|r: SharedRoom| r@)
}

/// The answers as values.
pub open spec fn answer_views(answers: Seq<Answer>) -> Seq<AnswerView> {
    answers.map_values(|a: Answer| a@)
}

/// Whether a room has that name and, when a key is given, that key.
pub open spec fn room_matches(r: SharedRoomView, name: Seq<char>, key: Option<Seq<char>>) -> bool {
    r.name == name && match key {
        Some(k) => r.key == k,
        None => true,
    }
}

/// The rooms that do not match, in order.
pub open spec fn rooms_without(rooms: Seq<SharedRoomView>, name: Seq<char>, key: Option<Seq<char>>) -> Seq<SharedRoomView>
    decreases rooms.len(),
{
    if rooms.len() == 0 {
        Seq::empty()
    } else if room_matches(rooms.last(), name, key) {
        rooms_without(rooms.drop_last(), name, key)
    } else {
        rooms_without(rooms.drop_last(), name, key).push(rooms.last())
    }
}

impl File {
    /// Removes every room of that name (with that key, when one is given);
    /// returns whether one was removed.
    pub fn remove_room(offers: &mut Vec<SharedRoom>, name: &str, key: Option<String>) -> (r: bool)
        ensures
            room_views(final(offers)@) == rooms_without(room_views(old(offers)@), name@, opt_str(key)),
            r == exists|i: int| 0 <= i < old(offers)@.len() && room_matches((#[trigger] old(offers)@[i])@, name@, opt_str(key)),
    {
        let ghost olds = room_views(offers@);
        let mut kept: Vec<SharedRoom> = Vec::new();
        let mut removed = false;
        let mut i: usize = 0;
        while i < offers.len()
            invariant
                i <= offers@.len(),
                olds == room_views(offers@),
                room_views(kept@) == rooms_without(olds.take(i as int), name@, opt_str(key)),
                removed == exists|j: int| 0 <= j < i && room_matches((#[trigger] offers@[j])@, name@, opt_str(key)),
            decreases offers.len() - i,
        {
            assert(olds.take(i + 1).drop_last() =~= olds.take(i as int));
            assert(olds.take(i + 1).last() == offers@[i as int]@);
            let r = &offers[i];
            let hit = crate::cui::same_text(r.name().as_str(), name) && match &key {
                Some(k) => crate::cui::same_text(r.key().as_str(), k.as_str()),
                None => true,
            };
            if hit {
                removed = true;
            } else {
                kept.push(r.duplicate());
                assert(room_views(kept@) =~= rooms_without(olds.take(i as int), name@, opt_str(key)).push(offers@[i as int]@));
            }
            i = i + 1;
        }
        assert(olds.take(offers@.len() as int) =~= olds);
        *offers = kept;
        removed
    }

    /// Sets the time to live of the first room of that name and key;
    /// returns whether there was one.
    pub fn keep_room(offers: &mut Vec<SharedRoom>, name: &str, key: &str, ttl_sec: u64) -> (r: bool)
        ensures
            r == exists|i: int| 0 <= i < old(offers)@.len() && room_matches((#[trigger] old(offers)@[i])@, name@, Some(key@)),
            !r ==> final(offers)@ == old(offers)@,
            r ==> exists|i: int|
                0 <= i < old(offers)@.len() && room_matches(old(offers)@[i]@, name@, Some(key@)) && (forall|j: int|
                    0 <= j < i ==> !room_matches((#[trigger] old(offers)@[j])@, name@, Some(key@)))
                    && room_views(final(offers)@) == room_views(old(offers)@).update(
                    i,
                    SharedRoomView { ttl_sec, ..old(offers)@[i]@ },
                ),
    {
        let mut i: usize = 0;
        while i < offers.len()
            invariant
                i <= offers@.len(),
                offers@ == old(offers)@,
                forall|j: int| 0 <= j < i ==> !room_matches((#[trigger] offers@[j])@, name@, Some(key@)),
            decreases offers.len() - i,
        {
            if crate::cui::same_text(offers[i].name().as_str(), name) && crate::cui::same_text(
                offers[i].key().as_str(),
                key,
            ) {
                let r = &offers[i];
                let kept = SharedRoom::new(r.name().clone(), r.key().clone(), r.sdp().clone(), ttl_sec);
                let ghost before = offers@;
                offers.set(i, kept);
                proof {
                    assert(room_views(offers@) =~= room_views(before).update(
                        i as int,
                        SharedRoomView { ttl_sec, ..before[i as int]@ },
                    ));
                }
                return true;
            }
            i = i + 1;
        }
        false
    }

    /// Removes and returns the first answer to the room of that name.
    pub fn remove_room_opponent_answer(answers: &mut Vec<Answer>, name: &str) -> (r: Option<Answer>)
        ensures
            r is None ==> final(answers)@ == old(answers)@ && !has_answer_named(old(answers)@, name@),
            r matches Some(a) ==> exists|i: int|
                0 <= i < old(answers)@.len() && old(answers)@[i]@.name == name@ && (forall|j: int|
                    0 <= j < i ==> (#[trigger] old(answers)@[j])@.name != name@) && a == old(answers)@[i]
                    && final(answers)@ == old(answers)@.remove(i),
    {
        let mut i: usize = 0;
        while i < answers.len()
            invariant
                i <= answers@.len(),
                answers@ == old(answers)@,
                forall|j: int| 0 <= j < i ==> (#[trigger] answers@[j])@.name != name@,
            decreases answers.len() - i,
        {
            if crate::cui::same_text(answers[i].name().as_str(), name) {
                let a = answers.remove(i);
                return Some(a);
            }
            i = i + 1;
        }
        None
    }
}

/// A prefix whose last room has the name finds it first when no earlier
/// one has it.
proof fn lemma_first_room_prefix(rooms: Seq<SharedRoom>, n: int, name: Seq<char>)
    requires
        0 < n <= rooms.len(),
        first_room_named(rooms.take(n - 1), name) is None,
        rooms[n - 1]@.name == name,
    ensures
        first_room_named(rooms, name) == Some(n - 1),
    decreases rooms.len() - n,
{
    assert(rooms.take(n).drop_last() =~= rooms.take(n - 1));
    if n < rooms.len() {
        lemma_first_room_prefix_extend(rooms, n, name);
    } else {
        assert(rooms.take(n) =~= rooms);
    }
}

/// Once found in a prefix, the first room stays the first.
proof fn lemma_first_room_prefix_extend(rooms: Seq<SharedRoom>, n: int, name: Seq<char>)
    requires
        0 < n <= rooms.len(),
        first_room_named(rooms.take(n), name) is Some,
    ensures
        first_room_named(rooms, name) == first_room_named(rooms.take(n), name),
    decreases rooms.len() - n,
{
    if n < rooms.len() {
        assert(rooms.take(n + 1).drop_last() =~= rooms.take(n));
        lemma_first_room_prefix_extend(rooms, n + 1, name);
    } else {
        assert(rooms.take(n) =~= rooms);
    }
}

/// Law: a room opened at `now` is live until its time to live, ten
/// seconds later, and gone after.
pub proof fn law_room_lifetime(name: Seq<char>, key: Seq<char>, sdp: Seq<char>, now: u64, t: u64)
    requires
        now + OFFER_TTL_DURATION_SEC <= u64::MAX,
    ensures
        ({
            let room = SharedRoomView { name, key, sdp, ttl_sec: (now + OFFER_TTL_DURATION_SEC) as u64 };
            (t > room.ttl_sec) <==> (t > now + 10)
        }),
{
}

/// Law: opening a free room that no guest answered ends with the room's
/// key; had a guest answered, with the guest's answer (and the room is
/// closed).
pub proof fn law_open_free_room(room: SharedRoomView, now: u64, answer: AnswerView)
    ensures
        ({
            let s0 = FlowView::PutFinding { room, retry: 0, now };
            let (s1, a1) = flow_next(s0, DbReplyView::Room(None));
            let (s2, a2) = flow_next(s1, DbReplyView::Put(PutOutcomeView::Written));
            let (s3, a3) = flow_next(s2, DbReplyView::Answer(None));
            &&& a1 == FlowStepView::Ask(DbRequestView::PutRoom(room))
            &&& a2 == FlowStepView::Ask(DbRequestView::RemoveAnswer(room.name))
            &&& s3 == FlowView::Finished
            &&& a3 == FlowStepView::Respond(SharedRoomResponseView::CreatedWithKey(room.key))
        }),
        ({
            let s0 = FlowView::PutFinding { room, retry: 0, now };
            let (s1, _) = flow_next(s0, DbReplyView::Room(None));
            let (s2, _) = flow_next(s1, DbReplyView::Put(PutOutcomeView::Written));
            let (s3, a3) = flow_next(s2, DbReplyView::Answer(Some(answer)));
            let (s4, a4) = flow_next(s3, DbReplyView::Flag(true));
            &&& a3 == FlowStepView::Ask(DbRequestView::RemoveRoom(room.name, None))
            &&& s4 == FlowView::Finished
            &&& a4 == FlowStepView::Respond(SharedRoomResponseView::CreatedWithAnswer(answer.sdp))
        }),
{
}

/// Law: a live room of the name is never overwritten: looking it up ends
/// the request with its offer.
pub proof fn law_live_room_conflicts(room: SharedRoomView, retry: u32, now: u64, found: SharedRoomView)
    requires
        now <= found.ttl_sec,
    ensures
        flow_next(FlowView::PutFinding { room, retry, now }, DbReplyView::Room(Some(found))) == (
            FlowView::Finished,
            FlowStepView::Respond(SharedRoomResponseView::Conflict(found.sdp)),
        ),
{
}

/// Law: keeping a room that a guest has answered hands the answer to the
/// host: the keep succeeds, the answer is taken out of its table, the room
/// is closed, and the reply carries that answer, whatever the removal of
/// the room replies.
pub proof fn law_kept_room_hands_over_the_answer(name: Seq<char>, answer: AnswerView, removed: bool)
    ensures
        ({
            let (s1, q1) = flow_next(FlowView::Keeping { name }, DbReplyView::Flag(true));
            let (s2, q2) = flow_next(s1, DbReplyView::Answer(Some(answer)));
            let (s3, q3) = flow_next(s2, DbReplyView::Flag(removed));
            &&& q1 == FlowStepView::Ask(DbRequestView::RemoveAnswer(name))
            &&& q2 == FlowStepView::Ask(DbRequestView::RemoveRoom(name, None))
            &&& q3 == FlowStepView::Respond(SharedRoomResponseView::KeepOk(answer.sdp))
            &&& s3 == FlowView::Finished
        }),
{
}

/// Law: a host that keeps its room gets an answer back only when a guest
/// answered: a keep ends with `KeepOk(x)` only when `x` is the text of the
/// answer taken out of the table, and without a stored answer it ends
/// with `KeepNoContent`.
pub proof fn law_keep_answer_comes_from_the_table(s: FlowView, reply: DbReplyView)
    ensures
        (s matches FlowView::GuestFinding { target: GuestFor::Keep, .. } && reply == DbReplyView::Answer(None))
            ==> flow_next(s, reply).1 == FlowStepView::Respond(SharedRoomResponseView::KeepNoContent),
        (s matches FlowView::GuestFinding { target: GuestFor::Keep, name, .. } && reply matches DbReplyView::Answer(Some(a)))
            ==> flow_next(s, reply).0 == (FlowView::GuestRemovingRoom {
            name: s->GuestFinding_name,
            answer: reply->Answer_0->0.sdp,
            target: GuestFor::Keep,
        }),
        (s matches FlowView::GuestRemovingRoom { target: GuestFor::Keep, answer, .. } && reply is Flag) ==> flow_next(s, reply).1
            == FlowStepView::Respond(SharedRoomResponseView::KeepOk(s->GuestRemovingRoom_answer)),
{
}

} // verus!
