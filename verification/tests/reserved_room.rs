use junowen::reserved_room::{
    delete_room, get_room, post_room_keep, put_room, route, start_get_room, start_post_room_join, start_post_room_keep,
    start_post_room_spectate, start_put_room, ReservedDbReply, ReservedDbRequest, ReservedEndpoint, ReservedRoom,
    ReservedRoomFlow, ReservedRoomResponse, ReservedStep,
};
use junowen::signaling_server::{Answer, HttpMethod, PutOutcome};

fn ask(step: ReservedStep) -> ReservedDbRequest {
    match step {
        ReservedStep::Ask(q) => q,
        other => panic!("expected a request, got {:?}", other),
    }
}

fn respond(step: ReservedStep) -> ReservedRoomResponse {
    match step {
        ReservedStep::Respond(r) => r,
        other => panic!("expected a response, got {:?}", other),
    }
}

fn room(name: &str, opponent: Option<&str>, spectator: Option<&str>, ttl: u64) -> ReservedRoom {
    ReservedRoom::new(
        name.to_string(),
        "key".to_string(),
        opponent.map(|s| s.to_string()),
        spectator.map(|s| s.to_string()),
        ttl,
    )
}

#[test]
fn reserved_requests_are_routed_by_path_and_method() {
    assert!(matches!(route("room", HttpMethod::Put), ReservedEndpoint::PutRoom(n) if n == "room"));
    assert!(matches!(route("room", HttpMethod::Get), ReservedEndpoint::GetRoom(n) if n == "room"));
    assert!(matches!(route("room", HttpMethod::Delete), ReservedEndpoint::DeleteRoom(n) if n == "room"));
    assert!(matches!(route("room", HttpMethod::Post), ReservedEndpoint::MethodNotAllowed));
    assert!(matches!(route("room/join", HttpMethod::Post), ReservedEndpoint::PostRoomJoin(n) if n == "room"));
    assert!(matches!(route("room/spectate", HttpMethod::Post), ReservedEndpoint::PostRoomSpectate(n) if n == "room"));
    assert!(matches!(route("room/keep", HttpMethod::Post), ReservedEndpoint::PostRoomKeep(n) if n == "room"));
    assert!(matches!(route("room/spectate", HttpMethod::Get), ReservedEndpoint::MethodNotAllowed));
    assert!(matches!(route("room/watch", HttpMethod::Post), ReservedEndpoint::NotFound));
    assert!(matches!(route("/spectate", HttpMethod::Post), ReservedEndpoint::NotFound));
    assert!(matches!(route("a/b/keep", HttpMethod::Post), ReservedEndpoint::NotFound));
    assert!(matches!(route("", HttpMethod::Get), ReservedEndpoint::NotFound));
}

#[test]
fn reserved_room_expires_after_its_ttl() {
    let r = room("n", Some("offer"), None, 10);
    assert!(!r.is_expired(10));
    assert!(r.is_expired(11));
    assert_eq!(r.into_opponent_offer_sdp(), Some("offer".to_string()));
}

#[test]
fn opening_a_reserved_room_writes_it_and_returns_its_key() {
    let (mut flow, step) = start_put_room("n".to_string(), "key".to_string(), "offer".to_string(), 100);
    assert!(matches!(ask(step), ReservedDbRequest::FindRoom(n) if n == "n"));
    match ask(flow.on_reply(ReservedDbReply::Room(None))) {
        ReservedDbRequest::PutRoom(r) => {
            assert_eq!(r.name(), "n");
            assert_eq!(r.key(), "key");
            assert_eq!(r.opponent_offer_sdp(), &Some("offer".to_string()));
            assert_eq!(r.spectator_offer_sdp(), &None);
            assert_eq!(r.ttl_sec(), 110);
        },
        _ => panic!("expected the room to be written"),
    }
    let q = ask(flow.on_reply(ReservedDbReply::Put(PutOutcome::Written)));
    assert!(matches!(q, ReservedDbRequest::RemoveOpponentAnswer(n) if n == "n"));
    let r = respond(flow.on_reply(ReservedDbReply::Answer(None)));
    assert!(matches!(r, ReservedRoomResponse::CreatedWithKey(k) if k == "key"));
}

#[test]
fn opening_a_reserved_room_takes_an_early_answer() {
    let (mut flow, _) = start_put_room("n".to_string(), "key".to_string(), "offer".to_string(), 100);
    ask(flow.on_reply(ReservedDbReply::Room(None)));
    ask(flow.on_reply(ReservedDbReply::Put(PutOutcome::Written)));
    let a = Answer::new("n".to_string(), "answer".to_string(), 105);
    let q = ask(flow.on_reply(ReservedDbReply::Answer(Some(a))));
    assert!(matches!(q, ReservedDbRequest::RemoveOpponentOffer(n) if n == "n"));
    let r = respond(flow.on_reply(ReservedDbReply::Flag(true)));
    assert!(matches!(r, ReservedRoomResponse::CreatedWithAnswer(a) if a == "answer"));
}

#[test]
fn opening_a_live_reserved_room_conflicts() {
    let (mut flow, _) = start_put_room("n".to_string(), "key".to_string(), "offer".to_string(), 100);
    let r = respond(flow.on_reply(ReservedDbReply::Room(Some(room("n", Some("theirs"), None, 100)))));
    assert!(matches!(r, ReservedRoomResponse::Conflict(Some(o)) if o == "theirs"));
}

#[test]
fn opening_over_an_expired_reserved_room_clears_it_first() {
    let (mut flow, _) = start_put_room("n".to_string(), "key".to_string(), "offer".to_string(), 100);
    let q = ask(flow.on_reply(ReservedDbReply::Room(Some(room("n", None, None, 99)))));
    assert!(matches!(q, ReservedDbRequest::RemoveRoom(n, None) if n == "n"));
    let q = ask(flow.on_reply(ReservedDbReply::Flag(true)));
    assert!(matches!(q, ReservedDbRequest::RemoveOpponentAnswer(n) if n == "n"));
    let q = ask(flow.on_reply(ReservedDbReply::Answer(None)));
    assert!(matches!(q, ReservedDbRequest::RemoveSpectatorAnswer(n) if n == "n"));
    let q = ask(flow.on_reply(ReservedDbReply::Answer(None)));
    assert!(matches!(q, ReservedDbRequest::PutRoom(r) if r.name() == "n"));
}

#[test]
fn a_conflicting_write_starts_the_lookup_over() {
    let (mut flow, _) = start_put_room("n".to_string(), "key".to_string(), "offer".to_string(), 100);
    ask(flow.on_reply(ReservedDbReply::Room(None)));
    let q = ask(flow.on_reply(ReservedDbReply::Put(PutOutcome::Conflict)));
    assert!(matches!(q, ReservedDbRequest::FindRoom(n) if n == "n"));
}

#[test]
fn reading_a_reserved_room_gives_both_offers() {
    let (mut flow, step) = start_get_room("n".to_string(), 100);
    assert!(matches!(ask(step), ReservedDbRequest::FindRoom(n) if n == "n"));
    let r = respond(flow.on_reply(ReservedDbReply::Room(Some(room("n", None, Some("watch"), 100)))));
    assert!(matches!(r, ReservedRoomResponse::Found(None, Some(s)) if s == "watch"));
}

#[test]
fn reading_a_missing_or_expired_reserved_room_finds_nothing() {
    let (mut flow, _) = get_room("n".to_string());
    assert!(matches!(respond(flow.on_reply(ReservedDbReply::Room(None))), ReservedRoomResponse::NotFound));
    let (mut flow, _) = start_get_room("n".to_string(), 100);
    ask(flow.on_reply(ReservedDbReply::Room(Some(room("n", Some("o"), None, 50)))));
    ask(flow.on_reply(ReservedDbReply::Flag(true)));
    ask(flow.on_reply(ReservedDbReply::Answer(None)));
    assert!(matches!(respond(flow.on_reply(ReservedDbReply::Answer(None))), ReservedRoomResponse::NotFound));
}

#[test]
fn keeping_a_reserved_room_needs_a_uuid_key() {
    let (_, step) = post_room_keep("n".to_string(), "not a uuid".to_string(), None);
    assert!(matches!(respond(step), ReservedRoomResponse::BadRequest));
    let key = "67e55044-10b1-426f-9247-bb680e5fe0c8".to_string();
    let (_, step) = post_room_keep("n".to_string(), key.clone(), Some("spec".to_string()));
    assert!(
        matches!(ask(step), ReservedDbRequest::KeepRoom(n, k, Some(s), _) if n == "n" && k == key && s == "spec")
    );
}

#[test]
fn keeping_a_reserved_room_hands_over_the_opponent_answer() {
    let (mut flow, step) = start_post_room_keep("n".to_string(), "k".to_string(), None, true, 100);
    assert!(matches!(ask(step), ReservedDbRequest::KeepRoom(n, k, None, 110) if n == "n" && k == "k"));
    let q = ask(flow.on_reply(ReservedDbReply::Room(Some(room("n", Some("o"), Some("s"), 110)))));
    assert!(matches!(q, ReservedDbRequest::RemoveOpponentAnswer(n) if n == "n"));
    let a = Answer::new("n".to_string(), "answer".to_string(), 110);
    let q = ask(flow.on_reply(ReservedDbReply::Answer(Some(a))));
    assert!(matches!(q, ReservedDbRequest::RemoveOpponentOffer(n) if n == "n"));
    let r = respond(flow.on_reply(ReservedDbReply::Flag(true)));
    assert!(matches!(r, ReservedRoomResponse::KeepOpponentAnswer(a) if a == "answer"));
}

#[test]
fn keeping_a_reserved_room_hands_over_the_spectator_answer() {
    let (mut flow, _) = start_post_room_keep("n".to_string(), "k".to_string(), Some("s".to_string()), true, 100);
    let q = ask(flow.on_reply(ReservedDbReply::Room(Some(room("n", None, Some("s"), 110)))));
    assert!(matches!(q, ReservedDbRequest::RemoveSpectatorAnswer(n) if n == "n"));
    assert!(matches!(respond(flow.on_reply(ReservedDbReply::Answer(None))), ReservedRoomResponse::KeepNoContent));
    let (mut flow, _) = start_post_room_keep("n".to_string(), "k".to_string(), None, true, 100);
    ask(flow.on_reply(ReservedDbReply::Room(Some(room("n", None, Some("s"), 110)))));
    let a = Answer::new("n".to_string(), "watcher".to_string(), 110);
    let q = ask(flow.on_reply(ReservedDbReply::Answer(Some(a))));
    assert!(matches!(q, ReservedDbRequest::RemoveSpectatorOffer(n) if n == "n"));
    let r = respond(flow.on_reply(ReservedDbReply::Flag(true)));
    assert!(matches!(r, ReservedRoomResponse::KeepSpectatorAnswer(a) if a == "watcher"));
}

#[test]
fn keeping_a_reserved_room_without_offers_or_with_a_wrong_key() {
    let (mut flow, _) = start_post_room_keep("n".to_string(), "k".to_string(), None, true, 100);
    let r = respond(flow.on_reply(ReservedDbReply::Room(Some(room("n", None, None, 110)))));
    assert!(matches!(r, ReservedRoomResponse::KeepNoContent));
    let (mut flow, _) = start_post_room_keep("n".to_string(), "k".to_string(), None, true, 100);
    assert!(matches!(respond(flow.on_reply(ReservedDbReply::Room(None))), ReservedRoomResponse::BadRequest));
    let (_, step) = start_post_room_keep("n".to_string(), "k".to_string(), None, false, 100);
    assert!(matches!(respond(step), ReservedRoomResponse::BadRequest));
}

#[test]
fn closing_a_reserved_room_needs_its_key() {
    let (mut flow, step) = delete_room("n".to_string(), "k".to_string());
    assert!(matches!(ask(step), ReservedDbRequest::RemoveRoom(n, Some(k)) if n == "n" && k == "k"));
    let q = ask(flow.on_reply(ReservedDbReply::Flag(true)));
    assert!(matches!(q, ReservedDbRequest::RemoveOpponentAnswer(n) if n == "n"));
    assert!(matches!(respond(flow.on_reply(ReservedDbReply::Answer(None))), ReservedRoomResponse::DeleteNoContent));
    let (mut flow, _) = delete_room("n".to_string(), "wrong".to_string());
    assert!(matches!(respond(flow.on_reply(ReservedDbReply::Flag(false))), ReservedRoomResponse::BadRequest));
}

#[test]
fn joining_and_spectating_store_answers_once() {
    let (mut flow, step) = start_post_room_join("n".to_string(), "a".to_string(), 100);
    assert!(
        matches!(ask(step), ReservedDbRequest::PutOpponentAnswer(a) if a.name() == "n" && a.sdp() == "a")
    );
    assert!(matches!(respond(flow.on_reply(ReservedDbReply::Put(PutOutcome::Written))), ReservedRoomResponse::AnswerOk));
    let (mut flow, step) = start_post_room_spectate("n".to_string(), "s".to_string(), 100);
    assert!(
        matches!(ask(step), ReservedDbRequest::PutSpectatorAnswer(a) if a.name() == "n" && a.sdp() == "s")
    );
    assert!(
        matches!(respond(flow.on_reply(ReservedDbReply::Put(PutOutcome::Conflict))), ReservedRoomResponse::AnswerConflict)
    );
}

#[test]
fn a_failed_table_request_fails_the_reserved_request() {
    let (mut flow, _) = start_get_room("n".to_string(), 100);
    let step = flow.on_reply(ReservedDbReply::Failed("boom".to_string()));
    assert!(matches!(step, ReservedStep::Fail(e) if e == "boom"));
    let step = flow.on_reply(ReservedDbReply::Flag(true));
    assert!(matches!(step, ReservedStep::Fail(e) if e == "unexpected reply"));
}

#[test]
fn a_reserved_room_key_passes_the_key_check_of_keeping() {
    let (flow, step) = put_room("n".to_string(), "offer".to_string());
    assert!(matches!(ask(step), ReservedDbRequest::FindRoom(n) if n == "n"));
    let key = match flow {
        ReservedRoomFlow::PutFinding { room, .. } => room.key().clone(),
        _ => panic!("expected the name to be looked up"),
    };
    let (_, step) = post_room_keep("n".to_string(), key.clone(), None);
    assert!(matches!(ask(step), ReservedDbRequest::KeepRoom(n, k, None, _) if n == "n" && k == key));
}
