use junowen::offer::{
    retry_after, spectator_poll, KeepReply, OfferAction, OfferEvent, OfferFlow, OfferResponse, PutOfferReply,
    SignalingServerReservedRoomOpponentSocket, SignalingServerReservedRoomSpectatorSocketError, SignalingServerSocket,
    SpectatedRoom, SpectatorPoll,
};
use junowen::room_utils::{ttl_sec, RETRY_AFTER_INTERVAL_SEC};
use junowen::routes::base_yoteichi_mod;
use junowen::signaling_server::{
    delete_room, post_room_keep, put_room, route, routes, start_post_room_join, start_post_room_keep, start_put_room, Answer, DbReply,
    DbRequest, Endpoint, File, FlowStep, HttpMethod, PutError, PutOutcome, SharedRoom, SharedRoomFlow, SharedRoomResponse,
};

#[test]
fn only_paths_under_custom_are_served() {
    assert_eq!(routes("/custom/room1"), Some("room1".to_string()));
    assert_eq!(routes("/custom/"), Some(String::new()));
    assert_eq!(routes("/other/room1"), None);
    assert_eq!(routes("/cust"), None);
}

#[test]
fn requests_are_routed_by_path_and_method() {
    assert!(matches!(route("room", HttpMethod::Put), Endpoint::PutRoom(n) if n == "room"));
    assert!(matches!(route("room", HttpMethod::Delete), Endpoint::DeleteRoom(n) if n == "room"));
    assert!(matches!(route("room", HttpMethod::Get), Endpoint::MethodNotAllowed));
    assert!(matches!(route("room/join", HttpMethod::Post), Endpoint::PostRoomJoin(n) if n == "room"));
    assert!(matches!(route("room/keep", HttpMethod::Post), Endpoint::PostRoomKeep(n) if n == "room"));
    assert!(matches!(route("room/keep", HttpMethod::Put), Endpoint::MethodNotAllowed));
    assert!(matches!(route("room/other", HttpMethod::Post), Endpoint::NotFound));
    assert!(matches!(route("/join", HttpMethod::Post), Endpoint::NotFound));
    assert!(matches!(route("a/b/join", HttpMethod::Post), Endpoint::NotFound));
    assert!(matches!(route("", HttpMethod::Put), Endpoint::NotFound));
}

#[test]
fn ip_hash_label_uses_kana_in_groups_of_four() {
    assert_eq!(base_yoteichi_mod(0), "ー");
    assert_eq!(base_yoteichi_mod(1), "あ");
    assert_eq!(base_yoteichi_mod(75), "あー");
    assert_eq!(base_yoteichi_mod(75 * 75 * 75 * 75), "あーーー ー");
}

#[test]
fn ttl_is_ten_seconds_later() {
    assert_eq!(ttl_sec(100), 110);
    assert_eq!(RETRY_AFTER_INTERVAL_SEC, 3);
}

#[test]
fn room_expires_after_its_ttl() {
    let room = SharedRoom::new("n".to_string(), "k".to_string(), "sdp".to_string(), 10);
    assert!(!room.is_expired(10));
    assert!(room.is_expired(11));
    assert_eq!(room.into_sdp(), "sdp");
}

fn ask(step: FlowStep) -> DbRequest {
    match step {
        FlowStep::Ask(q) => q,
        other => panic!("expected a request, got {:?}", other),
    }
}

#[test]
fn opening_a_room_without_guest_returns_its_key() {
    let (mut flow, step) = start_put_room("n".to_string(), "key".to_string(), "offer".to_string(), 100);
    assert!(matches!(ask(step), DbRequest::FindRoom(n) if n == "n"));
    let q = ask(flow.on_reply(DbReply::Room(None)));
    match q {
        DbRequest::PutRoom(room) => {
            assert_eq!(room.name(), "n");
            assert_eq!(room.key(), "key");
            assert_eq!(room.sdp(), "offer");
            assert_eq!(room.ttl_sec(), 110);
        },
        _ => panic!("expected the room to be written"),
    }
    let q = ask(flow.on_reply(DbReply::Put(PutOutcome::Written)));
    assert!(matches!(q, DbRequest::RemoveAnswer(n) if n == "n"));
    let step = flow.on_reply(DbReply::Answer(None));
    assert!(matches!(step, FlowStep::Respond(SharedRoomResponse::CreatedWithKey(k)) if k == "key"));
    assert!(matches!(flow, SharedRoomFlow::Finished));
}

#[test]
fn opening_a_room_with_a_waiting_guest_returns_the_answer() {
    let (mut flow, _) = start_put_room("n".to_string(), "key".to_string(), "offer".to_string(), 100);
    ask(flow.on_reply(DbReply::Room(None)));
    ask(flow.on_reply(DbReply::Put(PutOutcome::Written)));
    let answer = Answer::new("n".to_string(), "ans".to_string(), 105);
    let q = ask(flow.on_reply(DbReply::Answer(Some(answer))));
    assert!(matches!(q, DbRequest::RemoveRoom(n, None) if n == "n"));
    let step = flow.on_reply(DbReply::Flag(true));
    assert!(matches!(step, FlowStep::Respond(SharedRoomResponse::CreatedWithAnswer(a)) if a == "ans"));
}

#[test]
fn opening_a_live_room_conflicts_and_an_expired_one_is_replaced() {
    let (mut flow, _) = start_put_room("n".to_string(), "key".to_string(), "mine".to_string(), 100);
    let live = SharedRoom::new("n".to_string(), "other".to_string(), "theirs".to_string(), 100);
    let step = flow.on_reply(DbReply::Room(Some(live)));
    assert!(matches!(step, FlowStep::Respond(SharedRoomResponse::Conflict(o)) if o == "theirs"));

    let (mut flow, _) = start_put_room("n".to_string(), "key".to_string(), "mine".to_string(), 100);
    let old = SharedRoom::new("n".to_string(), "other".to_string(), "theirs".to_string(), 99);
    assert!(matches!(ask(flow.on_reply(DbReply::Room(Some(old)))), DbRequest::RemoveRoom(n, None) if n == "n"));
    assert!(matches!(ask(flow.on_reply(DbReply::Flag(true))), DbRequest::RemoveAnswer(n) if n == "n"));
    assert!(matches!(ask(flow.on_reply(DbReply::Answer(None))), DbRequest::PutRoom(_)));
    // a write that conflicts starts over
    assert!(matches!(ask(flow.on_reply(DbReply::Put(PutOutcome::Conflict))), DbRequest::FindRoom(_)));
    let step = flow.on_reply(DbReply::Failed("db down".to_string()));
    assert!(matches!(step, FlowStep::Fail(e) if e == "db down"));
}

#[test]
fn keeping_needs_a_uuid_key() {
    let (flow, step) = post_room_keep("n".to_string(), "not-a-uuid".to_string());
    assert!(matches!(flow, SharedRoomFlow::Finished));
    assert!(matches!(step, FlowStep::Respond(SharedRoomResponse::BadRequest)));
    let (_, step) = post_room_keep("n".to_string(), "550e8400-e29b-41d4-a716-446655440000".to_string());
    assert!(matches!(step, FlowStep::Ask(DbRequest::KeepRoom(n, k, _)) if n == "n" && k == "550e8400-e29b-41d4-a716-446655440000"));
}

#[test]
fn keeping_a_room_reports_an_answer_or_asks_to_wait() {
    let (mut flow, step) = start_post_room_keep("n".to_string(), "k".to_string(), true, 200);
    assert!(matches!(step, FlowStep::Ask(DbRequest::KeepRoom(_, _, 210))));
    assert!(matches!(ask(flow.on_reply(DbReply::Flag(true))), DbRequest::RemoveAnswer(_)));
    assert!(matches!(flow.on_reply(DbReply::Answer(None)), FlowStep::Respond(SharedRoomResponse::KeepNoContent)));
    let (mut flow, _) = start_post_room_keep("n".to_string(), "k".to_string(), true, 200);
    assert!(matches!(flow.on_reply(DbReply::Flag(false)), FlowStep::Respond(SharedRoomResponse::BadRequest)));
}

#[test]
fn closing_and_joining() {
    let (mut flow, step) = delete_room("n".to_string(), "k".to_string());
    assert!(matches!(step, FlowStep::Ask(DbRequest::RemoveRoom(n, Some(k))) if n == "n" && k == "k"));
    assert!(matches!(ask(flow.on_reply(DbReply::Flag(true))), DbRequest::RemoveAnswer(_)));
    assert!(matches!(flow.on_reply(DbReply::Answer(None)), FlowStep::Respond(SharedRoomResponse::DeleteNoContent)));
    let (mut flow, _) = delete_room("n".to_string(), "wrong".to_string());
    assert!(matches!(flow.on_reply(DbReply::Flag(false)), FlowStep::Respond(SharedRoomResponse::BadRequest)));

    let (mut flow, step) = start_post_room_join("n".to_string(), "ans".to_string(), 5);
    assert!(matches!(step, FlowStep::Ask(DbRequest::PutAnswer(a)) if a.name() == "n" && a.sdp() == "ans"));
    assert!(matches!(flow.on_reply(DbReply::Put(PutOutcome::Conflict)), FlowStep::Respond(SharedRoomResponse::JoinConflict)));
    let (mut flow, _) = start_post_room_join("n".to_string(), "ans".to_string(), 5);
    assert!(matches!(flow.on_reply(DbReply::Put(PutOutcome::Written)), FlowStep::Respond(SharedRoomResponse::JoinOk)));
}

#[test]
fn a_reply_that_does_not_fit_fails() {
    let (mut flow, _) = delete_room("n".to_string(), "k".to_string());
    assert!(matches!(flow.on_reply(DbReply::Answer(None)), FlowStep::Fail(e) if e == "unexpected reply"));
}

#[test]
fn file_tables_refuse_a_second_room_of_a_name() {
    let mut rooms = Vec::new();
    assert!(File::put_room(&mut rooms, SharedRoom::new("a".to_string(), "k".to_string(), "s".to_string(), 1)).is_ok());
    assert!(File::put_room(&mut rooms, SharedRoom::new("b".to_string(), "k".to_string(), "t".to_string(), 1)).is_ok());
    assert!(matches!(
        File::put_room(&mut rooms, SharedRoom::new("a".to_string(), "x".to_string(), "u".to_string(), 2)),
        Err(PutError::Conflict)
    ));
    assert_eq!(rooms.len(), 2);
    assert_eq!(File::find_room(&rooms, "b").unwrap().sdp(), "t");
    assert!(File::find_room(&rooms, "c").is_none());
    let mut answers = Vec::new();
    assert!(File::put_room_opponent_answer(&mut answers, Answer::new("a".to_string(), "x".to_string(), 1)).is_ok());
    assert!(File::put_room_opponent_answer(&mut answers, Answer::new("a".to_string(), "y".to_string(), 1)).is_err());
}

#[test]
fn retry_after_reads_a_number() {
    assert_eq!(retry_after(Some(b"3")), Some(3));
    assert_eq!(retry_after(Some(b"+12")), Some(12));
    assert_eq!(retry_after(Some(b"4294967295")), Some(4294967295));
    assert_eq!(retry_after(Some(b"4294967296")), None);
    assert_eq!(retry_after(Some(b" 3")), None);
    assert_eq!(retry_after(Some(b"")), None);
    assert_eq!(retry_after(Some(b"+")), None);
    assert_eq!(retry_after(Some(&[0xff])), None);
    assert_eq!(retry_after(None), None);
}

#[test]
fn offering_waits_keeps_and_ends_with_an_answer() {
    let socket = SignalingServerSocket::new("https://s".to_string(), "room".to_string());
    let (mut flow, action) = socket.offer("sdp".to_string());
    assert!(matches!(action, OfferAction::Put(u, o) if u == "https://s/custom/room" && o == "sdp"));
    let a = flow.on_event(OfferEvent::Put(PutOfferReply::CreatedWithKey(3, "key".to_string())));
    assert!(matches!(a, OfferAction::Wait(3)));
    let a = flow.on_event(OfferEvent::Waited(false));
    assert!(matches!(a, OfferAction::Keep(u, k) if u == "https://s/custom/room/keep" && k == "key"));
    let a = flow.on_event(OfferEvent::Keep(KeepReply::NoContent(2)));
    assert!(matches!(a, OfferAction::Wait(2)));
    flow.on_event(OfferEvent::Waited(false));
    let a = flow.on_event(OfferEvent::Keep(KeepReply::Answered(Some("ans".to_string()))));
    assert!(matches!(a, OfferAction::Done(OfferResponse::Answer(x)) if x == "ans"));
}

#[test]
fn offering_gives_up_when_aborted_and_fails_on_a_full_room() {
    let mut socket = SignalingServerReservedRoomOpponentSocket::new("o".to_string(), "r".to_string());
    let (mut flow, action) = socket.offer("sdp".to_string());
    assert!(matches!(action, OfferAction::Put(u, _) if u == "o/reserved-room/r"));
    flow.on_event(OfferEvent::Put(PutOfferReply::CreatedWithKey(3, "key".to_string())));
    socket.set_key(&flow);
    let a = flow.on_event(OfferEvent::Waited(true));
    assert!(matches!(a, OfferAction::Delete(u, k) if u == "o/reserved-room/r" && k == "key"));
    let a = flow.on_event(OfferEvent::Deleted);
    assert!(matches!(a, OfferAction::Fail(e) if e == "abort"));
    assert_eq!(socket.into_key(), Some("key".to_string()));

    let (mut flow, _) = OfferFlow::start("u".to_string(), "sdp".to_string());
    let a = flow.on_event(OfferEvent::Put(PutOfferReply::Conflict(None)));
    assert!(matches!(a, OfferAction::Fail(e) if e == "room is full"));
    let (mut flow, _) = OfferFlow::start("u".to_string(), "sdp".to_string());
    let a = flow.on_event(OfferEvent::Put(PutOfferReply::Conflict(Some("host".to_string()))));
    assert!(matches!(a, OfferAction::Done(OfferResponse::Offer(x)) if x == "host"));
}

#[test]
fn spectators_wait_for_the_match_to_start() {
    assert!(spectator_poll(None, SpectatedRoom::NotFound).is_err());
    assert!(matches!(
        spectator_poll(Some(3), SpectatedRoom::NotFound),
        Ok(SpectatorPoll::Error(SignalingServerReservedRoomSpectatorSocketError::RoomNotFound))
    ));
    assert!(matches!(
        spectator_poll(Some(3), SpectatedRoom::Found(true, None)),
        Ok(SpectatorPoll::Error(SignalingServerReservedRoomSpectatorSocketError::MatchIsNotStarted))
    ));
    assert!(matches!(spectator_poll(Some(3), SpectatedRoom::Found(false, None)), Ok(SpectatorPoll::Wait(3))));
    assert!(matches!(
        spectator_poll(Some(3), SpectatedRoom::Found(false, Some("o".to_string()))),
        Ok(SpectatorPoll::Offer(o)) if o == "o"
    ));
    assert_eq!(SignalingServerReservedRoomSpectatorSocketError::RoomNotFound.message(), "room not found");
}

#[test]
fn an_issued_key_passes_the_key_check_of_keeping() {
    let (flow, step) = put_room("n".to_string(), "offer".to_string());
    assert!(matches!(ask(step), DbRequest::FindRoom(n) if n == "n"));
    let key = match flow {
        SharedRoomFlow::PutFinding { room, .. } => room.key().clone(),
        _ => panic!("expected the name to be looked up"),
    };
    assert_eq!(key.len(), 36);
    let (_, step) = post_room_keep("n".to_string(), key.clone());
    assert!(matches!(ask(step), DbRequest::KeepRoom(n, k, _) if n == "n" && k == key));
}

#[test]
fn the_file_store_removes_keeps_and_hands_out() {
    let mut rooms = Vec::new();
    File::put_room(&mut rooms, SharedRoom::new("a".to_string(), "k".to_string(), "s".to_string(), 1)).unwrap();
    File::put_room(&mut rooms, SharedRoom::new("b".to_string(), "k".to_string(), "t".to_string(), 1)).unwrap();
    assert!(File::keep_room(&mut rooms, "a", "k", 50));
    assert_eq!(File::find_room(&rooms, "a").unwrap().ttl_sec(), 50);
    assert!(!File::keep_room(&mut rooms, "a", "wrong", 60));
    assert_eq!(File::find_room(&rooms, "a").unwrap().ttl_sec(), 50);
    assert!(!File::remove_room(&mut rooms, "a", Some("wrong".to_string())));
    assert_eq!(rooms.len(), 2);
    assert!(File::remove_room(&mut rooms, "a", Some("k".to_string())));
    assert!(File::find_room(&rooms, "a").is_none());
    assert!(File::remove_room(&mut rooms, "b", None));
    assert!(rooms.is_empty());
    let mut answers = Vec::new();
    File::put_room_opponent_answer(&mut answers, Answer::new("a".to_string(), "x".to_string(), 1)).unwrap();
    File::put_room_opponent_answer(&mut answers, Answer::new("b".to_string(), "y".to_string(), 1)).unwrap();
    assert!(File::remove_room_opponent_answer(&mut answers, "c").is_none());
    assert_eq!(File::remove_room_opponent_answer(&mut answers, "b").unwrap().sdp(), "y");
    assert_eq!(answers.len(), 1);
    assert_eq!(answers[0].name(), "a");
}

#[test]
fn waiting_answers_carry_retry_after() {
    assert_eq!(SharedRoomResponse::CreatedWithKey("k".to_string()).retry_after(), Some(3));
    assert_eq!(SharedRoomResponse::Conflict("o".to_string()).retry_after(), Some(3));
    assert_eq!(SharedRoomResponse::KeepNoContent.retry_after(), Some(3));
    assert_eq!(SharedRoomResponse::KeepOk("a".to_string()).retry_after(), None);
    assert_eq!(SharedRoomResponse::BadRequest.retry_after(), None);
}

#[test]
fn every_uuid_form_passes_the_key_check() {
    for key in [
        "67e55044-10b1-426f-9247-bb680e5fe0c8",
        "67E5504410B1426F9247BB680E5FE0C8",
        "{67e55044-10b1-426f-9247-bb680e5fe0c8}",
        "URN:uuid:67e55044-10b1-426f-9247-bb680e5fe0c8",
    ] {
        let (_, step) = post_room_keep("n".to_string(), key.to_string());
        assert!(matches!(step, FlowStep::Ask(DbRequest::KeepRoom(..))), "{}", key);
    }
    for key in ["67e55044-10b1-426f-9247-bb680e5fe0cg", "67e55044_10b1-426f-9247-bb680e5fe0c8", ""] {
        let (_, step) = post_room_keep("n".to_string(), key.to_string());
        assert!(matches!(step, FlowStep::Respond(SharedRoomResponse::BadRequest)), "{}", key);
    }
}
