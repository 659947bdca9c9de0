use vstd::prelude::*;

verus! {

/// Seconds to wait after a failed signaling attempt before the next one.
pub const SIGNALING_RETRY_INTERVAL_SEC: u64 = 3;

/// What follows a signaling attempt while a room is waited in.
#[derive(Clone, Copy, Debug, PartialEq, Eq, Structural)]
pub enum SignalingAttempt {
    /// The peers are connected: the session starts.
    Connected,
    /// The attempt failed and the wait was given up: stop quietly.
    Canceled,
    /// The attempt failed: report the error, wait this many seconds, try again.
    RetryAfter(u64),
}

/// The next move of the signaling loop after an attempt that `succeeded`
/// or not, with the wait `aborted` or not. Success wins over an abort.
pub fn after_signaling_attempt(succeeded: bool, aborted: bool) -> (r: SignalingAttempt)
    ensures
        succeeded ==> r == SignalingAttempt::Connected,
        !succeeded && aborted ==> r == SignalingAttempt::Canceled,
        !succeeded && !aborted ==> r == SignalingAttempt::RetryAfter(SIGNALING_RETRY_INTERVAL_SEC),
{
    if succeeded {
        SignalingAttempt::Connected
    } else if aborted {
        SignalingAttempt::Canceled
    } else {
        SignalingAttempt::RetryAfter(SIGNALING_RETRY_INTERVAL_SEC)
    }
}

/// What the lobby keeps while it waits in a room for a match: the room's
/// name and the signaling errors reported so far. The signaling runs on
/// its own and hands over its errors and, at the end, the session.
pub struct WaitingInRoom {
    room_name: String,
    errors: Vec<String>,
}

/// `WaitingInRoom` as values.
pub struct WaitingInRoomView {
    pub room_name: Seq<char>,
    pub errors: Seq<Seq<char>>,
}

impl View for WaitingInRoom {
    type V = WaitingInRoomView;

    closed spec fn view(&self) -> WaitingInRoomView {
        WaitingInRoomView { room_name: self.room_name@, errors: self.errors@.map_values(|e: String| e@) }
    }
}

/// The wait in a shared room.
pub type WaitingInSharedRoom = WaitingInRoom;

impl WaitingInRoom {
    /// A wait in the room `room_name`, with no error yet.
    pub fn new(room_name: String) -> (r: WaitingInRoom)
        ensures
            r@ == (WaitingInRoomView { room_name: room_name@, errors: Seq::empty() }),
    {
        let r = WaitingInRoom { room_name, errors: Vec::new() };
        assert(r@.errors =~= Seq::<Seq<char>>::empty());
        r
    }

    pub fn room_name(&self) -> (r: &str)
        ensures
            r@ == self@.room_name,
    {
        self.room_name.as_str()
    }

    /// The errors reported so far, oldest first.
    pub fn errors(&self) -> (r: &Vec<String>)
        ensures
            r@.map_values(|e: String| e@) == self@.errors,
    {
        &self.errors
    }

    /// Takes the error the signaling reported since the last call, if any.
    pub fn recv(&mut self, error: Option<String>)
        ensures
            final(self)@.room_name == old(self)@.room_name,
            final(self)@.errors == match error {
                Some(e) => old(self)@.errors.push(e@),
                None => old(self)@.errors,
            },
    {
        if let Some(e) = error {
            self.errors.push(e);
            proof {
                assert(self@.errors =~= old(self)@.errors.push(e@));
            }
        }
    }

    /// The session, once the signaling has handed one over; else the wait
    /// goes on unchanged.
    pub fn try_into_session<S>(self, session: Option<S>) -> (r: Result<S, WaitingInRoom>)
        ensures
            match session {
                Some(s) => r == Ok::<S, WaitingInRoom>(s),
                None => r matches Err(w) && w@ == self@,
            },
    {
        match session {
            Some(s) => Ok(s),
            None => Err(self),
        }
    }
}

} // verus!
