use vstd::prelude::*;

verus! {

/// A message from the console to the module loaded in the game.
#[derive(Clone, Copy, Debug, PartialEq, Eq, Structural)]
pub enum IpcMessageToHook {
    /// Set the input delay, in frames.
    Delay(u8),
}

/// A message from the module loaded in the game to the console.
#[derive(Debug)]
pub enum IpcMessageToCui {
    /// The module's version.
    Version(String),
    Connected,
    Disconnected,
}

/// Why the console does not talk to the module loaded in the game.
#[derive(Clone, Copy, Debug, PartialEq, Eq, Structural)]
pub enum VersionCheckError {
    /// The first message is not the module's version.
    UnexpectedMessage,
    /// The module is another version than the console.
    VersionMismatch,
}

/// The first message of the module must be its version, equal to the
/// console's own.
pub fn check_version_message(msg: &IpcMessageToCui, version: &str) -> (r: Result<(), VersionCheckError>)
    ensures
        match msg {
            IpcMessageToCui::Version(v) => if v@ == version@ {
                r is Ok
            } else {
                r == Err::<(), VersionCheckError>(VersionCheckError::VersionMismatch)
            },
            _ => r == Err::<(), VersionCheckError>(VersionCheckError::UnexpectedMessage),
        },
{
    match msg {
        IpcMessageToCui::Version(v) => {
            if crate::cui::same_text(v.as_str(), version) {
                Ok(())
            } else {
                Err(VersionCheckError::VersionMismatch)
            }
        },
        _ => Err(VersionCheckError::UnexpectedMessage),
    }
}

/// Whether two texts are equal.
pub fn same_text(a: &str, b: &str) -> (r: bool)
    ensures
        r == (a@ == b@),
{
    let n = a.unicode_len();
    if n != b.unicode_len() {
        proof {
            assert(a@.len() != b@.len());
        }
        return false;
    }
    let mut i: usize = 0;
    while i < n
        invariant
            n == a@.len(),
            n == b@.len(),
            i <= n,
            forall|j: int| 0 <= j < i ==> a@[j] == b@[j],
        decreases n - i,
    {
        if a.get_char(i) != b.get_char(i) {
            proof {
                assert(a@[i as int] != b@[i as int]);
            }
            return false;
        }
        i = i + 1;
    }
    assert(a@ =~= b@);
    true
}

// Connecting the console to the module in the game.

/// Where the console stands in connecting to the module in the game.
#[derive(Clone, Copy, Debug, PartialEq, Eq, Structural)]
pub enum PipeState {
    /// The pipe was first tried.
    Start,
    /// The module is being loaded into the game; `announced` tells whether
    /// the wait for the game's process was told already.
    Injecting { announced: bool },
    /// Waiting a second before loading the module again.
    InjectPause { announced: bool },
    /// The module is loaded; the pipe is being opened.
    Opening,
    /// Waiting a second before opening the pipe again.
    OpenPause,
    /// The pipe is open; the module's version is being read.
    CheckingVersion,
    /// Done.
    Finished,
}

/// What happened with the last thing the console did.
#[derive(Clone, Copy, Debug)]
pub enum PipeEvent {
    /// The pipe opened.
    Opened,
    /// The pipe did not open.
    OpenFailed,
    /// The module was loaded into the game.
    Injected,
    /// The module's file is not there.
    DllNotFound,
    /// The game is not running.
    ProcessNotFound,
    /// The pause is over.
    Waited,
    /// The module's first message was read and checked.
    Version(Result<(), VersionCheckError>),
    /// The module's first message could not be read.
    Unreadable,
}

/// What the console tells the player.
#[derive(Clone, Copy, Debug, PartialEq, Eq, Structural)]
pub enum PipeMessage {
    /// "Module already loaded by th19.exe."
    AlreadyLoaded,
    /// "junowen_hook.dll not found."
    DllNotFound,
    /// "th19.exe process not found: " with the error, then "waiting for
    /// th19.exe process...".
    WaitingForProcess,
    /// "Module loaded by th19.exe."
    Loaded,
    /// "Failed to communicate with junowen_hook.dll: " with the error.
    CommunicationFailed,
}

/// What the console does next.
#[derive(Clone, Copy, Debug, PartialEq, Eq, Structural)]
pub enum PipeOp {
    /// Open the pipe.
    OpenPipe,
    /// Load the module into the game.
    InjectDll,
    /// Wait a second.
    Pause,
    /// Read the module's first message and check its version.
    CheckVersion,
    /// Stop: with the pipe (`true`) or without.
    Finish(bool),
}

/// A step of the connection: a message to show, if any, and what to do.
#[derive(Clone, Copy, Debug, PartialEq, Eq, Structural)]
pub struct PipeAction {
    pub message: Option<PipeMessage>,
    pub op: PipeOp,
}

/// Connecting starts by opening the pipe.
pub open spec fn pipe_start_spec() -> (PipeState, PipeAction) {
    (PipeState::Start, PipeAction { message: None, op: PipeOp::OpenPipe })
}

/// The connection takes an event: an open pipe means the module was
/// loaded already; otherwise the module is loaded into the game, a
/// missing game being waited for (told once) and a missing module file
/// giving up; then the pipe is opened, once a second until it opens; then
/// the module's version must match, or the console gives up.
pub open spec fn pipe_next_spec(s: PipeState, e: PipeEvent) -> (PipeState, PipeAction) {
    let act = |message: Option<PipeMessage>, op: PipeOp| PipeAction { message, op };
    let fail = (PipeState::Finished, act(None, PipeOp::Finish(false)));
    match (s, e) {
        (PipeState::Start, PipeEvent::Opened) => (
            PipeState::CheckingVersion,
            act(Some(PipeMessage::AlreadyLoaded), PipeOp::CheckVersion),
        ),
        (PipeState::Start, PipeEvent::OpenFailed) => (PipeState::Injecting { announced: false }, act(None, PipeOp::InjectDll)),
        (PipeState::Injecting { .. }, PipeEvent::Injected) => (PipeState::Opening, act(None, PipeOp::OpenPipe)),
        (PipeState::Injecting { .. }, PipeEvent::DllNotFound) => (
            PipeState::Finished,
            act(Some(PipeMessage::DllNotFound), PipeOp::Finish(false)),
        ),
        (PipeState::Injecting { announced }, PipeEvent::ProcessNotFound) => (
            PipeState::InjectPause { announced: true },
            act(if announced { None } else { Some(PipeMessage::WaitingForProcess) }, PipeOp::Pause),
        ),
        (PipeState::InjectPause { announced }, PipeEvent::Waited) => (
            PipeState::Injecting { announced },
            act(None, PipeOp::InjectDll),
        ),
        (PipeState::Opening, PipeEvent::Opened) => (PipeState::CheckingVersion, act(Some(PipeMessage::Loaded), PipeOp::CheckVersion)),
        (PipeState::Opening, PipeEvent::OpenFailed) => (PipeState::OpenPause, act(None, PipeOp::Pause)),
        (PipeState::OpenPause, PipeEvent::Waited) => (PipeState::Opening, act(None, PipeOp::OpenPipe)),
        (PipeState::CheckingVersion, PipeEvent::Version(Ok(()))) => (PipeState::Finished, act(None, PipeOp::Finish(true))),
        (PipeState::CheckingVersion, PipeEvent::Version(Err(_))) => (
            PipeState::Finished,
            act(Some(PipeMessage::CommunicationFailed), PipeOp::Finish(false)),
        ),
        (PipeState::CheckingVersion, PipeEvent::Unreadable) => (
            PipeState::Finished,
            act(Some(PipeMessage::CommunicationFailed), PipeOp::Finish(false)),
        ),
        _ => fail,
    }
}

/// The first step of connecting (see `pipe_start_spec`).
pub fn pipe_start() -> (r: (PipeState, PipeAction))
    ensures
        r == pipe_start_spec(),
{
    (PipeState::Start, PipeAction { message: None, op: PipeOp::OpenPipe })
}

/// The next step of connecting (see `pipe_next_spec`); an event that does
/// not fit the state stops the connection.
pub fn pipe_next(s: PipeState, e: PipeEvent) -> (r: (PipeState, PipeAction))
    ensures
        r == pipe_next_spec(s, e),
{
    let fail = (PipeState::Finished, PipeAction { message: None, op: PipeOp::Finish(false) });
    match (s, e) {
        (PipeState::Start, PipeEvent::Opened) => (
            PipeState::CheckingVersion,
            PipeAction { message: Some(PipeMessage::AlreadyLoaded), op: PipeOp::CheckVersion },
        ),
        (PipeState::Start, PipeEvent::OpenFailed) => (
            PipeState::Injecting { announced: false },
            PipeAction { message: None, op: PipeOp::InjectDll },
        ),
        (PipeState::Injecting { .. }, PipeEvent::Injected) => (PipeState::Opening, PipeAction { message: None, op: PipeOp::OpenPipe }),
        (PipeState::Injecting { .. }, PipeEvent::DllNotFound) => (
            PipeState::Finished,
            PipeAction { message: Some(PipeMessage::DllNotFound), op: PipeOp::Finish(false) },
        ),
        (PipeState::Injecting { announced }, PipeEvent::ProcessNotFound) => (
            PipeState::InjectPause { announced: true },
            PipeAction { message: if announced { None } else { Some(PipeMessage::WaitingForProcess) }, op: PipeOp::Pause },
        ),
        (PipeState::InjectPause { announced }, PipeEvent::Waited) => (
            PipeState::Injecting { announced },
            PipeAction { message: None, op: PipeOp::InjectDll },
        ),
        (PipeState::Opening, PipeEvent::Opened) => (
            PipeState::CheckingVersion,
            PipeAction { message: Some(PipeMessage::Loaded), op: PipeOp::CheckVersion },
        ),
        (PipeState::Opening, PipeEvent::OpenFailed) => (PipeState::OpenPause, PipeAction { message: None, op: PipeOp::Pause }),
        (PipeState::OpenPause, PipeEvent::Waited) => (PipeState::Opening, PipeAction { message: None, op: PipeOp::OpenPipe }),
        (PipeState::CheckingVersion, PipeEvent::Version(Ok(()))) => (
            PipeState::Finished,
            PipeAction { message: None, op: PipeOp::Finish(true) },
        ),
        (PipeState::CheckingVersion, PipeEvent::Version(Err(_))) => (
            PipeState::Finished,
            PipeAction { message: Some(PipeMessage::CommunicationFailed), op: PipeOp::Finish(false) },
        ),
        (PipeState::CheckingVersion, PipeEvent::Unreadable) => (
            PipeState::Finished,
            PipeAction { message: Some(PipeMessage::CommunicationFailed), op: PipeOp::Finish(false) },
        ),
        _ => fail,
    }
}

/// Law: while the game is not running, the console says so once: however
/// many times loading the module finds no game, only the first time
/// brings a message.
pub proof fn law_missing_game_is_told_once(announced: bool)
    ensures
        ({
            let (s1, a1) = pipe_next_spec(PipeState::Injecting { announced }, PipeEvent::ProcessNotFound);
            let (s2, a2) = pipe_next_spec(s1, PipeEvent::Waited);
            let (s3, a3) = pipe_next_spec(s2, PipeEvent::ProcessNotFound);
            &&& a1.message == (if announced { None } else { Some(PipeMessage::WaitingForProcess) })
            &&& a2 == PipeAction { message: None, op: PipeOp::InjectDll }
            &&& a3.message is None
            &&& s3 == PipeState::InjectPause { announced: true }
        }),
{
}

} // verus!
