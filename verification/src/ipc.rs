//! Single-instance IPC: the decisions of the protocol by which a second
//! instance hands its paths to the running (primary) instance.
//!
//! The primary instance listens on a local socket; a second instance connects,
//! sends one message per path as JSON Lines and exits:
//!
//! ```json
//! {"type":"file","path":"/path/to/file.md"}
//! {"type":"directory","path":"/path/to/dir"}
//! {"type":"reopen"}
//! ```
//!
//! The socket itself, the file-system queries and the JSON encoding are done
//! by the caller; this module decides what is sent, what a received message
//! means, where the socket lives and how a listener is set up.

use vstd::prelude::*;

use crate::paths::{join, join_path};
use crate::text::{decimal, push_decimal};

verus! {

/// Socket name for IPC communication.
pub const SOCKET_NAME: &'static str = "com.lambdalisue.arto.sock";

/// Timeout for IPC operations (connection, read, write), in seconds.
pub const IPC_TIMEOUT_SECS: u64 = 5;

/// Timeout of the connection attempt that tells a live socket from a stale one, in seconds.
pub const STALE_CHECK_TIMEOUT_SECS: u64 = 1;

/// The text of `SOCKET_NAME`.
pub open spec fn socket_name() -> Seq<char> {
    "com.lambdalisue.arto.sock"@
}

/// Where the socket lives: in the user's runtime directory when there is one,
/// else in a per-user directory under `/tmp`.
pub open spec fn socket_path_spec(runtime_dir: Option<Seq<char>>, uid: nat) -> Seq<char> {
    match runtime_dir {
        Some(dir) => join_path(dir, socket_name()),
        None => join_path("/tmp/arto-"@ + decimal(uid), socket_name()),
    }
}

/// The platform socket path (Unix) with user isolation: `runtime_dir` is the
/// user's runtime directory (already private to the user), `uid` the user id.
pub fn socket_path(runtime_dir: Option<&str>, uid: u32) -> (path: String)
    ensures
        path@ == socket_path_spec(
            match runtime_dir {
                Some(dir) => Some(dir@),
                None => None,
            },
            uid as nat,
        ),
{
    proof {
        reveal_strlit("com.lambdalisue.arto.sock");
        reveal_strlit("/tmp/arto-");
    }
    match runtime_dir {
        Some(dir) => join(dir, SOCKET_NAME),
        None => {
            let mut base = String::from_str("/tmp/arto-");
            push_decimal(&mut base, uid as u128);
            join(base.as_str(), SOCKET_NAME)
        },
    }
}

/// Whether an I/O error code means "address already in use": `raw_os_error`
/// is the error's OS code, `address_in_use_code` the platform's code for it.
pub fn is_address_in_use(raw_os_error: Option<i32>, address_in_use_code: i32) -> (in_use: bool)
    ensures
        in_use == (raw_os_error == Some(address_in_use_code)),
{
    match raw_os_error {
        Some(code) => code == address_in_use_code,
        None => false,
    }
}

/// What a new instance asks the primary instance to do.
#[derive(Debug, Clone, PartialEq, Eq)]
pub enum OpenEvent {
    /// Open a file.
    File(String),
    /// Open a directory (set as sidebar root).
    Directory(String),
    /// Reopen/activate the application.
    Reopen,
}

/// IPC message types sent between instances, one JSON object per line.
#[derive(Debug, Clone, PartialEq, Eq)]
pub enum IpcMessage {
    /// Open a file.
    File { path: String },
    /// Open a directory (set as sidebar root).
    Directory { path: String },
    /// Reopen/activate the application (no arguments provided).
    Reopen,
}

/// The event a message stands for.
pub open spec fn open_event_of(message: IpcMessage) -> OpenEvent {
    match message {
        IpcMessage::File { path } => OpenEvent::File(path),
        IpcMessage::Directory { path } => OpenEvent::Directory(path),
        IpcMessage::Reopen => OpenEvent::Reopen,
    }
}

impl IpcMessage {
    /// Convert to the event it stands for.
    pub fn into_open_event(self) -> (event: OpenEvent)
        ensures
            event == open_event_of(self),
    {
        match self {
            IpcMessage::File { path } => OpenEvent::File(path),
            IpcMessage::Directory { path } => OpenEvent::Directory(path),
            IpcMessage::Reopen => OpenEvent::Reopen,
        }
    }
}

/// What a path given on the command line turned out to be.
#[derive(Debug, Clone, Copy, PartialEq, Eq, Structural)]
pub enum PathKind {
    Directory,
    File,
    /// Neither a file nor a directory (for instance, it does not exist).
    Missing,
}

/// A command-line path after canonicalization (or as given, when that
/// failed), with what it refers to.
#[derive(Debug, Clone)]
pub struct ResolvedPath {
    pub path: String,
    pub kind: PathKind,
}

/// The message sent for one path: directories are opened as the sidebar
/// root; everything else, including a path that is neither a file nor a
/// directory, is sent to be opened as a file.
pub open spec fn message_for(p: ResolvedPath) -> IpcMessage {
    match p.kind {
        PathKind::Directory => IpcMessage::Directory { path: p.path },
        _ => IpcMessage::File { path: p.path },
    }
}

/// The messages a new instance sends: `Reopen` alone when no path was
/// given; otherwise one message for every path, in order.
pub open spec fn messages_to_send(paths: Seq<ResolvedPath>) -> Seq<IpcMessage> {
    if paths.len() == 0 {
        seq![IpcMessage::Reopen]
    } else {
        paths.map_values(|p: ResolvedPath| message_for(p))
    }
}

/// The path a message carries, if any.
pub open spec fn message_path(m: IpcMessage) -> Option<String> {
    match m {
        IpcMessage::File { path } => Some(path),
        IpcMessage::Directory { path } => Some(path),
        IpcMessage::Reopen => None,
    }
}

/// Build the messages to send to the primary instance (see `messages_to_send`).
pub fn messages_for_paths(paths: &[ResolvedPath]) -> (messages: Vec<IpcMessage>)
    ensures
        messages@ == messages_to_send(paths@),
{
    if paths.len() == 0 {
        let mut messages = Vec::new();
        messages.push(IpcMessage::Reopen);
        proof {
            assert(messages@ =~= seq![IpcMessage::Reopen]);
        }
        return messages;
    }
    let mut messages: Vec<IpcMessage> = Vec::new();
    let n = paths.len();
    let mut i: usize = 0;
    while i < n
        invariant
            n == paths@.len(),
            i <= n,
            messages@ == paths@.take(i as int).map_values(|p: ResolvedPath| message_for(p)),
        decreases n - i,
    {
        let path = &paths[i];
        match path.kind {
            PathKind::Directory => messages.push(IpcMessage::Directory { path: path.path.clone() }),
            _ => messages.push(IpcMessage::File { path: path.path.clone() }),
        }
        proof {
            assert(messages@ =~= paths@.take(i + 1).map_values(|p: ResolvedPath| message_for(p)));
        }
        i = i + 1;
    }
    proof {
        assert(paths@.take(n as int) =~= paths@);
    }
    messages
}

/// Every given path is sent, in order, one message each; without paths,
/// exactly one `Reopen` is sent. So a connected send never sends nothing.
/// The `i`-th message opens a directory exactly when the `i`-th path is a
/// directory, and is a file message otherwise, however many paths there are.
pub proof fn law_every_path_is_sent(paths: Seq<ResolvedPath>)
    ensures
        messages_to_send(paths).len() >= 1,
        paths.len() > 0 ==> messages_to_send(paths).len() == paths.len(),
        paths.len() > 0 ==> forall|i: int|
            0 <= i < paths.len() ==> message_path(#[trigger] messages_to_send(paths)[i]) == Some(
                paths[i].path,
            ),
        paths.len() > 0 ==> forall|i: int|
            0 <= i < paths.len() ==> {
                &&& (#[trigger] messages_to_send(paths)[i] is Directory <==> paths[i].kind
                    == PathKind::Directory)
                &&& (messages_to_send(paths)[i] is File <==> paths[i].kind != PathKind::Directory)
            },
        paths.len() == 0 ==> messages_to_send(paths) == seq![IpcMessage::Reopen],
{
}

/// A message read from a connection: `line` is the line as read, `parsed`
/// the message it decodes to, if it does. Empty lines and lines that are not
/// a message are skipped.
pub fn event_from_line(line: &str, parsed: Option<IpcMessage>) -> (event: Option<OpenEvent>)
    ensures
        line@.len() == 0 ==> event is None,
        line@.len() > 0 ==> event == match parsed {
            Some(m) => Some(open_event_of(m)),
            None => None,
        },
{
    if line.is_empty() {
        return None;
    }
    match parsed {
        Some(message) => Some(message.into_open_event()),
        None => None,
    }
}

/// Result of trying to send paths to an existing instance.
#[derive(Debug, Clone, Copy, PartialEq, Eq, Structural)]
pub enum SendResult {
    /// Successfully sent paths to existing instance - caller should exit.
    Sent,
    /// No existing instance found - caller should become primary.
    NoExistingInstance,
}

/// The outcome of handing the paths over: `connected` tells whether an
/// existing instance accepted the connection in time, `delivered` whether all
/// messages were written and flushed. When the primary instance crashes
/// during the send, the caller becomes the primary instance.
pub fn send_result(connected: bool, delivered: bool) -> (result: SendResult)
    ensures
        result == SendResult::Sent <==> connected && delivered,
{
    if connected && delivered {
        SendResult::Sent
    } else {
        SendResult::NoExistingInstance
    }
}

/// The stages of setting up the IPC listener without racing another instance.
#[derive(Debug, Clone, Copy, PartialEq, Eq, Structural)]
pub enum ListenerStage {
    /// Create the listener directly.
    FirstAttempt,
    /// The address is in use: connect to it to see whether it is live.
    CheckingStale,
    /// The socket is stale: remove its file.
    RemovingStale,
    /// Create the listener again, after the stale socket was removed.
    SecondAttempt,
}

/// What came of the work of a stage.
#[derive(Debug, Clone, Copy, PartialEq, Eq, Structural)]
pub enum ListenerEvent {
    /// The socket path could not be turned into a socket name.
    NameInvalid,
    /// The listener was created.
    Created,
    /// Creating the listener failed; `address_in_use` tells whether because
    /// the address is already in use.
    CreateFailed { address_in_use: bool },
    /// A connection attempt to the existing socket; `active` tells whether it
    /// succeeded in time.
    StaleCheck { active: bool },
    /// Removing the stale socket file; `ok` tells whether it succeeded.
    Removed { ok: bool },
}

/// Why no listener could be set up.
#[derive(Debug, Clone, Copy, PartialEq, Eq, Structural)]
pub enum ListenerError {
    /// Failed to create the socket name.
    InvalidName,
    /// Failed to create the IPC listener.
    CreateFailed,
    /// Another instance is already running (the socket is active).
    AlreadyRunning,
    /// The stale socket file could not be removed.
    RemoveFailed,
    /// Failed to create the IPC listener after cleanup.
    CreateFailedAfterCleanup,
}

/// What to do next.
#[derive(Debug, Clone, Copy, PartialEq, Eq, Structural)]
pub enum ListenerAction {
    /// Go on with the given stage.
    Continue(ListenerStage),
    /// The listener just created is ready for connections.
    Ready,
    /// Give up.
    Fail(ListenerError),
}

/// The events that the work of a stage can give.
pub open spec fn event_fits(stage: ListenerStage, event: ListenerEvent) -> bool {
    match stage {
        ListenerStage::FirstAttempt | ListenerStage::SecondAttempt => match event {
            ListenerEvent::NameInvalid | ListenerEvent::Created | ListenerEvent::CreateFailed {
                ..
            } => true,
            _ => false,
        },
        ListenerStage::CheckingStale => event is StaleCheck,
        ListenerStage::RemovingStale => event is Removed,
    }
}

/// The listener setup: try to create the listener; only if the address is in
/// use, check whether the socket is live; only if it is not, remove it and
/// try once more.
pub open spec fn listener_step_spec(stage: ListenerStage, event: ListenerEvent) -> ListenerAction {
    match (stage, event) {
        (ListenerStage::FirstAttempt, ListenerEvent::NameInvalid) => ListenerAction::Fail(
            ListenerError::InvalidName,
        ),
        (ListenerStage::FirstAttempt, ListenerEvent::Created) => ListenerAction::Ready,
        (ListenerStage::FirstAttempt, ListenerEvent::CreateFailed { address_in_use }) => {
            if address_in_use {
                ListenerAction::Continue(ListenerStage::CheckingStale)
            } else {
                ListenerAction::Fail(ListenerError::CreateFailed)
            }
        },
        (ListenerStage::CheckingStale, ListenerEvent::StaleCheck { active }) => {
            if active {
                ListenerAction::Fail(ListenerError::AlreadyRunning)
            } else {
                ListenerAction::Continue(ListenerStage::RemovingStale)
            }
        },
        (ListenerStage::RemovingStale, ListenerEvent::Removed { ok }) => {
            if ok {
                ListenerAction::Continue(ListenerStage::SecondAttempt)
            } else {
                ListenerAction::Fail(ListenerError::RemoveFailed)
            }
        },
        (ListenerStage::SecondAttempt, ListenerEvent::NameInvalid) => ListenerAction::Fail(
            ListenerError::InvalidName,
        ),
        (ListenerStage::SecondAttempt, ListenerEvent::Created) => ListenerAction::Ready,
        (ListenerStage::SecondAttempt, ListenerEvent::CreateFailed { .. }) => ListenerAction::Fail(
            ListenerError::CreateFailedAfterCleanup,
        ),
        _ => ListenerAction::Fail(ListenerError::CreateFailed),
    }
}

/// The next step of the listener setup, given what the current stage gave.
pub fn listener_step(stage: ListenerStage, event: ListenerEvent) -> (action: ListenerAction)
    ensures
        action == listener_step_spec(stage, event),
{
    match stage {
        ListenerStage::FirstAttempt => match event {
            ListenerEvent::NameInvalid => ListenerAction::Fail(ListenerError::InvalidName),
            ListenerEvent::Created => ListenerAction::Ready,
            ListenerEvent::CreateFailed { address_in_use } => {
                if address_in_use {
                    ListenerAction::Continue(ListenerStage::CheckingStale)
                } else {
                    ListenerAction::Fail(ListenerError::CreateFailed)
                }
            },
            _ => ListenerAction::Fail(ListenerError::CreateFailed),
        },
        ListenerStage::CheckingStale => match event {
            ListenerEvent::StaleCheck { active } => {
                if active {
                    ListenerAction::Fail(ListenerError::AlreadyRunning)
                } else {
                    ListenerAction::Continue(ListenerStage::RemovingStale)
                }
            },
            _ => ListenerAction::Fail(ListenerError::CreateFailed),
        },
        ListenerStage::RemovingStale => match event {
            ListenerEvent::Removed { ok } => {
                if ok {
                    ListenerAction::Continue(ListenerStage::SecondAttempt)
                } else {
                    ListenerAction::Fail(ListenerError::RemoveFailed)
                }
            },
            _ => ListenerAction::Fail(ListenerError::CreateFailed),
        },
        ListenerStage::SecondAttempt => match event {
            ListenerEvent::NameInvalid => ListenerAction::Fail(ListenerError::InvalidName),
            ListenerEvent::Created => ListenerAction::Ready,
            ListenerEvent::CreateFailed { .. } => ListenerAction::Fail(
                ListenerError::CreateFailedAfterCleanup,
            ),
            _ => ListenerAction::Fail(ListenerError::CreateFailed),
        },
    }
}

/// The order of the stages in the setup.
pub open spec fn stage_rank(stage: ListenerStage) -> int {
    match stage {
        ListenerStage::FirstAttempt => 0,
        ListenerStage::CheckingStale => 1,
        ListenerStage::RemovingStale => 2,
        ListenerStage::SecondAttempt => 3,
    }
}

/// The setup never removes a live socket: the socket file is removed only
/// right after a connection attempt to it failed; the listener is created a
/// second time only after that removal succeeded; and every step moves
/// forward, so the setup ends after at most four steps.
pub proof fn law_listener_setup_is_safe(stage: ListenerStage, event: ListenerEvent)
    ensures
        listener_step_spec(stage, event) == ListenerAction::Continue(ListenerStage::RemovingStale)
            <==> (stage == ListenerStage::CheckingStale && event == (ListenerEvent::StaleCheck {
            active: false,
        })),
        listener_step_spec(stage, event) == ListenerAction::Continue(ListenerStage::SecondAttempt)
            <==> (stage == ListenerStage::RemovingStale && event == (ListenerEvent::Removed {
            ok: true,
        })),
        listener_step_spec(stage, event) == ListenerAction::Ready ==> event
            == ListenerEvent::Created,
        event_fits(stage, event) && event == ListenerEvent::Created ==> listener_step_spec(
            stage,
            event,
        ) == ListenerAction::Ready,
        listener_step_spec(stage, event) matches ListenerAction::Continue(next) ==> stage_rank(next)
            == stage_rank(stage) + 1,
{
}

} // verus!
