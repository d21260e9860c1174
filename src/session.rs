//! The protocol interpreter as a state machine. For each command line, and for
//! each outcome of the outside work that a command asks for (binding a passive
//! listener, a file system operation, opening the data channel, a transfer),
//! it decides the next session state and the next action. The caller performs
//! the actions and reports their outcomes back.
use vstd::prelude::*;

use crate::command::{opt_view, parse_command, Command, CommandView};
use crate::hostport::HostPort;
use crate::path::{
    copy_segments, is_beneath, lemma_real_path_beneath, lemma_resolve_beneath, plain_segments,
    real_path, real_string, resolve, resolve_path, views, virtual_path, virtual_string, PathError,
};
use crate::reply::{command_error_reply, io_error_reply, IoErrorKind, Reply, ReplyView};
use crate::user::{find_user, lookup_user, records, User, UserRecord};

verus! {

/// What a data transfer does.
#[derive(Clone, Copy, Debug, PartialEq, Eq)]
pub enum TransferKind {
    /// RETR: send a file's bytes.
    SendFile,
    /// STOR: receive bytes into a file, created or truncated.
    ReceiveFile,
    /// NLST: send the names in a directory, each followed by CR LF.
    SendNames,
    /// LIST: send the listing of a directory, each entry followed by CR LF.
    SendList,
}

/// A data transfer on a real path.
#[derive(Debug)]
pub struct Transfer {
    pub kind: TransferKind,
    pub path: String,
}

/// A file system operation on real paths.
#[derive(Debug)]
pub enum FileOp {
    /// Succeeds when the path is an existing directory; changes nothing.
    ChangeDir(String),
    /// Creates a directory.
    MakeDir(String),
    /// Removes a file.
    Remove(String),
    /// Succeeds when the path exists; changes nothing.
    CheckExists(String),
    /// Renames the first path to the second.
    Rename(String, String),
}

/// What the caller is to do next.
#[derive(Debug)]
pub enum Action {
    /// Send this reply; the command is done.
    Send(Reply),
    /// Send this reply and close the control connection.
    Close(Reply),
    /// Bind a passive listener and report `Event::Listening`.
    Listen,
    /// Perform the operation and report `Event::FileDone`.
    File(FileOp),
    /// Open the data channel and report `Event::DataOpened`: accept on the
    /// passive listener a peer with the endpoint's address when the flag is
    /// set, else connect to the endpoint.
    OpenData(HostPort, bool),
    /// Send this reply, then perform the transfer and report `Event::TransferDone`.
    Transfer(Reply, Transfer),
}

/// The outcome of an action.
#[derive(Debug)]
pub enum Event {
    Listening(Result<HostPort, IoErrorKind>),
    FileDone(Result<(), IoErrorKind>),
    DataOpened(Result<(), IoErrorKind>),
    TransferDone(Result<(), IoErrorKind>),
}

/// What the session waits for.
#[derive(Debug)]
pub enum Pending {
    /// Nothing: the next command line.
    Idle,
    /// The passive listener.
    Listening,
    /// The check of a new working directory (its segments), for CDUP when the flag is set.
    ChangeDir(Vec<String>, bool),
    /// The creation of a directory, named as the client named it.
    MakeDir(String),
    /// The removal of a file.
    Delete,
    /// The check of a rename's source (its real path).
    RenameFrom(String),
    /// The rename.
    RenameTo,
    /// The data channel, for a transfer.
    Opening(TransferKind, String),
    /// The end of a transfer.
    Transferring,
}

/// The per-connection state.
pub struct Client {
    /// The address of the peer's data endpoint.
    pub data_ip: [u8; 4],
    /// The port of the peer's data endpoint.
    pub data_port: u16,
    pub has_quit: bool,
    pub username: Option<String>,
    /// The user's real root directory, once logged in.
    root: Option<String>,
    /// The virtual working directory, as its segments.
    working_dir: Vec<String>,
    /// Whether a passive listener is in place for the next transfer.
    passive: bool,
    /// The real path that RNFR named.
    renaming_from: Option<String>,
    pending: Pending,
}

pub struct TransferView {
    pub kind: TransferKind,
    pub path: Seq<char>,
}

pub enum FileOpView {
    ChangeDir(Seq<char>),
    MakeDir(Seq<char>),
    Remove(Seq<char>),
    CheckExists(Seq<char>),
    Rename(Seq<char>, Seq<char>),
}

pub enum ActionView {
    Send(ReplyView),
    Close(ReplyView),
    Listen,
    File(FileOpView),
    OpenData(Seq<u8>, bool),
    Transfer(ReplyView, TransferView),
}

pub enum EventView {
    Listening(Result<Seq<u8>, IoErrorKind>),
    FileDone(Result<(), IoErrorKind>),
    DataOpened(Result<(), IoErrorKind>),
    TransferDone(Result<(), IoErrorKind>),
}

pub enum PendingView {
    Idle,
    Listening,
    ChangeDir(Seq<Seq<char>>, bool),
    MakeDir(Seq<char>),
    Delete,
    RenameFrom(Seq<char>),
    RenameTo,
    Opening(TransferKind, Seq<char>),
    Transferring,
}

/// The session state.
pub struct ClientView {
    /// The six bytes of the data endpoint.
    pub endpoint: Seq<u8>,
    pub has_quit: bool,
    pub username: Option<Seq<char>>,
    pub root: Option<Seq<char>>,
    pub cwd: Seq<Seq<char>>,
    pub passive: bool,
    pub renaming_from: Option<Seq<char>>,
    pub pending: PendingView,
}

impl View for Transfer {
    type V = TransferView;

    open spec fn view(&self) -> TransferView {
        TransferView { kind: self.kind, path: self.path@ }
    }
}

impl View for FileOp {
    type V = FileOpView;

    open spec fn view(&self) -> FileOpView {
        match self {
            FileOp::ChangeDir(p) => FileOpView::ChangeDir(p@),
            FileOp::MakeDir(p) => FileOpView::MakeDir(p@),
            FileOp::Remove(p) => FileOpView::Remove(p@),
            FileOp::CheckExists(p) => FileOpView::CheckExists(p@),
            FileOp::Rename(a, b) => FileOpView::Rename(a@, b@),
        }
    }
}

impl View for Action {
    type V = ActionView;

    open spec fn view(&self) -> ActionView {
        match self {
            Action::Send(r) => ActionView::Send(r@),
            Action::Close(r) => ActionView::Close(r@),
            Action::Listen => ActionView::Listen,
            Action::File(op) => ActionView::File(op@),
            Action::OpenData(hp, p) => ActionView::OpenData(hp@, *p),
            Action::Transfer(r, t) => ActionView::Transfer(r@, t@),
        }
    }
}

impl View for Event {
    type V = EventView;

    open spec fn view(&self) -> EventView {
        match self {
            Event::Listening(Ok(hp)) => EventView::Listening(Ok(hp@)),
            Event::Listening(Err(k)) => EventView::Listening(Err(*k)),
            Event::FileDone(r) => EventView::FileDone(*r),
            Event::DataOpened(r) => EventView::DataOpened(*r),
            Event::TransferDone(r) => EventView::TransferDone(*r),
        }
    }
}

impl View for Pending {
    type V = PendingView;

    open spec fn view(&self) -> PendingView {
        match self {
            Pending::Idle => PendingView::Idle,
            Pending::Listening => PendingView::Listening,
            Pending::ChangeDir(s, up) => PendingView::ChangeDir(views(s@), *up),
            Pending::MakeDir(n) => PendingView::MakeDir(n@),
            Pending::Delete => PendingView::Delete,
            Pending::RenameFrom(p) => PendingView::RenameFrom(p@),
            Pending::RenameTo => PendingView::RenameTo,
            Pending::Opening(k, p) => PendingView::Opening(*k, p@),
            Pending::Transferring => PendingView::Transferring,
        }
    }
}

impl View for Client {
    type V = ClientView;

    closed spec fn view(&self) -> ClientView {
        ClientView {
            endpoint: HostPort { ip: self.data_ip, port: self.data_port }@,
            has_quit: self.has_quit,
            username: opt_view(self.username),
            root: opt_view(self.root),
            cwd: views(self.working_dir@),
            passive: self.passive,
            renaming_from: opt_view(self.renaming_from),
            pending: self.pending@,
        }
    }
}

/// The reply to a refused path argument: 504 for an empty one, 501 for an
/// absolute one.
pub open spec fn path_error_reply(e: PathError) -> ReplyView {
    match e {
        PathError::Empty => ReplyView::BadParameter,
        PathError::Absolute => ReplyView::SyntaxErrorArg,
    }
}

pub open spec fn send(c: ClientView, r: ReplyView) -> (ClientView, ActionView) {
    (c, ActionView::Send(r))
}

pub open spec fn await_file(c: ClientView, p: PendingView, op: FileOpView) -> (
    ClientView,
    ActionView,
) {
    (ClientView { pending: p, ..c }, ActionView::File(op))
}

/// The directory that NLST and LIST list: the working directory when the
/// argument is absent or empty, else the resolved argument.
pub open spec fn listing_target(cwd: Seq<Seq<char>>, arg: Option<Seq<char>>) -> Result<
    Seq<Seq<char>>,
    PathError,
> {
    match arg {
        None => Ok(cwd),
        Some(p) => if p.len() == 0 {
            Ok(cwd)
        } else {
            resolve_path(cwd, p)
        },
    }
}

/// A data-bearing command: once logged in and with a valid path, open the data channel.
pub open spec fn step_data(
    c: ClientView,
    target: Result<Seq<Seq<char>>, PathError>,
    kind: TransferKind,
) -> (ClientView, ActionView) {
    match c.root {
        None => send(c, ReplyView::NotLoggedIn),
        Some(root) => match target {
            Err(e) => send(c, path_error_reply(e)),
            Ok(segs) => (
                ClientView { pending: PendingView::Opening(kind, real_path(root, segs)), ..c },
                ActionView::OpenData(c.endpoint, c.passive),
            ),
        },
    }
}

/// CWD, or CDUP when `up` is set: check that the resolved directory exists.
pub open spec fn step_change_dir(c: ClientView, p: Seq<char>, up: bool) -> (
    ClientView,
    ActionView,
) {
    match c.root {
        None => send(c, ReplyView::NotLoggedIn),
        Some(root) => match resolve_path(c.cwd, p) {
            Err(e) => send(c, path_error_reply(e)),
            Ok(segs) => await_file(
                c,
                PendingView::ChangeDir(segs, up),
                FileOpView::ChangeDir(real_path(root, segs)),
            ),
        },
    }
}

/// What the session does with a command, given the user directory.
pub open spec fn step_command(users: Seq<UserRecord>, c: ClientView, cmd: CommandView) -> (
    ClientView,
    ActionView,
) {
    match cmd {
        CommandView::User(name) => send(
            ClientView { username: Some(name), ..c },
            ReplyView::UsernameOk,
        ),
        CommandView::Pass(pw) => match c.username {
            None => send(c, ReplyView::BadCommandSequence),
            Some(name) => match lookup_user(users, name) {
                None => send(c, ReplyView::NotLoggedIn),
                Some(u) => if u.password == pw {
                    send(
                        ClientView {
                            root: Some(u.dir),
                            cwd: seq![],
                            passive: false,
                            renaming_from: None,
                            ..c
                        },
                        ReplyView::UserLoggedIn,
                    )
                } else {
                    send(c, ReplyView::NotLoggedIn)
                },
            },
        },
        CommandView::Quit => (ClientView { has_quit: true, ..c }, ActionView::Close(
            ReplyView::ServiceClosing,
        )),
        CommandView::Port(b) => send(ClientView { endpoint: b, ..c }, ReplyView::CommandOk),
        CommandView::Type(_) | CommandView::Stru(_) | CommandView::Mode(_)
        | CommandView::Noop => send(c, ReplyView::CommandOk),
        CommandView::Pasv => match c.root {
            None => send(c, ReplyView::NotLoggedIn),
            Some(_) => (ClientView { pending: PendingView::Listening, ..c }, ActionView::Listen),
        },
        CommandView::Retr(p) => step_data(c, resolve_path(c.cwd, p), TransferKind::SendFile),
        CommandView::Stor(p) => step_data(c, resolve_path(c.cwd, p), TransferKind::ReceiveFile),
        CommandView::Nlst(a) => step_data(c, listing_target(c.cwd, a), TransferKind::SendNames),
        CommandView::List(a) => step_data(c, listing_target(c.cwd, a), TransferKind::SendList),
        CommandView::Pwd => match c.root {
            None => send(c, ReplyView::FileUnavailable),
            Some(_) => send(c, ReplyView::Created(virtual_path(c.cwd))),
        },
        CommandView::Cwd(p) => step_change_dir(c, p, false),
        CommandView::Cdup => step_change_dir(c, seq!['.', '.'], true),
        CommandView::Mkd(p) => match c.root {
            None => send(c, ReplyView::NotLoggedIn),
            Some(root) => match resolve_path(c.cwd, p) {
                Err(e) => send(c, path_error_reply(e)),
                Ok(segs) => await_file(
                    c,
                    PendingView::MakeDir(p),
                    FileOpView::MakeDir(real_path(root, segs)),
                ),
            },
        },
        CommandView::Dele(p) => match c.root {
            None => send(c, ReplyView::NotLoggedIn),
            Some(root) => match resolve_path(c.cwd, p) {
                Err(e) => send(c, path_error_reply(e)),
                Ok(segs) => await_file(
                    c,
                    PendingView::Delete,
                    FileOpView::Remove(real_path(root, segs)),
                ),
            },
        },
        CommandView::Rnfr(p) => match c.root {
            None => send(c, ReplyView::NotLoggedIn),
            Some(root) => match resolve_path(c.cwd, p) {
                Err(e) => send(c, path_error_reply(e)),
                Ok(segs) => await_file(
                    c,
                    PendingView::RenameFrom(real_path(root, segs)),
                    FileOpView::CheckExists(real_path(root, segs)),
                ),
            },
        },
        CommandView::Rnto(p) => match c.root {
            None => send(c, ReplyView::NotLoggedIn),
            Some(root) => match c.renaming_from {
                None => send(c, ReplyView::BadCommandSequence),
                Some(from) => {
                    let c2 = ClientView { renaming_from: None, ..c };
                    match resolve_path(c.cwd, p) {
                        Err(e) => send(c2, path_error_reply(e)),
                        Ok(segs) => await_file(
                            c2,
                            PendingView::RenameTo,
                            FileOpView::Rename(from, real_path(root, segs)),
                        ),
                    }
                },
            },
        },
        _ => send(c, ReplyView::NotImplemented),
    }
}

/// What the session does with a command line: a line that is not a command
/// gets the reply for its error, and changes nothing.
pub open spec fn step_line(users: Seq<UserRecord>, c: ClientView, line: Seq<char>) -> (
    ClientView,
    ActionView,
) {
    match parse_command(line) {
        Err(e) => send(c, command_error_reply(e)),
        Ok(cmd) => step_command(users, c, cmd),
    }
}

/// The event answers what the session waits for.
pub open spec fn event_fits(p: PendingView, e: EventView) -> bool {
    match p {
        PendingView::Idle => false,
        PendingView::Listening => e is Listening,
        PendingView::Opening(_, _) => e is DataOpened,
        PendingView::Transferring => e is TransferDone,
        _ => e is FileDone,
    }
}

pub open spec fn idle(c: ClientView) -> ClientView {
    ClientView { pending: PendingView::Idle, ..c }
}

/// The reply that closes a data-bearing command, once the data channel was open.
pub open spec fn transfer_done_reply(r: Result<(), IoErrorKind>) -> ReplyView {
    match r {
        Ok(()) => ReplyView::ClosingDataConnection,
        Err(k) => io_error_reply(k),
    }
}

/// What the session does with the outcome of the action it waits for.
pub open spec fn step_event(c: ClientView, e: EventView) -> (ClientView, ActionView) {
    match (c.pending, e) {
        (PendingView::Listening, EventView::Listening(Ok(hp))) => send(
            ClientView { passive: true, ..idle(c) },
            ReplyView::EnteringPassiveMode(hp),
        ),
        (PendingView::Listening, EventView::Listening(Err(_))) => send(
            idle(c),
            ReplyView::CantOpenDataConnection,
        ),
        (PendingView::Opening(kind, path), EventView::DataOpened(Ok(()))) => (
            ClientView { pending: PendingView::Transferring, ..c },
            ActionView::Transfer(
                ReplyView::OpeningDataConnection,
                TransferView { kind, path },
            ),
        ),
        (PendingView::Opening(_, _), EventView::DataOpened(Err(_))) => send(
            ClientView { passive: false, ..idle(c) },
            ReplyView::CantOpenDataConnection,
        ),
        (PendingView::Transferring, EventView::TransferDone(r)) => send(
            ClientView { passive: false, ..idle(c) },
            transfer_done_reply(r),
        ),
        (PendingView::ChangeDir(segs, up), EventView::FileDone(Ok(()))) => send(
            ClientView { cwd: segs, ..idle(c) },
            if up {
                ReplyView::CommandOk
            } else {
                ReplyView::FileActionOk
            },
        ),
        (PendingView::MakeDir(name), EventView::FileDone(Ok(()))) => send(
            idle(c),
            ReplyView::Created(name),
        ),
        (PendingView::Delete, EventView::FileDone(Ok(()))) => send(
            idle(c),
            ReplyView::FileActionOk,
        ),
        (PendingView::RenameFrom(path), EventView::FileDone(Ok(()))) => send(
            ClientView { renaming_from: Some(path), ..idle(c) },
            ReplyView::PendingFurtherInformation,
        ),
        (PendingView::RenameTo, EventView::FileDone(Ok(()))) => send(
            idle(c),
            ReplyView::FileActionOk,
        ),
        (_, EventView::FileDone(Err(k))) => send(idle(c), io_error_reply(k)),
        _ => send(c, ReplyView::LocalProcessingError),
    }
}

/// The session's invariant: the working directory is made of plain segments,
/// and every real path it holds lies beneath the user's root; before login it
/// holds none and waits for nothing but a passive listener or a line.
pub open spec fn client_inv(c: ClientView) -> bool {
    &&& c.endpoint.len() == 6
    &&& plain_segments(c.cwd)
    &&& match c.root {
        None => c.renaming_from is None && (c.pending is Idle),
        Some(root) => {
            &&& (c.renaming_from matches Some(p) ==> is_beneath(p, root))
            &&& match c.pending {
                PendingView::ChangeDir(segs, _) => plain_segments(segs),
                PendingView::RenameFrom(p) => is_beneath(p, root),
                PendingView::Opening(_, p) => is_beneath(p, root),
                _ => true,
            }
        },
    }
}

/// Every real path that the action names lies beneath the root; an action that
/// names one, or uses the data channel, comes only after login.
pub open spec fn action_beneath(a: ActionView, root: Option<Seq<char>>) -> bool {
    match a {
        ActionView::Send(_) | ActionView::Close(_) => true,
        ActionView::Listen | ActionView::OpenData(_, _) => root is Some,
        ActionView::File(op) => match root {
            None => false,
            Some(r) => match op {
                FileOpView::ChangeDir(p) => is_beneath(p, r),
                FileOpView::MakeDir(p) => is_beneath(p, r),
                FileOpView::Remove(p) => is_beneath(p, r),
                FileOpView::CheckExists(p) => is_beneath(p, r),
                FileOpView::Rename(a, b) => is_beneath(a, r) && is_beneath(b, r),
            },
        },
        ActionView::Transfer(_, t) => match root {
            None => false,
            Some(r) => is_beneath(t.path, r),
        },
    }
}

/// A command keeps the session's invariant, and every real path it touches lies
/// beneath the logged-in user's root.
pub proof fn lemma_command_beneath(users: Seq<UserRecord>, c: ClientView, cmd: CommandView)
    requires
        client_inv(c),
        c.pending is Idle,
        cmd matches CommandView::Port(b) ==> b.len() == 6,
    ensures
        client_inv(step_command(users, c, cmd).0),
        action_beneath(step_command(users, c, cmd).1, c.root),
{
    if let Some(root) = c.root {
        match cmd {
            CommandView::Retr(p) | CommandView::Stor(p) | CommandView::Cwd(p) | CommandView::Mkd(p)
            | CommandView::Dele(p) | CommandView::Rnfr(p) | CommandView::Rnto(p) => {
                if resolve_path(c.cwd, p) is Ok {
                    lemma_resolve_beneath(c.cwd, p, root);
                }
            },
            CommandView::Cdup => {
                if resolve_path(c.cwd, seq!['.', '.']) is Ok {
                    lemma_resolve_beneath(c.cwd, seq!['.', '.'], root);
                }
            },
            CommandView::Nlst(a) | CommandView::List(a) => {
                match a {
                    Some(p) => if p.len() > 0 {
                        if resolve_path(c.cwd, p) is Ok {
                            lemma_resolve_beneath(c.cwd, p, root);
                        }
                    } else {
                        lemma_real_path_beneath(root, c.cwd);
                    },
                    None => lemma_real_path_beneath(root, c.cwd),
                }
            },
            _ => {},
        }
    }
}

/// A line keeps the session's invariant, and every real path it touches lies
/// beneath the logged-in user's root.
pub proof fn lemma_line_beneath(users: Seq<UserRecord>, c: ClientView, line: Seq<char>)
    requires
        client_inv(c),
        c.pending is Idle,
    ensures
        client_inv(step_line(users, c, line).0),
        action_beneath(step_line(users, c, line).1, c.root),
{
    if let Ok(cmd) = parse_command(line) {
        if let CommandView::Port(b) = cmd {
            assert(b.len() == 6);
        }
        lemma_command_beneath(users, c, cmd);
    }
}

/// An outcome keeps the session's invariant, and the transfer it starts is on a
/// real path beneath the user's root.
pub proof fn lemma_event_beneath(c: ClientView, e: EventView)
    requires
        client_inv(c),
        event_fits(c.pending, e),
    ensures
        client_inv(step_event(c, e).0),
        action_beneath(step_event(c, e).1, c.root),
        step_event(c, e).0.root == c.root,
{
}

/// The replies on the control channel to a data-bearing command whose data
/// channel opened with `opened` and whose transfer, if it started, ended with `done`.
pub open spec fn data_command_replies(
    c: ClientView,
    opened: Result<(), IoErrorKind>,
    done: Result<(), IoErrorKind>,
) -> Seq<ReplyView> {
    let (c1, a1) = step_event(c, EventView::DataOpened(opened));
    match a1 {
        ActionView::Transfer(r, _) => match step_event(c1, EventView::TransferDone(done)).1 {
            ActionView::Send(r2) => seq![r, r2],
            _ => seq![r],
        },
        ActionView::Send(r) => seq![r],
        _ => seq![],
    }
}

/// A data-bearing command that opened its data channel is answered by 150 and
/// then by exactly one final reply, which is 226 when the transfer succeeded;
/// one whose data channel did not open is answered by one reply that is not 226.
pub proof fn lemma_data_command_replies(
    c: ClientView,
    opened: Result<(), IoErrorKind>,
    done: Result<(), IoErrorKind>,
)
    requires
        c.pending is Opening,
    ensures
        opened is Ok ==> data_command_replies(c, opened, done) == seq![
            ReplyView::OpeningDataConnection,
            transfer_done_reply(done),
        ],
        opened is Ok && done is Ok ==> data_command_replies(c, opened, done)[1]
            == ReplyView::ClosingDataConnection,
        done is Err ==> transfer_done_reply(done) != ReplyView::ClosingDataConnection,
        opened is Err ==> data_command_replies(c, opened, done) == seq![
            ReplyView::CantOpenDataConnection,
        ],
        step_event(c, EventView::DataOpened(opened)).0.pending is Transferring <==> opened is Ok,
{
}

/// No command line yields 226 or starts a transfer.
pub proof fn lemma_line_never_closes_data(users: Seq<UserRecord>, c: ClientView, line: Seq<char>)
    requires
        c.pending is Idle,
    ensures
        step_line(users, c, line).1 != ActionView::Send(ReplyView::ClosingDataConnection),
        !(step_line(users, c, line).0.pending is Transferring),
        !(step_line(users, c, line).1 is Transfer),
{
    if let Ok(cmd) = parse_command(line) {
        assert(step_line(users, c, line) == step_command(users, c, cmd));
    }
}

/// 226 comes only at the end of a transfer, and a transfer starts only with the
/// 150 of a data channel that opened.
pub proof fn lemma_closing_follows_opening(c: ClientView, e: EventView)
    requires
        event_fits(c.pending, e),
    ensures
        step_event(c, e).1 == ActionView::Send(ReplyView::ClosingDataConnection)
            ==> c.pending is Transferring,
        step_event(c, e).0.pending is Transferring ==> c.pending is Opening && (step_event(
            c,
            e,
        ).1 matches ActionView::Transfer(r, _) && r == ReplyView::OpeningDataConnection),
        step_event(c, e).1 is Transfer ==> step_event(c, e).0.pending is Transferring,
        c.pending is Transferring ==> step_event(c, e).0.pending is Idle,
{
    if let EventView::FileDone(Err(k)) = e {
        assert(io_error_reply(k) != ReplyView::ClosingDataConnection);
    }
}

impl Client {
    /// A fresh session for a peer at `ip`: not logged in, at "/", active mode.
    pub fn new(ip: [u8; 4]) -> (r: Client)
        ensures
            r@.endpoint == ip@ + seq![0u8, 0u8],
            !r@.has_quit,
            r@.username is None,
            r@.root is None,
            r@.cwd.len() == 0,
            !r@.passive,
            r@.renaming_from is None,
            r@.pending is Idle,
            client_inv(r@),
    {
        let r = Client {
            data_ip: ip,
            data_port: 0,
            has_quit: false,
            username: None,
            root: None,
            working_dir: Vec::new(),
            passive: false,
            renaming_from: None,
            pending: Pending::Idle,
        };
        assert(r@.endpoint =~= ip@ + seq![0u8, 0u8]);
        assert(r@.cwd =~= Seq::<Seq<char>>::empty());
        r
    }

    /// Ends the session after the reply.
    pub fn quit(&mut self)
        ensures
            final(self)@ == (ClientView { has_quit: true, ..old(self)@ }),
    {
        self.has_quit = true;
    }

    /// Sets the peer's data endpoint.
    pub fn port(&mut self, host_port: HostPort)
        ensures
            final(self)@ == (ClientView { endpoint: host_port@, ..old(self)@ }),
    {
        self.data_ip = host_port.ip;
        self.data_port = host_port.port;
        assert(HostPort { ip: self.data_ip, port: self.data_port } == host_port);
    }

    /// Records the user name that PASS will check.
    pub fn user(&mut self, username: String)
        ensures
            final(self)@ == (ClientView { username: Some(username@), ..old(self)@ }),
    {
        self.username = Some(username);
    }

    /// Logs in with the real root `root_dir`: the working directory becomes "/",
    /// and no listener or rename source is kept.
    pub fn authorize(&mut self, root_dir: &String)
        ensures
            final(self)@ == (ClientView {
                root: Some(root_dir@),
                cwd: seq![],
                passive: false,
                renaming_from: None,
                ..old(self)@
            }),
    {
        self.root = Some(root_dir.clone());
        self.working_dir = Vec::new();
        self.passive = false;
        self.renaming_from = None;
        assert(self@.cwd =~= Seq::<Seq<char>>::empty());
    }

    /// The session waits for a command line.
    pub fn is_idle(&self) -> (r: bool)
        ensures
            r == (self@.pending is Idle),
    {
        match self.pending {
            Pending::Idle => true,
            _ => false,
        }
    }

    /// Whether the user has logged in.
    pub fn is_logged_in(&self) -> (r: bool)
        ensures
            r == (self@.root is Some),
    {
        self.root.is_some()
    }

    /// The virtual working directory, or the PWD refusal before login.
    pub fn pwd(&self) -> (r: Result<String, crate::reply::AuthError>)
        ensures
            match r {
                Ok(s) => self@.root is Some && s@ == virtual_path(self@.cwd),
                Err(e) => self@.root is None && e == crate::reply::AuthError::PwdWhileNotLoggedIn,
            },
    {
        match &self.root {
            None => Err(crate::reply::AuthError::PwdWhileNotLoggedIn),
            Some(_) => Ok(virtual_string(&self.working_dir)),
        }
    }
}

/// A passive data connection is taken only from the address of the data
/// endpoint; any other peer is dropped.
pub fn accepts_data_peer(endpoint: &HostPort, peer: [u8; 4]) -> (r: bool)
    ensures
        r == (endpoint.ip@ == peer@),
{
    let r = endpoint.ip[0] == peer[0] && endpoint.ip[1] == peer[1] && endpoint.ip[2] == peer[2]
        && endpoint.ip[3] == peer[3];
    assert(r ==> endpoint.ip@ =~= peer@);
    r
}

/// The state shared by the sessions of a server: the user directory.
pub struct ProtocolInterpreter {
    users: Vec<User>,
}

fn send_reply(r: Reply) -> (a: Action)
    ensures
        a@ == ActionView::Send(r@),
{
    Action::Send(r)
}

fn path_reply(e: PathError) -> (r: Reply)
    ensures
        r@ == path_error_reply(e),
{
    match e {
        PathError::Empty => Reply::BadParameter,
        PathError::Absolute => Reply::SyntaxErrorArg,
    }
}

impl ProtocolInterpreter {
    pub fn new(users: Vec<User>) -> (r: ProtocolInterpreter)
        ensures
            r.users() == records(users@),
    {
        ProtocolInterpreter { users }
    }

    /// The user directory.
    pub closed spec fn users(&self) -> Seq<UserRecord> {
        records(self.users@)
    }

    /// Reads a command line and acts on it.
    pub fn handle_line(&self, client: &mut Client, line: &str) -> (r: Action)
        requires
            old(client)@.pending is Idle,
            client_inv(old(client)@),
        ensures
            (final(client)@, r@) == step_line(self.users(), old(client)@, line@),
            client_inv(final(client)@),
    {
        proof {
            lemma_line_beneath(self.users(), client@, line@);
        }
        match Command::parse_line(line) {
            Err(e) => send_reply(Reply::from_command_error(e)),
            Ok(cmd) => self.dispatch_command(cmd, client),
        }
    }

    /// Acts on a command.
    pub fn dispatch_command(&self, command: Command, client: &mut Client) -> (r: Action)
        requires
            old(client)@.pending is Idle,
            client_inv(old(client)@),
            command@ matches CommandView::Port(b) ==> b.len() == 6,
        ensures
            (final(client)@, r@) == step_command(self.users(), old(client)@, command@),
            client_inv(final(client)@),
    {
        proof {
            lemma_command_beneath(self.users(), client@, command@);
        }
        match command {
            Command::User(name) => {
                client.user(name);
                send_reply(Reply::UsernameOk)
            },
            Command::Pass(pw) => self.password(client, pw),
            Command::Quit => {
                client.quit();
                Action::Close(Reply::ServiceClosing)
            },
            Command::Port(hp) => {
                client.port(hp);
                send_reply(Reply::CommandOk)
            },
            Command::Type(_) | Command::Stru(_) | Command::Mode(_) | Command::Noop => send_reply(
                Reply::CommandOk,
            ),
            Command::Pasv => Self::pasv(client),
            Command::Retr(p) => {
                let target = resolve(&client.working_dir, p.as_str());
                Self::data_command(client, target, TransferKind::SendFile)
            },
            Command::Stor(p) => {
                let target = resolve(&client.working_dir, p.as_str());
                Self::data_command(client, target, TransferKind::ReceiveFile)
            },
            Command::Nlst(a) => {
                let target = Self::listing_target(&client.working_dir, &a);
                Self::data_command(client, target, TransferKind::SendNames)
            },
            Command::List(a) => {
                let target = Self::listing_target(&client.working_dir, &a);
                Self::data_command(client, target, TransferKind::SendList)
            },
            Command::Pwd => Self::print_dir(client),
            Command::Cwd(p) => Self::change_dir(client, p.as_str(), false),
            Command::Cdup => Self::cdup(client),
            Command::Mkd(p) => Self::make_dir(client, p),
            Command::Dele(p) => Self::delete(client, p),
            Command::Rnfr(p) => Self::rename_from(client, p),
            Command::Rnto(p) => Self::rename_to(client, p),
            _ => send_reply(Reply::NotImplemented),
        }
    }

    fn password(&self, client: &mut Client, pw: String) -> (r: Action)
        ensures
            (final(client)@, r@) == step_command(
                self.users(),
                old(client)@,
                CommandView::Pass(pw@),
            ),
    {
        let name = match &client.username {
            None => {
                return send_reply(Reply::BadCommandSequence);
            },
            Some(n) => n,
        };
        match find_user(&self.users, name) {
            None => send_reply(Reply::NotLoggedIn),
            Some(i) => {
                let u = &self.users[i];
                if u.data.password == pw {
                    client.authorize(&u.data.dir);
                    send_reply(Reply::UserLoggedIn)
                } else {
                    send_reply(Reply::NotLoggedIn)
                }
            },
        }
    }

    fn pasv(client: &mut Client) -> (r: Action)
        ensures
            (final(client)@, r@) == step_command(
                Seq::empty(),
                old(client)@,
                CommandView::Pasv,
            ),
    {
        if client.root.is_none() {
            return send_reply(Reply::NotLoggedIn);
        }
        client.pending = Pending::Listening;
        Action::Listen
    }

    fn print_dir(client: &mut Client) -> (r: Action)
        ensures
            (final(client)@, r@) == step_command(Seq::empty(), old(client)@, CommandView::Pwd),
    {
        match client.pwd() {
            Ok(dir) => send_reply(Reply::Created(dir)),
            Err(e) => send_reply(Reply::from_auth_error(e)),
        }
    }

    fn cdup(client: &mut Client) -> (r: Action)
        requires
            old(client)@.pending is Idle,
        ensures
            (final(client)@, r@) == step_command(Seq::empty(), old(client)@, CommandView::Cdup),
    {
        let up = "..";
        proof {
            reveal_strlit("..");
        }
        assert(up@ =~= seq!['.', '.']);
        Self::change_dir(client, up, true)
    }

    fn make_dir(client: &mut Client, p: String) -> (r: Action)
        ensures
            (final(client)@, r@) == step_command(Seq::empty(), old(client)@, CommandView::Mkd(p@)),
    {
        let root = match &client.root {
            None => {
                return send_reply(Reply::NotLoggedIn);
            },
            Some(r) => r,
        };
        match resolve(&client.working_dir, p.as_str()) {
            Err(e) => send_reply(path_reply(e)),
            Ok(segs) => {
                let target_path = real_string(root.as_str(), &segs);
                client.pending = Pending::MakeDir(p);
                Action::File(FileOp::MakeDir(target_path))
            },
        }
    }

    fn delete(client: &mut Client, p: String) -> (r: Action)
        ensures
            (final(client)@, r@) == step_command(Seq::empty(), old(client)@, CommandView::Dele(p@)),
    {
        let root = match &client.root {
            None => {
                return send_reply(Reply::NotLoggedIn);
            },
            Some(r) => r,
        };
        match resolve(&client.working_dir, p.as_str()) {
            Err(e) => send_reply(path_reply(e)),
            Ok(segs) => {
                let target_path = real_string(root.as_str(), &segs);
                client.pending = Pending::Delete;
                Action::File(FileOp::Remove(target_path))
            },
        }
    }

    fn rename_from(client: &mut Client, p: String) -> (r: Action)
        ensures
            (final(client)@, r@) == step_command(Seq::empty(), old(client)@, CommandView::Rnfr(p@)),
    {
        let root = match &client.root {
            None => {
                return send_reply(Reply::NotLoggedIn);
            },
            Some(r) => r,
        };
        match resolve(&client.working_dir, p.as_str()) {
            Err(e) => send_reply(path_reply(e)),
            Ok(segs) => {
                let target_path = real_string(root.as_str(), &segs);
                client.pending = Pending::RenameFrom(target_path.clone());
                Action::File(FileOp::CheckExists(target_path))
            },
        }
    }

    fn rename_to(client: &mut Client, p: String) -> (r: Action)
        ensures
            (final(client)@, r@) == step_command(Seq::empty(), old(client)@, CommandView::Rnto(p@)),
    {
        if client.root.is_none() {
            return send_reply(Reply::NotLoggedIn);
        }
        let from = match client.renaming_from.take() {
            None => {
                return send_reply(Reply::BadCommandSequence);
            },
            Some(f) => f,
        };
        let root = match &client.root {
            None => {
                return send_reply(Reply::NotLoggedIn);
            },
            Some(r) => r,
        };
        match resolve(&client.working_dir, p.as_str()) {
            Err(e) => send_reply(path_reply(e)),
            Ok(segs) => {
                let target_path = real_string(root.as_str(), &segs);
                client.pending = Pending::RenameTo;
                Action::File(FileOp::Rename(from, target_path))
            },
        }
    }

    fn listing_target(cwd: &Vec<String>, arg: &Option<String>) -> (r: Result<
        Vec<String>,
        PathError,
    >)
        ensures
            match r {
                Ok(v) => listing_target(views(cwd@), opt_view(*arg)) == Ok::<_, PathError>(
                    views(v@),
                ),
                Err(e) => listing_target(views(cwd@), opt_view(*arg)) == Err::<
                    Seq<Seq<char>>,
                    _,
                >(e),
            },
    {
        match arg {
            None => Ok(copy_segments(cwd)),
            Some(p) => {
                if p.as_str().unicode_len() == 0 {
                    Ok(copy_segments(cwd))
                } else {
                    resolve(cwd, p.as_str())
                }
            },
        }
    }

    fn data_command(
        client: &mut Client,
        target: Result<Vec<String>, PathError>,
        kind: TransferKind,
    ) -> (r: Action)
        requires
            old(client)@.pending is Idle,
        ensures
            (final(client)@, r@) == step_data(
                old(client)@,
                match target {
                    Ok(v) => Ok(views(v@)),
                    Err(e) => Err(e),
                },
                kind,
            ),
    {
        let root = match &client.root {
            None => {
                return send_reply(Reply::NotLoggedIn);
            },
            Some(r) => r,
        };
        match target {
            Err(e) => send_reply(path_reply(e)),
            Ok(segs) => {
                let target_path = real_string(root.as_str(), &segs);
                client.pending = Pending::Opening(kind, target_path);
                Action::OpenData(HostPort::new(client.data_ip, client.data_port), client.passive)
            },
        }
    }

    fn change_dir(client: &mut Client, p: &str, up: bool) -> (r: Action)
        requires
            old(client)@.pending is Idle,
        ensures
            (final(client)@, r@) == step_change_dir(old(client)@, p@, up),
    {
        let root = match &client.root {
            None => {
                return send_reply(Reply::NotLoggedIn);
            },
            Some(r) => r,
        };
        match resolve(&client.working_dir, p) {
            Err(e) => send_reply(path_reply(e)),
            Ok(segs) => {
                let target_path = real_string(root.as_str(), &segs);
                client.pending = Pending::ChangeDir(segs, up);
                Action::File(FileOp::ChangeDir(target_path))
            },
        }
    }

    /// Acts on the outcome of the action that the session waits for.
    pub fn handle_event(&self, client: &mut Client, event: Event) -> (r: Action)
        requires
            client_inv(old(client)@),
            event_fits(old(client)@.pending, event@),
        ensures
            (final(client)@, r@) == step_event(old(client)@, event@),
            client_inv(final(client)@),
    {
        proof {
            lemma_event_beneath(client@, event@);
        }
        let mut pending = Pending::Idle;
        core::mem::swap(&mut pending, &mut client.pending);
        match (pending, event) {
            (Pending::Listening, Event::Listening(Ok(hp))) => {
                client.passive = true;
                send_reply(Reply::EnteringPassiveMode(hp))
            },
            (Pending::Listening, Event::Listening(Err(_))) => send_reply(
                Reply::CantOpenDataConnection,
            ),
            (Pending::Opening(kind, path), Event::DataOpened(Ok(()))) => {
                client.pending = Pending::Transferring;
                Action::Transfer(Reply::OpeningDataConnection, Transfer { kind, path })
            },
            (Pending::Opening(_, _), Event::DataOpened(Err(_))) => {
                client.passive = false;
                send_reply(Reply::CantOpenDataConnection)
            },
            (Pending::Transferring, Event::TransferDone(r)) => {
                client.passive = false;
                match r {
                    Ok(()) => send_reply(Reply::ClosingDataConnection),
                    Err(k) => send_reply(Reply::from_io_error(k)),
                }
            },
            (Pending::ChangeDir(segs, up), Event::FileDone(Ok(()))) => {
                client.working_dir = segs;
                if up {
                    send_reply(Reply::CommandOk)
                } else {
                    send_reply(Reply::FileActionOk)
                }
            },
            (Pending::MakeDir(name), Event::FileDone(Ok(()))) => send_reply(Reply::Created(name)),
            (Pending::Delete, Event::FileDone(Ok(()))) => send_reply(Reply::FileActionOk),
            (Pending::RenameFrom(path), Event::FileDone(Ok(()))) => {
                client.renaming_from = Some(path);
                send_reply(Reply::PendingFurtherInformation)
            },
            (Pending::RenameTo, Event::FileDone(Ok(()))) => send_reply(Reply::FileActionOk),
            (_, Event::FileDone(Err(k))) => send_reply(Reply::from_io_error(k)),
            (p, _) => {
                client.pending = p;
                send_reply(Reply::LocalProcessingError)
            },
        }
    }
}

} // verus!
