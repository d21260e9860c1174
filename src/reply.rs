//! Replies of the control channel: their codes, texts and wire form, and the
//! reply that each kind of failure earns.
use vstd::prelude::*;

use crate::command::CommandError;
use crate::hostport::{hostport_text, HostPort};
use crate::text::{
    decimal, digit_char, digit_str, is_digit, lacks, lemma_decimal, lemma_digits_lack,
    lemma_join_lacks,
};

verus! {

/// A reply sent on the control channel.
#[derive(Clone, Debug, PartialEq, Eq)]
pub enum Reply {
    OpeningDataConnection,
    CommandOk,
    CommandNotImplemented,
    DirectoryStatus,
    ServiceReady,
    ServiceClosing,
    DataConnectionOpen,
    ClosingDataConnection,
    EnteringPassiveMode(HostPort),
    UserLoggedIn,
    FileActionOk,
    Created(String),
    UsernameOk,
    PendingFurtherInformation,
    ServiceNotAvailable,
    CantOpenDataConnection,
    ConnectionClosed,
    FileActionNotTaken,
    LocalProcessingError,
    InsufficientStorageSpace,
    SyntaxError,
    SyntaxErrorArg,
    NotImplemented,
    BadCommandSequence,
    BadParameter,
    NotLoggedIn,
    NeedAccountForStoring,
    FileUnavailable,
    PageTypeUnknown,
    ExceededStorageAllocation,
    FileNameNotAllowed,
}

/// A reply with its host-port as six bytes and its path name as characters.
pub enum ReplyView {
    OpeningDataConnection,
    CommandOk,
    CommandNotImplemented,
    DirectoryStatus,
    ServiceReady,
    ServiceClosing,
    DataConnectionOpen,
    ClosingDataConnection,
    EnteringPassiveMode(Seq<u8>),
    UserLoggedIn,
    FileActionOk,
    Created(Seq<char>),
    UsernameOk,
    PendingFurtherInformation,
    ServiceNotAvailable,
    CantOpenDataConnection,
    ConnectionClosed,
    FileActionNotTaken,
    LocalProcessingError,
    InsufficientStorageSpace,
    SyntaxError,
    SyntaxErrorArg,
    NotImplemented,
    BadCommandSequence,
    BadParameter,
    NotLoggedIn,
    NeedAccountForStoring,
    FileUnavailable,
    PageTypeUnknown,
    ExceededStorageAllocation,
    FileNameNotAllowed,
}

impl View for Reply {
    type V = ReplyView;

    open spec fn view(&self) -> ReplyView {
        match self {
            Reply::OpeningDataConnection => ReplyView::OpeningDataConnection,
            Reply::CommandOk => ReplyView::CommandOk,
            Reply::CommandNotImplemented => ReplyView::CommandNotImplemented,
            Reply::DirectoryStatus => ReplyView::DirectoryStatus,
            Reply::ServiceReady => ReplyView::ServiceReady,
            Reply::ServiceClosing => ReplyView::ServiceClosing,
            Reply::DataConnectionOpen => ReplyView::DataConnectionOpen,
            Reply::ClosingDataConnection => ReplyView::ClosingDataConnection,
            Reply::EnteringPassiveMode(x) => ReplyView::EnteringPassiveMode(x@),
            Reply::UserLoggedIn => ReplyView::UserLoggedIn,
            Reply::FileActionOk => ReplyView::FileActionOk,
            Reply::Created(x) => ReplyView::Created(x@),
            Reply::UsernameOk => ReplyView::UsernameOk,
            Reply::PendingFurtherInformation => ReplyView::PendingFurtherInformation,
            Reply::ServiceNotAvailable => ReplyView::ServiceNotAvailable,
            Reply::CantOpenDataConnection => ReplyView::CantOpenDataConnection,
            Reply::ConnectionClosed => ReplyView::ConnectionClosed,
            Reply::FileActionNotTaken => ReplyView::FileActionNotTaken,
            Reply::LocalProcessingError => ReplyView::LocalProcessingError,
            Reply::InsufficientStorageSpace => ReplyView::InsufficientStorageSpace,
            Reply::SyntaxError => ReplyView::SyntaxError,
            Reply::SyntaxErrorArg => ReplyView::SyntaxErrorArg,
            Reply::NotImplemented => ReplyView::NotImplemented,
            Reply::BadCommandSequence => ReplyView::BadCommandSequence,
            Reply::BadParameter => ReplyView::BadParameter,
            Reply::NotLoggedIn => ReplyView::NotLoggedIn,
            Reply::NeedAccountForStoring => ReplyView::NeedAccountForStoring,
            Reply::FileUnavailable => ReplyView::FileUnavailable,
            Reply::PageTypeUnknown => ReplyView::PageTypeUnknown,
            Reply::ExceededStorageAllocation => ReplyView::ExceededStorageAllocation,
            Reply::FileNameNotAllowed => ReplyView::FileNameNotAllowed,
        }
    }
}

/// Why a command needs an authenticated session.
#[derive(Clone, Copy, Debug, PartialEq, Eq)]
pub enum AuthError {
    /// The command needs a logged-in user.
    NotLoggedIn,
    /// PWD before logging in, which has a reply of its own.
    PwdWhileNotLoggedIn,
}

/// The kinds of failure that file system and network operations report.
#[derive(Clone, Copy, Debug, PartialEq, Eq)]
pub enum IoErrorKind {
    NotFound,
    PermissionDenied,
    ConnectionRefused,
    ConnectionReset,
    ConnectionAborted,
    BrokenPipe,
    NotConnected,
    AlreadyExists,
    InvalidInput,
    InvalidData,
    TimedOut,
    WriteZero,
    OutOfMemory,
    Other,
}

/// The status code of a reply.
pub open spec fn reply_code(r: ReplyView) -> u32 {
    match r {
        ReplyView::OpeningDataConnection => 150,
        ReplyView::CommandOk => 200,
        ReplyView::CommandNotImplemented => 202,
        ReplyView::DirectoryStatus => 212,
        ReplyView::ServiceReady => 220,
        ReplyView::ServiceClosing => 221,
        ReplyView::DataConnectionOpen => 225,
        ReplyView::ClosingDataConnection => 226,
        ReplyView::EnteringPassiveMode(_) => 227,
        ReplyView::UserLoggedIn => 230,
        ReplyView::FileActionOk => 250,
        ReplyView::Created(_) => 257,
        ReplyView::UsernameOk => 331,
        ReplyView::PendingFurtherInformation => 350,
        ReplyView::ServiceNotAvailable => 421,
        ReplyView::CantOpenDataConnection => 425,
        ReplyView::ConnectionClosed => 426,
        ReplyView::FileActionNotTaken => 450,
        ReplyView::LocalProcessingError => 451,
        ReplyView::InsufficientStorageSpace => 452,
        ReplyView::SyntaxError => 500,
        ReplyView::SyntaxErrorArg => 501,
        ReplyView::NotImplemented => 502,
        ReplyView::BadCommandSequence => 503,
        ReplyView::BadParameter => 504,
        ReplyView::NotLoggedIn => 530,
        ReplyView::NeedAccountForStoring => 532,
        ReplyView::FileUnavailable => 550,
        ReplyView::PageTypeUnknown => 551,
        ReplyView::ExceededStorageAllocation => 552,
        ReplyView::FileNameNotAllowed => 553,
    }
}

/// The text of a reply after its code, with the host-port or path name filled in.
pub open spec fn reply_message(r: ReplyView) -> Seq<char> {
    match r {
        ReplyView::OpeningDataConnection => "Opening data connection"@,
        ReplyView::CommandOk => "Command okay"@,
        ReplyView::CommandNotImplemented => "Command not implemented, superfluous at this site"@,
        ReplyView::DirectoryStatus => "Directory status"@,
        ReplyView::ServiceReady => "Service ready for new user"@,
        ReplyView::ServiceClosing => "Service closing control connection"@,
        ReplyView::DataConnectionOpen => "Data connection open; no transfer in progress"@,
        ReplyView::ClosingDataConnection => "Closing data connection. Requested file action successful"@,
        ReplyView::UserLoggedIn => "User logged in, proceed"@,
        ReplyView::FileActionOk => "Requested file action okay, proceed"@,
        ReplyView::UsernameOk => "User name okay, need password"@,
        ReplyView::PendingFurtherInformation => "Requested file action pending further information"@,
        ReplyView::ServiceNotAvailable => "Service not available, closing control connection"@,
        ReplyView::CantOpenDataConnection => "Can't open data connection"@,
        ReplyView::ConnectionClosed => "Connection closed; transfer aborted"@,
        ReplyView::FileActionNotTaken => "Requested file action not taken. File unavailable"@,
        ReplyView::LocalProcessingError => "Requested action aborted: local error in processing"@,
        ReplyView::InsufficientStorageSpace => "Requested action not taken. Insufficient storage space in system"@,
        ReplyView::SyntaxError => "Syntax error, command unrecognized"@,
        ReplyView::SyntaxErrorArg => "Syntax error in parameters or arguments"@,
        ReplyView::NotImplemented => "Command not implemented"@,
        ReplyView::BadCommandSequence => "Bad sequence of commands"@,
        ReplyView::BadParameter => "Command not implemented for that parameter"@,
        ReplyView::NotLoggedIn => "Not logged in"@,
        ReplyView::NeedAccountForStoring => "Need account for storing files"@,
        ReplyView::FileUnavailable => "Requested action not taken. File unavailable"@,
        ReplyView::PageTypeUnknown => "Requested action aborted: page type unknown"@,
        ReplyView::ExceededStorageAllocation => "Requested file action aborted. Exceeded storage allocation"@,
        ReplyView::FileNameNotAllowed => "Requested action not taken. File name not allowed"@,
        ReplyView::EnteringPassiveMode(b) => "Entering passive mode ("@ + hostport_text(b) + ")"@,
        ReplyView::Created(p) => "\""@ + p + "\" created"@,
    }
}

/// The three digits of a status code.
pub open spec fn code_text(c: u32) -> Seq<char> {
    seq![digit_char((c / 100) as nat), digit_char(((c / 10) % 10) as nat), digit_char((c % 10) as nat)]
}

/// "<code> <message>"
pub open spec fn reply_text(r: ReplyView) -> Seq<char> {
    code_text(reply_code(r)) + seq![' '] + reply_message(r)
}

/// "<code> <message>\r\n", as sent.
pub open spec fn reply_wire(r: ReplyView) -> Seq<char> {
    reply_text(r) + seq!['\r', '\n']
}

/// `s` has the shape of a reply line: three digits, a space, a text of at least
/// one character without CR or LF, and CR LF.
pub open spec fn is_reply_line(s: Seq<char>) -> bool {
    &&& s.len() >= 7
    &&& is_digit(s[0]) && is_digit(s[1]) && is_digit(s[2])
    &&& s[3] == ' '
    &&& lacks(s.subrange(4, s.len() - 2), '\r')
    &&& lacks(s.subrange(4, s.len() - 2), '\n')
    &&& s[s.len() - 2] == '\r'
    &&& s[s.len() - 1] == '\n'
}

/// A path name that can stand in a reply: it holds neither CR nor LF.
pub open spec fn fits_line(p: Seq<char>) -> bool {
    lacks(p, '\r') && lacks(p, '\n')
}

/// The reply to a line that is not a command.
pub open spec fn command_error_reply(e: CommandError) -> ReplyView {
    match e {
        CommandError::ArgMissing => ReplyView::SyntaxErrorArg,
        CommandError::BadArg => ReplyView::BadParameter,
        CommandError::InvalidCommand => ReplyView::SyntaxError,
    }
}

/// The reply to a command refused for want of a login.
pub open spec fn auth_error_reply(e: AuthError) -> ReplyView {
    match e {
        AuthError::NotLoggedIn => ReplyView::NotLoggedIn,
        AuthError::PwdWhileNotLoggedIn => ReplyView::FileUnavailable,
    }
}

/// The reply to a failed file system or network operation.
pub open spec fn io_error_reply(k: IoErrorKind) -> ReplyView {
    match k {
        IoErrorKind::NotFound | IoErrorKind::PermissionDenied => ReplyView::FileUnavailable,
        IoErrorKind::ConnectionRefused | IoErrorKind::NotConnected | IoErrorKind::TimedOut
            => ReplyView::CantOpenDataConnection,
        IoErrorKind::ConnectionReset | IoErrorKind::ConnectionAborted | IoErrorKind::BrokenPipe
            => ReplyView::ConnectionClosed,
        IoErrorKind::AlreadyExists => ReplyView::FileNameNotAllowed,
        IoErrorKind::InvalidInput => ReplyView::SyntaxErrorArg,
        IoErrorKind::InvalidData => ReplyView::BadCommandSequence,
        IoErrorKind::WriteZero | IoErrorKind::OutOfMemory | IoErrorKind::Other
            => ReplyView::LocalProcessingError,
    }
}

/// Every reply whose path name holds no CR or LF goes on the wire as one
/// well-formed reply line.
pub proof fn lemma_reply_line(r: ReplyView)
    requires
        match r {
            ReplyView::Created(p) => fits_line(p),
            _ => true,
        },
    ensures
        is_reply_line(reply_wire(r)),
{
    let c = reply_code(r);
    let digits = seq!['0', '1', '2', '3', '4', '5', '6', '7', '8', '9'];
    assert(forall|d: int| 0 <= d < 10 ==> is_digit(#[trigger] digits[d]));
    let m = reply_message(r);
    match r {
        ReplyView::OpeningDataConnection => {
            reveal_strlit("Opening data connection");
        },
        ReplyView::CommandOk => {
            reveal_strlit("Command okay");
        },
        ReplyView::CommandNotImplemented => {
            reveal_strlit("Command not implemented, superfluous at this site");
        },
        ReplyView::DirectoryStatus => {
            reveal_strlit("Directory status");
        },
        ReplyView::ServiceReady => {
            reveal_strlit("Service ready for new user");
        },
        ReplyView::ServiceClosing => {
            reveal_strlit("Service closing control connection");
        },
        ReplyView::DataConnectionOpen => {
            reveal_strlit("Data connection open; no transfer in progress");
        },
        ReplyView::ClosingDataConnection => {
            reveal_strlit("Closing data connection. Requested file action successful");
        },
        ReplyView::UserLoggedIn => {
            reveal_strlit("User logged in, proceed");
        },
        ReplyView::FileActionOk => {
            reveal_strlit("Requested file action okay, proceed");
        },
        ReplyView::UsernameOk => {
            reveal_strlit("User name okay, need password");
        },
        ReplyView::PendingFurtherInformation => {
            reveal_strlit("Requested file action pending further information");
        },
        ReplyView::ServiceNotAvailable => {
            reveal_strlit("Service not available, closing control connection");
        },
        ReplyView::CantOpenDataConnection => {
            reveal_strlit("Can't open data connection");
        },
        ReplyView::ConnectionClosed => {
            reveal_strlit("Connection closed; transfer aborted");
        },
        ReplyView::FileActionNotTaken => {
            reveal_strlit("Requested file action not taken. File unavailable");
        },
        ReplyView::LocalProcessingError => {
            reveal_strlit("Requested action aborted: local error in processing");
        },
        ReplyView::InsufficientStorageSpace => {
            reveal_strlit("Requested action not taken. Insufficient storage space in system");
        },
        ReplyView::SyntaxError => {
            reveal_strlit("Syntax error, command unrecognized");
        },
        ReplyView::SyntaxErrorArg => {
            reveal_strlit("Syntax error in parameters or arguments");
        },
        ReplyView::NotImplemented => {
            reveal_strlit("Command not implemented");
        },
        ReplyView::BadCommandSequence => {
            reveal_strlit("Bad sequence of commands");
        },
        ReplyView::BadParameter => {
            reveal_strlit("Command not implemented for that parameter");
        },
        ReplyView::NotLoggedIn => {
            reveal_strlit("Not logged in");
        },
        ReplyView::NeedAccountForStoring => {
            reveal_strlit("Need account for storing files");
        },
        ReplyView::FileUnavailable => {
            reveal_strlit("Requested action not taken. File unavailable");
        },
        ReplyView::PageTypeUnknown => {
            reveal_strlit("Requested action aborted: page type unknown");
        },
        ReplyView::ExceededStorageAllocation => {
            reveal_strlit("Requested file action aborted. Exceeded storage allocation");
        },
        ReplyView::FileNameNotAllowed => {
            reveal_strlit("Requested action not taken. File name not allowed");
        },
        ReplyView::EnteringPassiveMode(b) => {
            reveal_strlit("Entering passive mode (");
            reveal_strlit(")");
            let parts = b.map_values(|x: u8| decimal(x as nat));
            assert forall|i: int| 0 <= i < parts.len() implies lacks(#[trigger] parts[i], '\r')
                && lacks(parts[i], '\n') by {
                lemma_decimal(b[i] as nat);
                lemma_digits_lack(parts[i], '\r');
                lemma_digits_lack(parts[i], '\n');
            }
            lemma_join_lacks(parts, ',', '\r');
            lemma_join_lacks(parts, ',', '\n');
            lemma_concat_lacks3("Entering passive mode ("@, hostport_text(b), ")"@, '\r');
            lemma_concat_lacks3("Entering passive mode ("@, hostport_text(b), ")"@, '\n');
        },
        ReplyView::Created(p) => {
            reveal_strlit("\"");
            reveal_strlit("\" created");
            lemma_concat_lacks3("\""@, p, "\" created"@, '\r');
            lemma_concat_lacks3("\""@, p, "\" created"@, '\n');
        },
    }
    let w = reply_wire(r);
    assert(w.subrange(4, w.len() - 2) =~= m);
}

/// Three pieces without `x` make a whole without `x`.
pub proof fn lemma_concat_lacks3(a: Seq<char>, b: Seq<char>, c: Seq<char>, x: char)
    requires
        lacks(a, x),
        lacks(b, x),
        lacks(c, x),
    ensures
        lacks(a + b + c, x),
{
    let s = a + b + c;
    assert forall|k: int| 0 <= k < s.len() implies #[trigger] s[k] != x by {
        if k < a.len() {
            assert(s[k] == a[k]);
        } else if k < a.len() + b.len() {
            assert(s[k] == b[k - a.len()]);
        } else {
            assert(s[k] == c[k - a.len() - b.len()]);
        }
    }
}

impl Reply {
    /// The status code.
    pub fn status_code(&self) -> (c: u32)
        ensures
            c == reply_code(self@),
            100 <= c <= 999,
    {
        match self {
            Reply::OpeningDataConnection => 150,
            Reply::CommandOk => 200,
            Reply::CommandNotImplemented => 202,
            Reply::DirectoryStatus => 212,
            Reply::ServiceReady => 220,
            Reply::ServiceClosing => 221,
            Reply::DataConnectionOpen => 225,
            Reply::ClosingDataConnection => 226,
            Reply::EnteringPassiveMode(_) => 227,
            Reply::UserLoggedIn => 230,
            Reply::FileActionOk => 250,
            Reply::Created(_) => 257,
            Reply::UsernameOk => 331,
            Reply::PendingFurtherInformation => 350,
            Reply::ServiceNotAvailable => 421,
            Reply::CantOpenDataConnection => 425,
            Reply::ConnectionClosed => 426,
            Reply::FileActionNotTaken => 450,
            Reply::LocalProcessingError => 451,
            Reply::InsufficientStorageSpace => 452,
            Reply::SyntaxError => 500,
            Reply::SyntaxErrorArg => 501,
            Reply::NotImplemented => 502,
            Reply::BadCommandSequence => 503,
            Reply::BadParameter => 504,
            Reply::NotLoggedIn => 530,
            Reply::NeedAccountForStoring => 532,
            Reply::FileUnavailable => 550,
            Reply::PageTypeUnknown => 551,
            Reply::ExceededStorageAllocation => 552,
            Reply::FileNameNotAllowed => 553,
        }
    }

    /// The text after the code, with the host-port or path name filled in.
    pub fn message(&self) -> (s: String)
        ensures
            s@ == reply_message(self@),
    {
        match self {
            Reply::OpeningDataConnection => {
                proof {
                    reveal_strlit("Opening data connection");
                }
                String::from_str("Opening data connection")
            },
            Reply::CommandOk => {
                proof {
                    reveal_strlit("Command okay");
                }
                String::from_str("Command okay")
            },
            Reply::CommandNotImplemented => {
                proof {
                    reveal_strlit("Command not implemented, superfluous at this site");
                }
                String::from_str("Command not implemented, superfluous at this site")
            },
            Reply::DirectoryStatus => {
                proof {
                    reveal_strlit("Directory status");
                }
                String::from_str("Directory status")
            },
            Reply::ServiceReady => {
                proof {
                    reveal_strlit("Service ready for new user");
                }
                String::from_str("Service ready for new user")
            },
            Reply::ServiceClosing => {
                proof {
                    reveal_strlit("Service closing control connection");
                }
                String::from_str("Service closing control connection")
            },
            Reply::DataConnectionOpen => {
                proof {
                    reveal_strlit("Data connection open; no transfer in progress");
                }
                String::from_str("Data connection open; no transfer in progress")
            },
            Reply::ClosingDataConnection => {
                proof {
                    reveal_strlit("Closing data connection. Requested file action successful");
                }
                String::from_str("Closing data connection. Requested file action successful")
            },
            Reply::UserLoggedIn => {
                proof {
                    reveal_strlit("User logged in, proceed");
                }
                String::from_str("User logged in, proceed")
            },
            Reply::FileActionOk => {
                proof {
                    reveal_strlit("Requested file action okay, proceed");
                }
                String::from_str("Requested file action okay, proceed")
            },
            Reply::UsernameOk => {
                proof {
                    reveal_strlit("User name okay, need password");
                }
                String::from_str("User name okay, need password")
            },
            Reply::PendingFurtherInformation => {
                proof {
                    reveal_strlit("Requested file action pending further information");
                }
                String::from_str("Requested file action pending further information")
            },
            Reply::ServiceNotAvailable => {
                proof {
                    reveal_strlit("Service not available, closing control connection");
                }
                String::from_str("Service not available, closing control connection")
            },
            Reply::CantOpenDataConnection => {
                proof {
                    reveal_strlit("Can't open data connection");
                }
                String::from_str("Can't open data connection")
            },
            Reply::ConnectionClosed => {
                proof {
                    reveal_strlit("Connection closed; transfer aborted");
                }
                String::from_str("Connection closed; transfer aborted")
            },
            Reply::FileActionNotTaken => {
                proof {
                    reveal_strlit("Requested file action not taken. File unavailable");
                }
                String::from_str("Requested file action not taken. File unavailable")
            },
            Reply::LocalProcessingError => {
                proof {
                    reveal_strlit("Requested action aborted: local error in processing");
                }
                String::from_str("Requested action aborted: local error in processing")
            },
            Reply::InsufficientStorageSpace => {
                proof {
                    reveal_strlit("Requested action not taken. Insufficient storage space in system");
                }
                String::from_str("Requested action not taken. Insufficient storage space in system")
            },
            Reply::SyntaxError => {
                proof {
                    reveal_strlit("Syntax error, command unrecognized");
                }
                String::from_str("Syntax error, command unrecognized")
            },
            Reply::SyntaxErrorArg => {
                proof {
                    reveal_strlit("Syntax error in parameters or arguments");
                }
                String::from_str("Syntax error in parameters or arguments")
            },
            Reply::NotImplemented => {
                proof {
                    reveal_strlit("Command not implemented");
                }
                String::from_str("Command not implemented")
            },
            Reply::BadCommandSequence => {
                proof {
                    reveal_strlit("Bad sequence of commands");
                }
                String::from_str("Bad sequence of commands")
            },
            Reply::BadParameter => {
                proof {
                    reveal_strlit("Command not implemented for that parameter");
                }
                String::from_str("Command not implemented for that parameter")
            },
            Reply::NotLoggedIn => {
                proof {
                    reveal_strlit("Not logged in");
                }
                String::from_str("Not logged in")
            },
            Reply::NeedAccountForStoring => {
                proof {
                    reveal_strlit("Need account for storing files");
                }
                String::from_str("Need account for storing files")
            },
            Reply::FileUnavailable => {
                proof {
                    reveal_strlit("Requested action not taken. File unavailable");
                }
                String::from_str("Requested action not taken. File unavailable")
            },
            Reply::PageTypeUnknown => {
                proof {
                    reveal_strlit("Requested action aborted: page type unknown");
                }
                String::from_str("Requested action aborted: page type unknown")
            },
            Reply::ExceededStorageAllocation => {
                proof {
                    reveal_strlit("Requested file action aborted. Exceeded storage allocation");
                }
                String::from_str("Requested file action aborted. Exceeded storage allocation")
            },
            Reply::FileNameNotAllowed => {
                proof {
                    reveal_strlit("Requested action not taken. File name not allowed");
                }
                String::from_str("Requested action not taken. File name not allowed")
            },
            Reply::EnteringPassiveMode(hp) => {
                let mut s = String::from_str("Entering passive mode (");
                let t = hp.to_string();
                s.append(t.as_str());
                s.append(")");
                s
            },
            Reply::Created(p) => {
                let mut s = String::from_str("\"");
                s.append(p.as_str());
                s.append("\" created");
                s
            },
        }
    }

    /// "<code> <message>", without the line terminator.
    pub fn to_string(&self) -> (s: String)
        ensures
            s@ == reply_text(self@),
    {
        let c = self.status_code();
        let mut s = String::new();
        s.append(digit_str((c / 100) as u8));
        s.append(digit_str(((c / 10) % 10) as u8));
        s.append(digit_str((c % 10) as u8));
        s.append(" ");
        let m = self.message();
        s.append(m.as_str());
        proof {
            reveal_strlit(" ");
        }
        assert(s@ =~= reply_text(self@));
        s
    }

    /// The reply as sent: "<code> <message>\r\n".
    pub fn to_wire(&self) -> (s: String)
        ensures
            s@ == reply_wire(self@),
    {
        let mut s = self.to_string();
        s.append("\r\n");
        proof {
            reveal_strlit("\r\n");
        }
        assert(s@ =~= reply_wire(self@));
        s
    }

    /// The reply to a line that is not a command: 501 for a missing argument,
    /// 504 for a malformed one, 500 for an unknown verb.
    pub fn from_command_error(e: CommandError) -> (r: Reply)
        ensures
            r@ == command_error_reply(e),
    {
        match e {
            CommandError::ArgMissing => Reply::SyntaxErrorArg,
            CommandError::BadArg => Reply::BadParameter,
            CommandError::InvalidCommand => Reply::SyntaxError,
        }
    }

    /// The reply to a command refused for want of a login: 530, or 550 for PWD.
    pub fn from_auth_error(e: AuthError) -> (r: Reply)
        ensures
            r@ == auth_error_reply(e),
    {
        match e {
            AuthError::NotLoggedIn => Reply::NotLoggedIn,
            AuthError::PwdWhileNotLoggedIn => Reply::FileUnavailable,
        }
    }

    /// The reply to a failed file system or network operation.
    pub fn from_io_error(k: IoErrorKind) -> (r: Reply)
        ensures
            r@ == io_error_reply(k),
    {
        match k {
            IoErrorKind::NotFound | IoErrorKind::PermissionDenied => Reply::FileUnavailable,
            IoErrorKind::ConnectionRefused | IoErrorKind::NotConnected | IoErrorKind::TimedOut
                => Reply::CantOpenDataConnection,
            IoErrorKind::ConnectionReset | IoErrorKind::ConnectionAborted
            | IoErrorKind::BrokenPipe => Reply::ConnectionClosed,
            IoErrorKind::AlreadyExists => Reply::FileNameNotAllowed,
            IoErrorKind::InvalidInput => Reply::SyntaxErrorArg,
            IoErrorKind::InvalidData => Reply::BadCommandSequence,
            IoErrorKind::WriteZero | IoErrorKind::OutOfMemory | IoErrorKind::Other
                => Reply::LocalProcessingError,
        }
    }
}

} // verus!
