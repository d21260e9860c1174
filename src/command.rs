//! Commands of the control channel: their typed form, how a line is read into
//! one, and how one is written back as a line.
use vstd::prelude::*;

use crate::hostport::{hostport_text, lemma_hostport_text, parse_hostport, HostPort};
use crate::text::{
    ci_char_eq, decimal, lacks, lemma_decimal, lemma_digits_lack, lemma_parse_byte_decimal,
    lemma_split_once_at, lemma_split_once_whole, parse_byte, parse_u8,
    push_decimal, split_once, split_once_str,
};

verus! {

/// The representation type of TYPE.
#[derive(Clone, Copy, Debug, PartialEq, Eq)]
pub enum DataType {
    ASCII(DataFormat),
    EBCDIC(DataFormat),
    Image,
    Local(u8),
}

/// The format control of the ASCII and EBCDIC types.
#[derive(Clone, Copy, Debug, PartialEq, Eq)]
pub enum DataFormat {
    NonPrint,
    TelnetFormatEffectors,
    CarriageControl,
}

/// The file structure of STRU.
#[derive(Clone, Copy, Debug, PartialEq, Eq)]
pub enum DataStructure {
    FileStructure,
    RecordStructure,
    PageStructure,
}

/// The transfer mode of MODE.
#[derive(Clone, Copy, Debug, PartialEq, Eq)]
pub enum TransferMode {
    Stream,
    Block,
    Compressed,
}

/// The three settings of how data is represented on the data channel.
#[derive(Clone, Copy, Debug, PartialEq, Eq)]
pub struct DataRepr {
    pub data_type: DataType,
    pub data_structure: DataStructure,
    pub transfer_mode: TransferMode,
}

impl DataFormat {
    pub fn default() -> (r: DataFormat)
        ensures
            r == DataFormat::NonPrint,
    {
        DataFormat::NonPrint
    }
}

impl DataType {
    pub fn default() -> (r: DataType)
        ensures
            r == DataType::ASCII(DataFormat::NonPrint),
    {
        DataType::ASCII(DataFormat::default())
    }
}

impl DataStructure {
    pub fn default() -> (r: DataStructure)
        ensures
            r == DataStructure::FileStructure,
    {
        DataStructure::FileStructure
    }
}

impl TransferMode {
    pub fn default() -> (r: TransferMode)
        ensures
            r == TransferMode::Stream,
    {
        TransferMode::Stream
    }
}

impl DataRepr {
    /// ASCII non-print, file structure, stream mode.
    pub fn default() -> (r: DataRepr)
        ensures
            r.data_type == DataType::ASCII(DataFormat::NonPrint),
            r.data_structure == DataStructure::FileStructure,
            r.transfer_mode == TransferMode::Stream,
    {
        DataRepr {
            data_type: DataType::default(),
            data_structure: DataStructure::default(),
            transfer_mode: TransferMode::default(),
        }
    }
}

/// Why a line is not a command.
#[derive(Clone, Copy, Debug, PartialEq, Eq)]
pub enum CommandError {
    /// A required argument is absent.
    ArgMissing,
    /// An argument is present but malformed.
    BadArg,
    /// The verb is unknown.
    InvalidCommand,
}

/// The verbs that the server recognises.
#[derive(Clone, Copy, Debug, PartialEq, Eq)]
pub enum Verb {
    User,
    Pass,
    Quit,
    Port,
    Type,
    Stru,
    Mode,
    Noop,
    Retr,
    Pasv,
    Nlst,
    Stor,
    Pwd,
    Cwd,
    Mkd,
    Dele,
    Rnfr,
    Rnto,
    Cdup,
    List,
    Acct,
    Smnt,
    Rein,
    Stou,
    Appe,
    Allo,
    Rest,
    Abor,
    Rmd,
    Site,
    Syst,
    Stat,
    Help,
}

/// A command received on the control channel.
#[derive(Clone, Debug, PartialEq, Eq)]
pub enum Command {
    User(String),
    Pass(String),
    Quit,
    Port(HostPort),
    Type(DataType),
    Stru(DataStructure),
    Mode(TransferMode),
    Noop,
    Retr(String),
    Pasv,
    Nlst(Option<String>),
    Stor(String),
    Pwd,
    Cwd(String),
    Mkd(String),
    Dele(String),
    Rnfr(String),
    Rnto(String),
    Cdup,
    List(Option<String>),
    Acct,
    Smnt,
    Rein,
    Stou,
    Appe,
    Allo,
    Rest,
    Abor,
    Rmd,
    Site,
    Syst,
    Stat,
    Help,
}

/// A command with its text arguments as character sequences and a host-port
/// as its six bytes.
pub enum CommandView {
    User(Seq<char>),
    Pass(Seq<char>),
    Quit,
    Port(Seq<u8>),
    Type(DataType),
    Stru(DataStructure),
    Mode(TransferMode),
    Noop,
    Retr(Seq<char>),
    Pasv,
    Nlst(Option<Seq<char>>),
    Stor(Seq<char>),
    Pwd,
    Cwd(Seq<char>),
    Mkd(Seq<char>),
    Dele(Seq<char>),
    Rnfr(Seq<char>),
    Rnto(Seq<char>),
    Cdup,
    List(Option<Seq<char>>),
    Acct,
    Smnt,
    Rein,
    Stou,
    Appe,
    Allo,
    Rest,
    Abor,
    Rmd,
    Site,
    Syst,
    Stat,
    Help,
}

pub open spec fn opt_view(o: Option<String>) -> Option<Seq<char>> {
    match o {
        Some(s) => Some(s@),
        None => None,
    }
}

impl View for Command {
    type V = CommandView;

    open spec fn view(&self) -> CommandView {
        match self {
            Command::User(a) => CommandView::User(a@),
            Command::Pass(a) => CommandView::Pass(a@),
            Command::Quit => CommandView::Quit,
            Command::Port(a) => CommandView::Port(a@),
            Command::Type(a) => CommandView::Type(*a),
            Command::Stru(a) => CommandView::Stru(*a),
            Command::Mode(a) => CommandView::Mode(*a),
            Command::Noop => CommandView::Noop,
            Command::Retr(a) => CommandView::Retr(a@),
            Command::Pasv => CommandView::Pasv,
            Command::Nlst(a) => CommandView::Nlst(opt_view(*a)),
            Command::Stor(a) => CommandView::Stor(a@),
            Command::Pwd => CommandView::Pwd,
            Command::Cwd(a) => CommandView::Cwd(a@),
            Command::Mkd(a) => CommandView::Mkd(a@),
            Command::Dele(a) => CommandView::Dele(a@),
            Command::Rnfr(a) => CommandView::Rnfr(a@),
            Command::Rnto(a) => CommandView::Rnto(a@),
            Command::Cdup => CommandView::Cdup,
            Command::List(a) => CommandView::List(opt_view(*a)),
            Command::Acct => CommandView::Acct,
            Command::Smnt => CommandView::Smnt,
            Command::Rein => CommandView::Rein,
            Command::Stou => CommandView::Stou,
            Command::Appe => CommandView::Appe,
            Command::Allo => CommandView::Allo,
            Command::Rest => CommandView::Rest,
            Command::Abor => CommandView::Abor,
            Command::Rmd => CommandView::Rmd,
            Command::Site => CommandView::Site,
            Command::Syst => CommandView::Syst,
            Command::Stat => CommandView::Stat,
            Command::Help => CommandView::Help,
        }
    }
}

/// A command's verb.
pub open spec fn verb_of(c: CommandView) -> Verb {
    match c {
        CommandView::User(_) => Verb::User,
        CommandView::Pass(_) => Verb::Pass,
        CommandView::Quit => Verb::Quit,
        CommandView::Port(_) => Verb::Port,
        CommandView::Type(_) => Verb::Type,
        CommandView::Stru(_) => Verb::Stru,
        CommandView::Mode(_) => Verb::Mode,
        CommandView::Noop => Verb::Noop,
        CommandView::Retr(_) => Verb::Retr,
        CommandView::Pasv => Verb::Pasv,
        CommandView::Nlst(_) => Verb::Nlst,
        CommandView::Stor(_) => Verb::Stor,
        CommandView::Pwd => Verb::Pwd,
        CommandView::Cwd(_) => Verb::Cwd,
        CommandView::Mkd(_) => Verb::Mkd,
        CommandView::Dele(_) => Verb::Dele,
        CommandView::Rnfr(_) => Verb::Rnfr,
        CommandView::Rnto(_) => Verb::Rnto,
        CommandView::Cdup => Verb::Cdup,
        CommandView::List(_) => Verb::List,
        CommandView::Acct => Verb::Acct,
        CommandView::Smnt => Verb::Smnt,
        CommandView::Rein => Verb::Rein,
        CommandView::Stou => Verb::Stou,
        CommandView::Appe => Verb::Appe,
        CommandView::Allo => Verb::Allo,
        CommandView::Rest => Verb::Rest,
        CommandView::Abor => Verb::Abor,
        CommandView::Rmd => Verb::Rmd,
        CommandView::Site => Verb::Site,
        CommandView::Syst => Verb::Syst,
        CommandView::Stat => Verb::Stat,
        CommandView::Help => Verb::Help,
    }
}

/// The upper-case name of a verb.
pub open spec fn verb_name(v: Verb) -> Seq<char> {
    match v {
        Verb::User => seq!['U', 'S', 'E', 'R'],
        Verb::Pass => seq!['P', 'A', 'S', 'S'],
        Verb::Quit => seq!['Q', 'U', 'I', 'T'],
        Verb::Port => seq!['P', 'O', 'R', 'T'],
        Verb::Type => seq!['T', 'Y', 'P', 'E'],
        Verb::Stru => seq!['S', 'T', 'R', 'U'],
        Verb::Mode => seq!['M', 'O', 'D', 'E'],
        Verb::Noop => seq!['N', 'O', 'O', 'P'],
        Verb::Retr => seq!['R', 'E', 'T', 'R'],
        Verb::Pasv => seq!['P', 'A', 'S', 'V'],
        Verb::Nlst => seq!['N', 'L', 'S', 'T'],
        Verb::Stor => seq!['S', 'T', 'O', 'R'],
        Verb::Pwd => seq!['P', 'W', 'D'],
        Verb::Cwd => seq!['C', 'W', 'D'],
        Verb::Mkd => seq!['M', 'K', 'D'],
        Verb::Dele => seq!['D', 'E', 'L', 'E'],
        Verb::Rnfr => seq!['R', 'N', 'F', 'R'],
        Verb::Rnto => seq!['R', 'N', 'T', 'O'],
        Verb::Cdup => seq!['C', 'D', 'U', 'P'],
        Verb::List => seq!['L', 'I', 'S', 'T'],
        Verb::Acct => seq!['A', 'C', 'C', 'T'],
        Verb::Smnt => seq!['S', 'M', 'N', 'T'],
        Verb::Rein => seq!['R', 'E', 'I', 'N'],
        Verb::Stou => seq!['S', 'T', 'O', 'U'],
        Verb::Appe => seq!['A', 'P', 'P', 'E'],
        Verb::Allo => seq!['A', 'L', 'L', 'O'],
        Verb::Rest => seq!['R', 'E', 'S', 'T'],
        Verb::Abor => seq!['A', 'B', 'O', 'R'],
        Verb::Rmd => seq!['R', 'M', 'D'],
        Verb::Site => seq!['S', 'I', 'T', 'E'],
        Verb::Syst => seq!['S', 'Y', 'S', 'T'],
        Verb::Stat => seq!['S', 'T', 'A', 'T'],
        Verb::Help => seq!['H', 'E', 'L', 'P'],
    }
}

/// `w` spells the verb name `name` (of three or four letters), in any case.
pub open spec fn spells(w: Seq<char>, name: Seq<char>) -> bool {
    &&& w.len() == name.len()
    &&& w.len() >= 1 ==> ci_char_eq(w[0], name[0])
    &&& w.len() >= 2 ==> ci_char_eq(w[1], name[1])
    &&& w.len() >= 3 ==> ci_char_eq(w[2], name[2])
    &&& w.len() >= 4 ==> ci_char_eq(w[3], name[3])
}

/// The verb that a word names, letters compared without regard to case.
pub open spec fn lookup_verb(w: Seq<char>) -> Option<Verb> {
    if spells(w, seq!['U', 'S', 'E', 'R']) {
        Some(Verb::User)
    } else     if spells(w, seq!['P', 'A', 'S', 'S']) {
        Some(Verb::Pass)
    } else     if spells(w, seq!['Q', 'U', 'I', 'T']) {
        Some(Verb::Quit)
    } else     if spells(w, seq!['P', 'O', 'R', 'T']) {
        Some(Verb::Port)
    } else     if spells(w, seq!['T', 'Y', 'P', 'E']) {
        Some(Verb::Type)
    } else     if spells(w, seq!['S', 'T', 'R', 'U']) {
        Some(Verb::Stru)
    } else     if spells(w, seq!['M', 'O', 'D', 'E']) {
        Some(Verb::Mode)
    } else     if spells(w, seq!['N', 'O', 'O', 'P']) {
        Some(Verb::Noop)
    } else     if spells(w, seq!['R', 'E', 'T', 'R']) {
        Some(Verb::Retr)
    } else     if spells(w, seq!['P', 'A', 'S', 'V']) {
        Some(Verb::Pasv)
    } else     if spells(w, seq!['N', 'L', 'S', 'T']) {
        Some(Verb::Nlst)
    } else     if spells(w, seq!['S', 'T', 'O', 'R']) {
        Some(Verb::Stor)
    } else     if spells(w, seq!['P', 'W', 'D']) {
        Some(Verb::Pwd)
    } else     if spells(w, seq!['C', 'W', 'D']) {
        Some(Verb::Cwd)
    } else     if spells(w, seq!['M', 'K', 'D']) {
        Some(Verb::Mkd)
    } else     if spells(w, seq!['D', 'E', 'L', 'E']) {
        Some(Verb::Dele)
    } else     if spells(w, seq!['R', 'N', 'F', 'R']) {
        Some(Verb::Rnfr)
    } else     if spells(w, seq!['R', 'N', 'T', 'O']) {
        Some(Verb::Rnto)
    } else     if spells(w, seq!['C', 'D', 'U', 'P']) {
        Some(Verb::Cdup)
    } else     if spells(w, seq!['L', 'I', 'S', 'T']) {
        Some(Verb::List)
    } else     if spells(w, seq!['A', 'C', 'C', 'T']) {
        Some(Verb::Acct)
    } else     if spells(w, seq!['S', 'M', 'N', 'T']) {
        Some(Verb::Smnt)
    } else     if spells(w, seq!['R', 'E', 'I', 'N']) {
        Some(Verb::Rein)
    } else     if spells(w, seq!['S', 'T', 'O', 'U']) {
        Some(Verb::Stou)
    } else     if spells(w, seq!['A', 'P', 'P', 'E']) {
        Some(Verb::Appe)
    } else     if spells(w, seq!['A', 'L', 'L', 'O']) {
        Some(Verb::Allo)
    } else     if spells(w, seq!['R', 'E', 'S', 'T']) {
        Some(Verb::Rest)
    } else     if spells(w, seq!['A', 'B', 'O', 'R']) {
        Some(Verb::Abor)
    } else     if spells(w, seq!['R', 'M', 'D']) {
        Some(Verb::Rmd)
    } else     if spells(w, seq!['S', 'I', 'T', 'E']) {
        Some(Verb::Site)
    } else     if spells(w, seq!['S', 'Y', 'S', 'T']) {
        Some(Verb::Syst)
    } else     if spells(w, seq!['S', 'T', 'A', 'T']) {
        Some(Verb::Stat)
    } else     if spells(w, seq!['H', 'E', 'L', 'P']) {
        Some(Verb::Help)
    } else {
        None
    }
}

pub open spec fn letter(s: Seq<char>, c: char) -> bool {
    s == seq![c]
}

pub open spec fn parse_format(w: Seq<char>) -> Option<DataFormat> {
    if letter(w, 'N') {
        Some(DataFormat::NonPrint)
    } else if letter(w, 'T') {
        Some(DataFormat::TelnetFormatEffectors)
    } else if letter(w, 'C') {
        Some(DataFormat::CarriageControl)
    } else {
        None
    }
}

/// The argument of PORT: a host-port.
pub open spec fn parse_port_arg(r: Seq<char>) -> Option<Seq<u8>> {
    parse_hostport(r)
}

/// The argument of STRU: F, R or P.
pub open spec fn parse_stru_arg(r: Seq<char>) -> Option<DataStructure> {
    let w = r;
    if letter(w, 'F') {
        Some(DataStructure::FileStructure)
    } else if letter(w, 'R') {
        Some(DataStructure::RecordStructure)
    } else if letter(w, 'P') {
        Some(DataStructure::PageStructure)
    } else {
        None
    }
}

/// The argument of MODE: S, B or C.
pub open spec fn parse_mode_arg(r: Seq<char>) -> Option<TransferMode> {
    let w = r;
    if letter(w, 'S') {
        Some(TransferMode::Stream)
    } else if letter(w, 'B') {
        Some(TransferMode::Block)
    } else if letter(w, 'C') {
        Some(TransferMode::Compressed)
    } else {
        None
    }
}

/// The arguments of TYPE: A or E with an optional format (N by default), I, or
/// L with a byte size.
pub open spec fn parse_type_arg(r: Seq<char>) -> Result<DataType, CommandError> {
    let (t, sub) = split_once(r, ' ');
    let second = sub;
    if letter(t, 'A') || letter(t, 'E') {
        let f = match second {
            None => Some(DataFormat::NonPrint),
            Some(x) => parse_format(x),
        };
        match f {
            None => Err(CommandError::BadArg),
            Some(f) => if letter(t, 'A') {
                Ok(DataType::ASCII(f))
            } else {
                Ok(DataType::EBCDIC(f))
            },
        }
    } else if letter(t, 'I') {
        Ok(DataType::Image)
    } else if letter(t, 'L') {
        match second {
            None => Err(CommandError::ArgMissing),
            Some(x) => match parse_byte(x) {
                Some(b) => Ok(DataType::Local(b)),
                None => Err(CommandError::BadArg),
            },
        }
    } else {
        Err(CommandError::BadArg)
    }
}

/// The arguments that follow a verb, given the rest of the line after the
/// first space, if there is one.
pub open spec fn parse_args(v: Verb, rest: Option<Seq<char>>) -> Result<CommandView, CommandError> {
    match v {
        Verb::User => match rest {
            None => Err(CommandError::ArgMissing),
            Some(r) => Ok(CommandView::User(r)),
        },
        Verb::Pass => match rest {
            None => Err(CommandError::ArgMissing),
            Some(r) => Ok(CommandView::Pass(r)),
        },
        Verb::Quit => Ok(CommandView::Quit),
        Verb::Port => match rest {
            None => Err(CommandError::ArgMissing),
            Some(r) => match parse_port_arg(r) {
                Some(x) => Ok(CommandView::Port(x)),
                None => Err(CommandError::BadArg),
            },
        },
        Verb::Type => match rest {
            None => Err(CommandError::ArgMissing),
            Some(r) => match parse_type_arg(r) {
                Ok(t) => Ok(CommandView::Type(t)),
                Err(e) => Err(e),
            },
        },
        Verb::Stru => match rest {
            None => Err(CommandError::ArgMissing),
            Some(r) => match parse_stru_arg(r) {
                Some(x) => Ok(CommandView::Stru(x)),
                None => Err(CommandError::BadArg),
            },
        },
        Verb::Mode => match rest {
            None => Err(CommandError::ArgMissing),
            Some(r) => match parse_mode_arg(r) {
                Some(x) => Ok(CommandView::Mode(x)),
                None => Err(CommandError::BadArg),
            },
        },
        Verb::Noop => Ok(CommandView::Noop),
        Verb::Retr => match rest {
            None => Err(CommandError::ArgMissing),
            Some(r) => Ok(CommandView::Retr(r)),
        },
        Verb::Pasv => Ok(CommandView::Pasv),
        Verb::Nlst => match rest {
            None => Ok(CommandView::Nlst(None)),
            Some(r) => Ok(CommandView::Nlst(Some(r))),
        },
        Verb::Stor => match rest {
            None => Err(CommandError::ArgMissing),
            Some(r) => Ok(CommandView::Stor(r)),
        },
        Verb::Pwd => Ok(CommandView::Pwd),
        Verb::Cwd => match rest {
            None => Err(CommandError::ArgMissing),
            Some(r) => Ok(CommandView::Cwd(r)),
        },
        Verb::Mkd => match rest {
            None => Err(CommandError::ArgMissing),
            Some(r) => Ok(CommandView::Mkd(r)),
        },
        Verb::Dele => match rest {
            None => Err(CommandError::ArgMissing),
            Some(r) => Ok(CommandView::Dele(r)),
        },
        Verb::Rnfr => match rest {
            None => Err(CommandError::ArgMissing),
            Some(r) => Ok(CommandView::Rnfr(r)),
        },
        Verb::Rnto => match rest {
            None => Err(CommandError::ArgMissing),
            Some(r) => Ok(CommandView::Rnto(r)),
        },
        Verb::Cdup => Ok(CommandView::Cdup),
        Verb::List => match rest {
            None => Ok(CommandView::List(None)),
            Some(r) => Ok(CommandView::List(Some(r))),
        },
        Verb::Acct => Ok(CommandView::Acct),
        Verb::Smnt => Ok(CommandView::Smnt),
        Verb::Rein => Ok(CommandView::Rein),
        Verb::Stou => Ok(CommandView::Stou),
        Verb::Appe => Ok(CommandView::Appe),
        Verb::Allo => Ok(CommandView::Allo),
        Verb::Rest => Ok(CommandView::Rest),
        Verb::Abor => Ok(CommandView::Abor),
        Verb::Rmd => Ok(CommandView::Rmd),
        Verb::Site => Ok(CommandView::Site),
        Verb::Syst => Ok(CommandView::Syst),
        Verb::Stat => Ok(CommandView::Stat),
        Verb::Help => Ok(CommandView::Help),
    }
}

/// What a line reads as: the line is split at its first space into the verb,
/// compared without regard to case, and the argument, which is the whole rest of
/// the line; TYPE's argument is split again at its first space into the type and
/// its format or byte size.
pub open spec fn parse_command(s: Seq<char>) -> Result<CommandView, CommandError> {
    let (word, rest) = split_once(s, ' ');
    match lookup_verb(word) {
        None => Err(CommandError::InvalidCommand),
        Some(v) => parse_args(v, rest),
    }
}

pub open spec fn result_view(r: Result<Command, CommandError>) -> Result<
    CommandView,
    CommandError,
> {
    match r {
        Ok(c) => Ok(c@),
        Err(e) => Err(e),
    }
}

pub open spec fn format_text(f: DataFormat) -> Seq<char> {
    match f {
        DataFormat::NonPrint => seq!['N'],
        DataFormat::TelnetFormatEffectors => seq!['T'],
        DataFormat::CarriageControl => seq!['C'],
    }
}

pub open spec fn type_text(t: DataType) -> Seq<char> {
    match t {
        DataType::ASCII(f) => seq!['A', ' '] + format_text(f),
        DataType::EBCDIC(f) => seq!['E', ' '] + format_text(f),
        DataType::Image => seq!['I'],
        DataType::Local(b) => seq!['L', ' '] + decimal(b as nat),
    }
}

pub open spec fn stru_text(s: DataStructure) -> Seq<char> {
    match s {
        DataStructure::FileStructure => seq!['F'],
        DataStructure::RecordStructure => seq!['R'],
        DataStructure::PageStructure => seq!['P'],
    }
}

pub open spec fn mode_text(m: TransferMode) -> Seq<char> {
    match m {
        TransferMode::Stream => seq!['S'],
        TransferMode::Block => seq!['B'],
        TransferMode::Compressed => seq!['C'],
    }
}

/// The line that sends a command: its verb in upper case, then each argument
/// after a space.
pub open spec fn command_line(c: CommandView) -> Seq<char> {
    match c {
        CommandView::User(a) => verb_name(Verb::User) + seq![' '] + a,
        CommandView::Pass(a) => verb_name(Verb::Pass) + seq![' '] + a,
        CommandView::Quit => verb_name(Verb::Quit),
        CommandView::Port(x) => verb_name(Verb::Port) + seq![' '] + hostport_text(x),
        CommandView::Type(x) => verb_name(Verb::Type) + seq![' '] + type_text(x),
        CommandView::Stru(x) => verb_name(Verb::Stru) + seq![' '] + stru_text(x),
        CommandView::Mode(x) => verb_name(Verb::Mode) + seq![' '] + mode_text(x),
        CommandView::Noop => verb_name(Verb::Noop),
        CommandView::Retr(a) => verb_name(Verb::Retr) + seq![' '] + a,
        CommandView::Pasv => verb_name(Verb::Pasv),
        CommandView::Nlst(None) => verb_name(Verb::Nlst),
        CommandView::Nlst(Some(a)) => verb_name(Verb::Nlst) + seq![' '] + a,
        CommandView::Stor(a) => verb_name(Verb::Stor) + seq![' '] + a,
        CommandView::Pwd => verb_name(Verb::Pwd),
        CommandView::Cwd(a) => verb_name(Verb::Cwd) + seq![' '] + a,
        CommandView::Mkd(a) => verb_name(Verb::Mkd) + seq![' '] + a,
        CommandView::Dele(a) => verb_name(Verb::Dele) + seq![' '] + a,
        CommandView::Rnfr(a) => verb_name(Verb::Rnfr) + seq![' '] + a,
        CommandView::Rnto(a) => verb_name(Verb::Rnto) + seq![' '] + a,
        CommandView::Cdup => verb_name(Verb::Cdup),
        CommandView::List(None) => verb_name(Verb::List),
        CommandView::List(Some(a)) => verb_name(Verb::List) + seq![' '] + a,
        CommandView::Acct => verb_name(Verb::Acct),
        CommandView::Smnt => verb_name(Verb::Smnt),
        CommandView::Rein => verb_name(Verb::Rein),
        CommandView::Stou => verb_name(Verb::Stou),
        CommandView::Appe => verb_name(Verb::Appe),
        CommandView::Allo => verb_name(Verb::Allo),
        CommandView::Rest => verb_name(Verb::Rest),
        CommandView::Abor => verb_name(Verb::Abor),
        CommandView::Rmd => verb_name(Verb::Rmd),
        CommandView::Site => verb_name(Verb::Site),
        CommandView::Syst => verb_name(Verb::Syst),
        CommandView::Stat => verb_name(Verb::Stat),
        CommandView::Help => verb_name(Verb::Help),
    }
}

fn spells3(w: &str, a: char, b: char, c: char) -> (r: bool)
    ensures
        r == spells(w@, seq![a, b, c]),
{
    if w.unicode_len() != 3 {
        return false;
    }
    ci_eq_char(w.get_char(0), a) && ci_eq_char(w.get_char(1), b) && ci_eq_char(w.get_char(2), c)
}

fn spells4(w: &str, a: char, b: char, c: char, d: char) -> (r: bool)
    ensures
        r == spells(w@, seq![a, b, c, d]),
{
    if w.unicode_len() != 4 {
        return false;
    }
    ci_eq_char(w.get_char(0), a) && ci_eq_char(w.get_char(1), b) && ci_eq_char(w.get_char(2), c)
        && ci_eq_char(w.get_char(3), d)
}

fn ci_eq_char(a: char, u: char) -> (r: bool)
    ensures
        r == ci_char_eq(a, u),
{
    a == u || ('a' <= a && a <= 'z' && a as u32 == u as u32 + 32)
}

/// The verb that a word names, letters compared without regard to case.
pub fn lookup_verb_word(w: &str) -> (r: Option<Verb>)
    ensures
        r == lookup_verb(w@),
{
    if spells4(w, 'U', 'S', 'E', 'R') {
        return Some(Verb::User);
    }
    if spells4(w, 'P', 'A', 'S', 'S') {
        return Some(Verb::Pass);
    }
    if spells4(w, 'Q', 'U', 'I', 'T') {
        return Some(Verb::Quit);
    }
    if spells4(w, 'P', 'O', 'R', 'T') {
        return Some(Verb::Port);
    }
    if spells4(w, 'T', 'Y', 'P', 'E') {
        return Some(Verb::Type);
    }
    if spells4(w, 'S', 'T', 'R', 'U') {
        return Some(Verb::Stru);
    }
    if spells4(w, 'M', 'O', 'D', 'E') {
        return Some(Verb::Mode);
    }
    if spells4(w, 'N', 'O', 'O', 'P') {
        return Some(Verb::Noop);
    }
    if spells4(w, 'R', 'E', 'T', 'R') {
        return Some(Verb::Retr);
    }
    if spells4(w, 'P', 'A', 'S', 'V') {
        return Some(Verb::Pasv);
    }
    if spells4(w, 'N', 'L', 'S', 'T') {
        return Some(Verb::Nlst);
    }
    if spells4(w, 'S', 'T', 'O', 'R') {
        return Some(Verb::Stor);
    }
    if spells3(w, 'P', 'W', 'D') {
        return Some(Verb::Pwd);
    }
    if spells3(w, 'C', 'W', 'D') {
        return Some(Verb::Cwd);
    }
    if spells3(w, 'M', 'K', 'D') {
        return Some(Verb::Mkd);
    }
    if spells4(w, 'D', 'E', 'L', 'E') {
        return Some(Verb::Dele);
    }
    if spells4(w, 'R', 'N', 'F', 'R') {
        return Some(Verb::Rnfr);
    }
    if spells4(w, 'R', 'N', 'T', 'O') {
        return Some(Verb::Rnto);
    }
    if spells4(w, 'C', 'D', 'U', 'P') {
        return Some(Verb::Cdup);
    }
    if spells4(w, 'L', 'I', 'S', 'T') {
        return Some(Verb::List);
    }
    if spells4(w, 'A', 'C', 'C', 'T') {
        return Some(Verb::Acct);
    }
    if spells4(w, 'S', 'M', 'N', 'T') {
        return Some(Verb::Smnt);
    }
    if spells4(w, 'R', 'E', 'I', 'N') {
        return Some(Verb::Rein);
    }
    if spells4(w, 'S', 'T', 'O', 'U') {
        return Some(Verb::Stou);
    }
    if spells4(w, 'A', 'P', 'P', 'E') {
        return Some(Verb::Appe);
    }
    if spells4(w, 'A', 'L', 'L', 'O') {
        return Some(Verb::Allo);
    }
    if spells4(w, 'R', 'E', 'S', 'T') {
        return Some(Verb::Rest);
    }
    if spells4(w, 'A', 'B', 'O', 'R') {
        return Some(Verb::Abor);
    }
    if spells3(w, 'R', 'M', 'D') {
        return Some(Verb::Rmd);
    }
    if spells4(w, 'S', 'I', 'T', 'E') {
        return Some(Verb::Site);
    }
    if spells4(w, 'S', 'Y', 'S', 'T') {
        return Some(Verb::Syst);
    }
    if spells4(w, 'S', 'T', 'A', 'T') {
        return Some(Verb::Stat);
    }
    if spells4(w, 'H', 'E', 'L', 'P') {
        return Some(Verb::Help);
    }
    None
}

/// The upper-case name of a verb.
pub fn verb_str(v: Verb) -> (r: &'static str)
    ensures
        r@ == verb_name(v),
{
    match v {
        Verb::User => {
            proof {
                reveal_strlit("USER");
            }
            "USER"
        },
        Verb::Pass => {
            proof {
                reveal_strlit("PASS");
            }
            "PASS"
        },
        Verb::Quit => {
            proof {
                reveal_strlit("QUIT");
            }
            "QUIT"
        },
        Verb::Port => {
            proof {
                reveal_strlit("PORT");
            }
            "PORT"
        },
        Verb::Type => {
            proof {
                reveal_strlit("TYPE");
            }
            "TYPE"
        },
        Verb::Stru => {
            proof {
                reveal_strlit("STRU");
            }
            "STRU"
        },
        Verb::Mode => {
            proof {
                reveal_strlit("MODE");
            }
            "MODE"
        },
        Verb::Noop => {
            proof {
                reveal_strlit("NOOP");
            }
            "NOOP"
        },
        Verb::Retr => {
            proof {
                reveal_strlit("RETR");
            }
            "RETR"
        },
        Verb::Pasv => {
            proof {
                reveal_strlit("PASV");
            }
            "PASV"
        },
        Verb::Nlst => {
            proof {
                reveal_strlit("NLST");
            }
            "NLST"
        },
        Verb::Stor => {
            proof {
                reveal_strlit("STOR");
            }
            "STOR"
        },
        Verb::Pwd => {
            proof {
                reveal_strlit("PWD");
            }
            "PWD"
        },
        Verb::Cwd => {
            proof {
                reveal_strlit("CWD");
            }
            "CWD"
        },
        Verb::Mkd => {
            proof {
                reveal_strlit("MKD");
            }
            "MKD"
        },
        Verb::Dele => {
            proof {
                reveal_strlit("DELE");
            }
            "DELE"
        },
        Verb::Rnfr => {
            proof {
                reveal_strlit("RNFR");
            }
            "RNFR"
        },
        Verb::Rnto => {
            proof {
                reveal_strlit("RNTO");
            }
            "RNTO"
        },
        Verb::Cdup => {
            proof {
                reveal_strlit("CDUP");
            }
            "CDUP"
        },
        Verb::List => {
            proof {
                reveal_strlit("LIST");
            }
            "LIST"
        },
        Verb::Acct => {
            proof {
                reveal_strlit("ACCT");
            }
            "ACCT"
        },
        Verb::Smnt => {
            proof {
                reveal_strlit("SMNT");
            }
            "SMNT"
        },
        Verb::Rein => {
            proof {
                reveal_strlit("REIN");
            }
            "REIN"
        },
        Verb::Stou => {
            proof {
                reveal_strlit("STOU");
            }
            "STOU"
        },
        Verb::Appe => {
            proof {
                reveal_strlit("APPE");
            }
            "APPE"
        },
        Verb::Allo => {
            proof {
                reveal_strlit("ALLO");
            }
            "ALLO"
        },
        Verb::Rest => {
            proof {
                reveal_strlit("REST");
            }
            "REST"
        },
        Verb::Abor => {
            proof {
                reveal_strlit("ABOR");
            }
            "ABOR"
        },
        Verb::Rmd => {
            proof {
                reveal_strlit("RMD");
            }
            "RMD"
        },
        Verb::Site => {
            proof {
                reveal_strlit("SITE");
            }
            "SITE"
        },
        Verb::Syst => {
            proof {
                reveal_strlit("SYST");
            }
            "SYST"
        },
        Verb::Stat => {
            proof {
                reveal_strlit("STAT");
            }
            "STAT"
        },
        Verb::Help => {
            proof {
                reveal_strlit("HELP");
            }
            "HELP"
        },
    }
}

fn is_letter(w: &str, c: char) -> (r: bool)
    ensures
        r == letter(w@, c),
{
    if w.unicode_len() != 1 {
        return false;
    }
    let r = w.get_char(0) == c;
    assert(r ==> w@ =~= seq![c]);
    r
}

fn port_arg(r: &str) -> (hp: Option<HostPort>)
    ensures
        match hp {
            Some(hp) => parse_port_arg(r@) == Some(hp@),
            None => parse_port_arg(r@).is_none(),
        },
{
    match HostPort::from_str(r) {
        Ok(hp) => Some(hp),
        Err(_) => None,
    }
}

fn stru_arg(r: &str) -> (s: Option<DataStructure>)
    ensures
        s == parse_stru_arg(r@),
{
    let w = r;
    if is_letter(w, 'F') {
        Some(DataStructure::FileStructure)
    } else if is_letter(w, 'R') {
        Some(DataStructure::RecordStructure)
    } else if is_letter(w, 'P') {
        Some(DataStructure::PageStructure)
    } else {
        None
    }
}

fn mode_arg(r: &str) -> (m: Option<TransferMode>)
    ensures
        m == parse_mode_arg(r@),
{
    let w = r;
    if is_letter(w, 'S') {
        Some(TransferMode::Stream)
    } else if is_letter(w, 'B') {
        Some(TransferMode::Block)
    } else if is_letter(w, 'C') {
        Some(TransferMode::Compressed)
    } else {
        None
    }
}

fn format_arg(w: &str) -> (f: Option<DataFormat>)
    ensures
        f == parse_format(w@),
{
    if is_letter(w, 'N') {
        Some(DataFormat::NonPrint)
    } else if is_letter(w, 'T') {
        Some(DataFormat::TelnetFormatEffectors)
    } else if is_letter(w, 'C') {
        Some(DataFormat::CarriageControl)
    } else {
        None
    }
}

fn type_arg(r: &str) -> (t: Result<DataType, CommandError>)
    ensures
        t == parse_type_arg(r@),
{
    let (t, sub) = split_once_str(r, ' ');
    let second = sub;
    let is_a = is_letter(t, 'A');
    if is_a || is_letter(t, 'E') {
        let f = match second {
            None => Some(DataFormat::NonPrint),
            Some(x) => format_arg(x),
        };
        match f {
            None => Err(CommandError::BadArg),
            Some(f) => if is_a {
                Ok(DataType::ASCII(f))
            } else {
                Ok(DataType::EBCDIC(f))
            },
        }
    } else if is_letter(t, 'I') {
        Ok(DataType::Image)
    } else if is_letter(t, 'L') {
        match second {
            None => Err(CommandError::ArgMissing),
            Some(x) => match parse_u8(x) {
                Some(b) => Ok(DataType::Local(b)),
                None => Err(CommandError::BadArg),
            },
        }
    } else {
        Err(CommandError::BadArg)
    }
}

fn letter_str(c: char) -> (r: &'static str)
    requires
        c == 'A' || c == 'E' || c == 'I' || c == 'L' || c == 'N' || c == 'T' || c == 'C' || c
            == 'F' || c == 'R' || c == 'P' || c == 'S' || c == 'B',
    ensures
        r@ == seq![c],
{
    let s = "AEILNTCFRPSB";
    proof {
        reveal_strlit("AEILNTCFRPSB");
    }
    let i: usize = if c == 'A' {
        0
    } else if c == 'E' {
        1
    } else if c == 'I' {
        2
    } else if c == 'L' {
        3
    } else if c == 'N' {
        4
    } else if c == 'T' {
        5
    } else if c == 'C' {
        6
    } else if c == 'F' {
        7
    } else if c == 'R' {
        8
    } else if c == 'P' {
        9
    } else if c == 'S' {
        10
    } else {
        11
    };
    let r = s.substring_char(i, i + 1);
    assert(r@ =~= seq![c]);
    r
}

fn format_char(f: DataFormat) -> (c: char)
    ensures
        seq![c] == format_text(f),
        c == 'N' || c == 'T' || c == 'C',
{
    match f {
        DataFormat::NonPrint => 'N',
        DataFormat::TelnetFormatEffectors => 'T',
        DataFormat::CarriageControl => 'C',
    }
}

fn type_string(t: DataType) -> (r: String)
    ensures
        r@ == type_text(t),
{
    proof {
        reveal_strlit(" ");
    }
    match t {
        DataType::ASCII(f) => {
            let mut s = String::from_str(letter_str('A'));
            s.append(" ");
            s.append(letter_str(format_char(f)));
            assert(s@ =~= type_text(t));
            s
        },
        DataType::EBCDIC(f) => {
            let mut s = String::from_str(letter_str('E'));
            s.append(" ");
            s.append(letter_str(format_char(f)));
            assert(s@ =~= type_text(t));
            s
        },
        DataType::Image => String::from_str(letter_str('I')),
        DataType::Local(b) => {
            let mut s = String::from_str(letter_str('L'));
            s.append(" ");
            push_decimal(&mut s, b);
            assert(s@ =~= type_text(t));
            s
        },
    }
}

fn stru_string(x: DataStructure) -> (r: String)
    ensures
        r@ == stru_text(x),
{
    match x {
        DataStructure::FileStructure => String::from_str(letter_str('F')),
        DataStructure::RecordStructure => String::from_str(letter_str('R')),
        DataStructure::PageStructure => String::from_str(letter_str('P')),
    }
}

fn mode_string(x: TransferMode) -> (r: String)
    ensures
        r@ == mode_text(x),
{
    match x {
        TransferMode::Stream => String::from_str(letter_str('S')),
        TransferMode::Block => String::from_str(letter_str('B')),
        TransferMode::Compressed => String::from_str(letter_str('C')),
    }
}

impl Command {
    /// Reads a line (without its CR LF) as a command.
    pub fn parse_line(s: &str) -> (r: Result<Command, CommandError>)
        ensures
            result_view(r) == parse_command(s@),
    {
        let (word, rest) = split_once_str(s, ' ');
        let verb = match lookup_verb_word(word) {
            Some(v) => v,
            None => {
                return Err(CommandError::InvalidCommand);
            },
        };
        match verb {
        Verb::User => match rest {
            None => Err(CommandError::ArgMissing),
            Some(r) => Ok(Command::User(r.to_owned())),
        },
        Verb::Pass => match rest {
            None => Err(CommandError::ArgMissing),
            Some(r) => Ok(Command::Pass(r.to_owned())),
        },
        Verb::Quit => Ok(Command::Quit),
        Verb::Port => match rest {
            None => Err(CommandError::ArgMissing),
            Some(r) => match port_arg(r) {
                Some(x) => Ok(Command::Port(x)),
                None => Err(CommandError::BadArg),
            },
        },
        Verb::Type => match rest {
            None => Err(CommandError::ArgMissing),
            Some(r) => match type_arg(r) {
                Ok(t) => Ok(Command::Type(t)),
                Err(e) => Err(e),
            },
        },
        Verb::Stru => match rest {
            None => Err(CommandError::ArgMissing),
            Some(r) => match stru_arg(r) {
                Some(x) => Ok(Command::Stru(x)),
                None => Err(CommandError::BadArg),
            },
        },
        Verb::Mode => match rest {
            None => Err(CommandError::ArgMissing),
            Some(r) => match mode_arg(r) {
                Some(x) => Ok(Command::Mode(x)),
                None => Err(CommandError::BadArg),
            },
        },
        Verb::Noop => Ok(Command::Noop),
        Verb::Retr => match rest {
            None => Err(CommandError::ArgMissing),
            Some(r) => Ok(Command::Retr(r.to_owned())),
        },
        Verb::Pasv => Ok(Command::Pasv),
        Verb::Nlst => match rest {
            None => Ok(Command::Nlst(None)),
            Some(r) => Ok(Command::Nlst(Some(r.to_owned()))),
        },
        Verb::Stor => match rest {
            None => Err(CommandError::ArgMissing),
            Some(r) => Ok(Command::Stor(r.to_owned())),
        },
        Verb::Pwd => Ok(Command::Pwd),
        Verb::Cwd => match rest {
            None => Err(CommandError::ArgMissing),
            Some(r) => Ok(Command::Cwd(r.to_owned())),
        },
        Verb::Mkd => match rest {
            None => Err(CommandError::ArgMissing),
            Some(r) => Ok(Command::Mkd(r.to_owned())),
        },
        Verb::Dele => match rest {
            None => Err(CommandError::ArgMissing),
            Some(r) => Ok(Command::Dele(r.to_owned())),
        },
        Verb::Rnfr => match rest {
            None => Err(CommandError::ArgMissing),
            Some(r) => Ok(Command::Rnfr(r.to_owned())),
        },
        Verb::Rnto => match rest {
            None => Err(CommandError::ArgMissing),
            Some(r) => Ok(Command::Rnto(r.to_owned())),
        },
        Verb::Cdup => Ok(Command::Cdup),
        Verb::List => match rest {
            None => Ok(Command::List(None)),
            Some(r) => Ok(Command::List(Some(r.to_owned()))),
        },
        Verb::Acct => Ok(Command::Acct),
        Verb::Smnt => Ok(Command::Smnt),
        Verb::Rein => Ok(Command::Rein),
        Verb::Stou => Ok(Command::Stou),
        Verb::Appe => Ok(Command::Appe),
        Verb::Allo => Ok(Command::Allo),
        Verb::Rest => Ok(Command::Rest),
        Verb::Abor => Ok(Command::Abor),
        Verb::Rmd => Ok(Command::Rmd),
        Verb::Site => Ok(Command::Site),
        Verb::Syst => Ok(Command::Syst),
        Verb::Stat => Ok(Command::Stat),
        Verb::Help => Ok(Command::Help),
        }
    }

    /// The line (without CR LF) that sends this command.
    pub fn to_line(&self) -> (r: String)
        ensures
            r@ == command_line(self@),
    {
        proof {
            reveal_strlit(" ");
        }
        let mut line = String::from_str(verb_str(self.verb()));
        match self {
            Command::User(a) => {
                line.append(" ");
                line.append(a.as_str());
            },
            Command::Pass(a) => {
                line.append(" ");
                line.append(a.as_str());
            },
            Command::Quit => {},
            Command::Port(x) => {
                line.append(" ");
                let t = x.to_string();
                line.append(t.as_str());
            },
            Command::Type(x) => {
                line.append(" ");
                let t = type_string(*x);
                line.append(t.as_str());
            },
            Command::Stru(x) => {
                line.append(" ");
                let t = stru_string(*x);
                line.append(t.as_str());
            },
            Command::Mode(x) => {
                line.append(" ");
                let t = mode_string(*x);
                line.append(t.as_str());
            },
            Command::Noop => {},
            Command::Retr(a) => {
                line.append(" ");
                line.append(a.as_str());
            },
            Command::Pasv => {},
            Command::Nlst(None) => {},
            Command::Nlst(Some(a)) => {
                line.append(" ");
                line.append(a.as_str());
            },
            Command::Stor(a) => {
                line.append(" ");
                line.append(a.as_str());
            },
            Command::Pwd => {},
            Command::Cwd(a) => {
                line.append(" ");
                line.append(a.as_str());
            },
            Command::Mkd(a) => {
                line.append(" ");
                line.append(a.as_str());
            },
            Command::Dele(a) => {
                line.append(" ");
                line.append(a.as_str());
            },
            Command::Rnfr(a) => {
                line.append(" ");
                line.append(a.as_str());
            },
            Command::Rnto(a) => {
                line.append(" ");
                line.append(a.as_str());
            },
            Command::Cdup => {},
            Command::List(None) => {},
            Command::List(Some(a)) => {
                line.append(" ");
                line.append(a.as_str());
            },
            Command::Acct => {},
            Command::Smnt => {},
            Command::Rein => {},
            Command::Stou => {},
            Command::Appe => {},
            Command::Allo => {},
            Command::Rest => {},
            Command::Abor => {},
            Command::Rmd => {},
            Command::Site => {},
            Command::Syst => {},
            Command::Stat => {},
            Command::Help => {},
        }
        line
    }

    /// The command's verb.
    pub fn verb(&self) -> (v: Verb)
        ensures
            v == verb_of(self@),
    {
        match self {
            Command::User(_) => Verb::User,
            Command::Pass(_) => Verb::Pass,
            Command::Quit => Verb::Quit,
            Command::Port(_) => Verb::Port,
            Command::Type(_) => Verb::Type,
            Command::Stru(_) => Verb::Stru,
            Command::Mode(_) => Verb::Mode,
            Command::Noop => Verb::Noop,
            Command::Retr(_) => Verb::Retr,
            Command::Pasv => Verb::Pasv,
            Command::Nlst(_) => Verb::Nlst,
            Command::Stor(_) => Verb::Stor,
            Command::Pwd => Verb::Pwd,
            Command::Cwd(_) => Verb::Cwd,
            Command::Mkd(_) => Verb::Mkd,
            Command::Dele(_) => Verb::Dele,
            Command::Rnfr(_) => Verb::Rnfr,
            Command::Rnto(_) => Verb::Rnto,
            Command::Cdup => Verb::Cdup,
            Command::List(_) => Verb::List,
            Command::Acct => Verb::Acct,
            Command::Smnt => Verb::Smnt,
            Command::Rein => Verb::Rein,
            Command::Stou => Verb::Stou,
            Command::Appe => Verb::Appe,
            Command::Allo => Verb::Allo,
            Command::Rest => Verb::Rest,
            Command::Abor => Verb::Abor,
            Command::Rmd => Verb::Rmd,
            Command::Site => Verb::Site,
            Command::Syst => Verb::Syst,
            Command::Stat => Verb::Stat,
            Command::Help => Verb::Help,
        }
    }
}

/// Every verb's name is found again by lookup, and holds no space.
pub proof fn lemma_verb_name(v: Verb)
    ensures
        lookup_verb(verb_name(v)) == Some(v),
        lacks(verb_name(v), ' '),
{
}

/// A line made of a verb's name, a space and a rest reads as that verb with that rest.
pub proof fn lemma_parse_after_verb(v: Verb, rest: Seq<char>)
    ensures
        parse_command(verb_name(v) + seq![' '] + rest) == parse_args(v, Some(rest)),
{
    lemma_verb_name(v);
    lemma_split_once_at(verb_name(v), ' ', rest);
}

/// A line made of a verb's name alone reads as that verb without arguments.
pub proof fn lemma_parse_verb_alone(v: Verb)
    ensures
        parse_command(verb_name(v)) == parse_args(v, None),
{
    lemma_verb_name(v);
    lemma_split_once_whole(verb_name(v), ' ');
}

/// The written arguments of TYPE read back as the same type.
pub proof fn lemma_type_text(t: DataType)
    ensures
        parse_type_arg(type_text(t)) == Ok::<DataType, CommandError>(t),
{
    match t {
        DataType::ASCII(f) => {
            lemma_split_once_at(seq!['A'], ' ', format_text(f));
            assert(seq!['A', ' '] + format_text(f) == seq!['A'] + seq![' '] + format_text(f));
        },
        DataType::EBCDIC(f) => {
            lemma_split_once_at(seq!['E'], ' ', format_text(f));
            assert(seq!['E', ' '] + format_text(f) == seq!['E'] + seq![' '] + format_text(f));
        },
        DataType::Image => {
            lemma_split_once_whole(seq!['I'], ' ');
        },
        DataType::Local(b) => {
            lemma_decimal(b as nat);
            lemma_digits_lack(decimal(b as nat), ' ');
            lemma_parse_byte_decimal(b);
            lemma_split_once_at(seq!['L'], ' ', decimal(b as nat));
            assert(seq!['L', ' '] + decimal(b as nat) == seq!['L'] + seq![' '] + decimal(
                b as nat,
            ));
        },
    }
}

/// A command read from a line, written out again, reads back as the same command.
pub proof fn lemma_command_round_trip(l: Seq<char>)
    requires
        parse_command(l) is Ok,
    ensures
        parse_command(command_line(parse_command(l)->Ok_0)) == parse_command(l),
{
    let c = parse_command(l)->Ok_0;
    match c {
        CommandView::User(a) => {
            lemma_parse_after_verb(Verb::User, a);
        },
        CommandView::Pass(a) => {
            lemma_parse_after_verb(Verb::Pass, a);
        },
        CommandView::Quit => {
            lemma_parse_verb_alone(Verb::Quit);
        },
        CommandView::Port(b) => {
            lemma_hostport_text(b);
            lemma_parse_after_verb(Verb::Port, hostport_text(b));
        },
        CommandView::Type(t) => {
            lemma_type_text(t);
            lemma_parse_after_verb(Verb::Type, type_text(t));
        },
        CommandView::Stru(x) => {
            lemma_parse_after_verb(Verb::Stru, stru_text(x));
        },
        CommandView::Mode(x) => {
            lemma_parse_after_verb(Verb::Mode, mode_text(x));
        },
        CommandView::Noop => {
            lemma_parse_verb_alone(Verb::Noop);
        },
        CommandView::Retr(a) => {
            lemma_parse_after_verb(Verb::Retr, a);
        },
        CommandView::Pasv => {
            lemma_parse_verb_alone(Verb::Pasv);
        },
        CommandView::Nlst(o) => match o {
            None => {
                lemma_parse_verb_alone(Verb::Nlst);
            },
            Some(a) => {
                lemma_parse_after_verb(Verb::Nlst, a);
            },
        },
        CommandView::Stor(a) => {
            lemma_parse_after_verb(Verb::Stor, a);
        },
        CommandView::Pwd => {
            lemma_parse_verb_alone(Verb::Pwd);
        },
        CommandView::Cwd(a) => {
            lemma_parse_after_verb(Verb::Cwd, a);
        },
        CommandView::Mkd(a) => {
            lemma_parse_after_verb(Verb::Mkd, a);
        },
        CommandView::Dele(a) => {
            lemma_parse_after_verb(Verb::Dele, a);
        },
        CommandView::Rnfr(a) => {
            lemma_parse_after_verb(Verb::Rnfr, a);
        },
        CommandView::Rnto(a) => {
            lemma_parse_after_verb(Verb::Rnto, a);
        },
        CommandView::Cdup => {
            lemma_parse_verb_alone(Verb::Cdup);
        },
        CommandView::List(o) => match o {
            None => {
                lemma_parse_verb_alone(Verb::List);
            },
            Some(a) => {
                lemma_parse_after_verb(Verb::List, a);
            },
        },
        CommandView::Acct => {
            lemma_parse_verb_alone(Verb::Acct);
        },
        CommandView::Smnt => {
            lemma_parse_verb_alone(Verb::Smnt);
        },
        CommandView::Rein => {
            lemma_parse_verb_alone(Verb::Rein);
        },
        CommandView::Stou => {
            lemma_parse_verb_alone(Verb::Stou);
        },
        CommandView::Appe => {
            lemma_parse_verb_alone(Verb::Appe);
        },
        CommandView::Allo => {
            lemma_parse_verb_alone(Verb::Allo);
        },
        CommandView::Rest => {
            lemma_parse_verb_alone(Verb::Rest);
        },
        CommandView::Abor => {
            lemma_parse_verb_alone(Verb::Abor);
        },
        CommandView::Rmd => {
            lemma_parse_verb_alone(Verb::Rmd);
        },
        CommandView::Site => {
            lemma_parse_verb_alone(Verb::Site);
        },
        CommandView::Syst => {
            lemma_parse_verb_alone(Verb::Syst);
        },
        CommandView::Stat => {
            lemma_parse_verb_alone(Verb::Stat);
        },
        CommandView::Help => {
            lemma_parse_verb_alone(Verb::Help);
        },
    }
}

} // verus!
