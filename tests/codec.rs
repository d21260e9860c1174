use ftp::app::{first_missing_index, App, AppError, AppEvent, AppStep, Stage};
use ftp::command::{
    Command, CommandError, DataFormat, DataRepr, DataStructure, DataType, TransferMode,
};
use ftp::config::{CliSettings, Config, FileSettings, LogLevel};
use ftp::framer::{FrameError, LineFramer, MAX_LINE};
use ftp::hostport::HostPort;
use ftp::path::{real_string, resolve, virtual_string, PathError};
use ftp::reply::{AuthError, IoErrorKind, Reply};
use ftp::user::{find_user, User};

fn localhost(port: u16) -> HostPort {
    HostPort::new([127, 0, 0, 1], port)
}

#[test]
fn reply_test_reply_creation() {
    let reply = Reply::CommandOk;
    assert_eq!(reply.to_string(), "200 Command okay");
    let reply = Reply::EnteringPassiveMode(localhost(8888));
    assert_eq!(reply.to_string(), "227 Entering passive mode (127,0,0,1,34,184)");
    let reply = Reply::Created("very-important-directory".to_owned());
    assert_eq!(reply.to_string(), "257 \"very-important-directory\" created")
}

#[test]
fn protocol_interpreter_test_reply_creation() {
    let reply = Reply::CommandOk;
    assert_eq!(reply.to_string(), "200 Command okay");
    let reply = Reply::EnteringPassiveMode(HostPort::new([127, 0, 0, 1], 8888));
    assert_eq!(reply.to_string(), "227 Entering passive mode (127,0,0,1,34,184)");
    let reply = Reply::Created("very-important-directory".to_owned());
    assert_eq!(reply.to_string(), "257 \"very-important-directory\" created")
}

fn is_reply_line(s: &str) -> bool {
    let b = s.as_bytes();
    b.len() >= 7
        && b[..3].iter().all(|c| c.is_ascii_digit())
        && b[3] == b' '
        && s.ends_with("\r\n")
        && !s[4..s.len() - 2].contains('\r')
        && !s[4..s.len() - 2].contains('\n')
}

#[test]
fn every_reply_is_one_line() {
    let all = vec![
        Reply::OpeningDataConnection,
        Reply::CommandOk,
        Reply::CommandNotImplemented,
        Reply::DirectoryStatus,
        Reply::ServiceReady,
        Reply::ServiceClosing,
        Reply::DataConnectionOpen,
        Reply::ClosingDataConnection,
        Reply::EnteringPassiveMode(HostPort::new([255, 255, 255, 255], 65535)),
        Reply::UserLoggedIn,
        Reply::FileActionOk,
        Reply::Created("/a/b c".to_owned()),
        Reply::UsernameOk,
        Reply::PendingFurtherInformation,
        Reply::ServiceNotAvailable,
        Reply::CantOpenDataConnection,
        Reply::ConnectionClosed,
        Reply::FileActionNotTaken,
        Reply::LocalProcessingError,
        Reply::InsufficientStorageSpace,
        Reply::SyntaxError,
        Reply::SyntaxErrorArg,
        Reply::NotImplemented,
        Reply::BadCommandSequence,
        Reply::BadParameter,
        Reply::NotLoggedIn,
        Reply::NeedAccountForStoring,
        Reply::FileUnavailable,
        Reply::PageTypeUnknown,
        Reply::ExceededStorageAllocation,
        Reply::FileNameNotAllowed,
    ];
    for r in &all {
        let w = r.to_wire();
        assert!(is_reply_line(&w), "{:?}", w);
        assert_eq!(w[..3].parse::<u32>().unwrap(), r.status_code());
        assert_eq!(w, format!("{} {}\r\n", r.status_code(), r.message()));
    }
    assert_eq!(Reply::InsufficientStorageSpace.status_code(), 452);
    assert_eq!(
        Reply::ExceededStorageAllocation.to_wire(),
        "552 Requested file action aborted. Exceeded storage allocation\r\n"
    );
}

#[test]
fn error_replies() {
    assert_eq!(Reply::from_command_error(CommandError::ArgMissing).status_code(), 501);
    assert_eq!(Reply::from_command_error(CommandError::BadArg).status_code(), 504);
    assert_eq!(Reply::from_command_error(CommandError::InvalidCommand).status_code(), 500);
    assert_eq!(Reply::from_auth_error(AuthError::NotLoggedIn).status_code(), 530);
    assert_eq!(Reply::from_auth_error(AuthError::PwdWhileNotLoggedIn).status_code(), 550);
    let cases = [
        (IoErrorKind::NotFound, 550),
        (IoErrorKind::PermissionDenied, 550),
        (IoErrorKind::ConnectionRefused, 425),
        (IoErrorKind::TimedOut, 425),
        (IoErrorKind::ConnectionReset, 426),
        (IoErrorKind::BrokenPipe, 426),
        (IoErrorKind::AlreadyExists, 553),
        (IoErrorKind::InvalidInput, 501),
        (IoErrorKind::InvalidData, 503),
        (IoErrorKind::Other, 451),
    ];
    for (k, code) in cases {
        assert_eq!(Reply::from_io_error(k).status_code(), code);
    }
}

#[test]
fn hostport_round_trip() {
    for hp in [localhost(8888), HostPort::new([0, 0, 0, 0], 0), HostPort::new([10, 200, 3, 255], 65535)] {
        let text = hp.to_string();
        assert_eq!(HostPort::from_str(&text), Ok(hp));
    }
    assert_eq!(localhost(8888).to_string(), "127,0,0,1,34,184");
    assert_eq!(HostPort::default(), localhost(0));
}

#[test]
fn hostport_parse_is_strict() {
    assert_eq!(HostPort::from_str("192,168,001,2,0,21"), Ok(HostPort::new([192, 168, 1, 2], 21)));
    assert!(HostPort::from_str("1,2,3,4,5").is_err());
    assert!(HostPort::from_str("1,2,3,4,5,6,7").is_err());
    assert!(HostPort::from_str("1,2,3,4,5,256").is_err());
    assert!(HostPort::from_str("1,2,3,4,5,").is_err());
    assert!(HostPort::from_str("1,2,3,4,5,x").is_err());
    assert!(HostPort::from_str("").is_err());
}

#[test]
fn parse_commands() {
    assert_eq!(Command::parse_line("USER test"), Ok(Command::User("test".to_owned())));
    assert_eq!(Command::parse_line("user test"), Ok(Command::User("test".to_owned())));
    assert_eq!(Command::parse_line("QuIt"), Ok(Command::Quit));
    assert_eq!(Command::parse_line("CWD a b"), Ok(Command::Cwd("a b".to_owned())));
    assert_eq!(Command::parse_line("NLST"), Ok(Command::Nlst(None)));
    assert_eq!(Command::parse_line("LIST x"), Ok(Command::List(Some("x".to_owned()))));
    assert_eq!(Command::parse_line("PORT 127,0,0,1,34,184"), Ok(Command::Port(localhost(8888))));
    assert_eq!(Command::parse_line("TYPE A"), Ok(Command::Type(DataType::ASCII(DataFormat::NonPrint))));
    assert_eq!(
        Command::parse_line("TYPE E T"),
        Ok(Command::Type(DataType::EBCDIC(DataFormat::TelnetFormatEffectors)))
    );
    assert_eq!(Command::parse_line("TYPE L 8"), Ok(Command::Type(DataType::Local(8))));
    assert_eq!(Command::parse_line("TYPE I"), Ok(Command::Type(DataType::Image)));
    assert_eq!(Command::parse_line("STRU R"), Ok(Command::Stru(DataStructure::RecordStructure)));
    assert_eq!(Command::parse_line("MODE B"), Ok(Command::Mode(TransferMode::Block)));
    assert_eq!(Command::parse_line("ABOR"), Ok(Command::Abor));
}

#[test]
fn parse_command_errors() {
    assert_eq!(Command::parse_line("USER"), Err(CommandError::ArgMissing));
    assert_eq!(Command::parse_line("TYPE"), Err(CommandError::ArgMissing));
    assert_eq!(Command::parse_line("TYPE L"), Err(CommandError::ArgMissing));
    assert_eq!(Command::parse_line("TYPE L 256"), Err(CommandError::BadArg));
    assert_eq!(Command::parse_line("TYPE A X"), Err(CommandError::BadArg));
    assert_eq!(Command::parse_line("TYPE Q"), Err(CommandError::BadArg));
    assert_eq!(Command::parse_line("PORT 1,2,3"), Err(CommandError::BadArg));
    assert_eq!(Command::parse_line("STRU X"), Err(CommandError::BadArg));
    assert_eq!(Command::parse_line("MODE"), Err(CommandError::ArgMissing));
    assert_eq!(Command::parse_line("XYZ"), Err(CommandError::InvalidCommand));
    assert_eq!(Command::parse_line(""), Err(CommandError::InvalidCommand));
    assert_eq!(Command::parse_line("USERS x"), Err(CommandError::InvalidCommand));
}

#[test]
fn command_line_round_trip() {
    for line in [
        "USER test",
        "pass a secret",
        "PORT 10,0,0,1,4,1",
        "type A",
        "TYPE E C",
        "TYPE L 007",
        "TYPE I",
        "stru P",
        "MODE C",
        "NLST",
        "NLST dir",
        "LIST",
        "RETR a b.txt",
        "STOR x",
        "CWD ..",
        "CDUP",
        "MKD m",
        "DELE d",
        "RNFR f",
        "RNTO t",
        "PWD",
        "PASV",
        "NOOP",
        "QUIT",
        "HELP me",
    ] {
        let c = Command::parse_line(line).unwrap();
        assert_eq!(Command::parse_line(&c.to_line()), Ok(c), "{}", line);
    }
    assert_eq!(Command::parse_line("type A").unwrap().to_line(), "TYPE A N");
    assert_eq!(Command::parse_line("TYPE L 007").unwrap().to_line(), "TYPE L 7");
    assert_eq!(Command::parse_line("PORT 10,0,0,1,4,1").unwrap().to_line(), "PORT 10,0,0,1,4,1");
    assert_eq!(Command::parse_line("help me").unwrap().to_line(), "HELP");
}

#[test]
fn data_repr_defaults() {
    let d = DataRepr::default();
    assert_eq!(d.data_type, DataType::ASCII(DataFormat::NonPrint));
    assert_eq!(d.data_structure, DataStructure::FileStructure);
    assert_eq!(d.transfer_mode, TransferMode::Stream);
}

#[test]
fn framer_joins_split_terminators() {
    let mut f = LineFramer::new();
    f.push_bytes(b"USER te");
    assert_eq!(f.next_line(), None);
    f.push_bytes(b"st\r");
    assert_eq!(f.next_line(), None);
    f.push_bytes(b"\nPWD\r\nNO");
    assert_eq!(f.next_line(), Some(Ok("USER test".to_owned())));
    assert_eq!(f.next_line(), Some(Ok("PWD".to_owned())));
    assert_eq!(f.next_line(), None);
    f.push_bytes(b"OP\r\n");
    assert_eq!(f.next_line(), Some(Ok("NOOP".to_owned())));
}

#[test]
fn framer_refuses_bad_lines() {
    let mut f = LineFramer::new();
    f.push_bytes(b"USER \xc3\xa9\r\nPWD\r\n");
    assert_eq!(f.next_line(), Some(Err(FrameError::NotAscii)));
    assert_eq!(f.next_line(), Some(Ok("PWD".to_owned())));
    let mut long = vec![b'a'; MAX_LINE + 1];
    long.extend_from_slice(b"\r\n");
    f.push_bytes(&long);
    assert_eq!(f.next_line(), Some(Err(FrameError::TooLong)));
    let mut exact = vec![b'a'; MAX_LINE];
    exact.extend_from_slice(b"\r\n");
    f.push_bytes(&exact);
    assert_eq!(f.next_line().unwrap().unwrap().len(), MAX_LINE);
    f.push_bytes(&vec![b'b'; MAX_LINE + 2]);
    assert_eq!(f.next_line(), Some(Err(FrameError::TooLong)));
    assert_eq!(f.next_line(), None);
}

#[test]
fn path_resolution() {
    let none: Vec<String> = Vec::new();
    let ab = resolve(&none, "a/./b//c/..").unwrap();
    assert_eq!(ab, vec!["a".to_owned(), "b".to_owned()]);
    assert_eq!(virtual_string(&ab), "/a/b");
    assert_eq!(real_string("/tmp/ftp", &ab), "/tmp/ftp/a/b");
    assert_eq!(resolve(&ab, "../../../.."), Ok(Vec::new()));
    assert_eq!(virtual_string(&none), "/");
    assert_eq!(real_string("/tmp/ftp", &none), "/tmp/ftp/");
    assert_eq!(resolve(&ab, ""), Err(PathError::Empty));
    assert_eq!(resolve(&ab, "/etc"), Err(PathError::Absolute));
    assert_eq!(resolve(&ab, ".."), Ok(vec!["a".to_owned()]));
}

#[test]
fn user_lookup_takes_the_last_record() {
    let users = vec![
        User::new("a".to_owned(), "1".to_owned(), "/x".to_owned()),
        User::new("b".to_owned(), "2".to_owned(), "/y".to_owned()),
        User::new("a".to_owned(), "3".to_owned(), "/z".to_owned()),
    ];
    assert_eq!(find_user(&users, &"a".to_owned()), Some(2));
    assert_eq!(find_user(&users, &"b".to_owned()), Some(1));
    assert_eq!(find_user(&users, &"c".to_owned()), None);
}

#[test]
fn config_layers() {
    let mut c = Config::default();
    assert_eq!(c.ip, [127, 0, 0, 1]);
    assert_eq!(c.port, 21);
    assert_eq!(c.timeout, 180);
    assert_eq!(c.log.console.level, LogLevel::Debug);
    assert_eq!(c.log.sys.level, LogLevel::Error);
    c.merge_file(FileSettings {
        ip: None,
        port: Some(2137),
        timeout: Some(190),
        users: vec![User::new("Henryk".to_owned(), "pw".to_owned(), "/home/henryk".to_owned())],
        file_log: None,
        console_level: Some(LogLevel::Warn),
        sys_level: None,
    });
    assert_eq!(c.port, 2137);
    assert_eq!(c.timeout, 190);
    assert_eq!(c.users.len(), 1);
    assert_eq!(c.log.console.level, LogLevel::Warn);
    c.merge_cli(&CliSettings { config_file: None, ip: Some([10, 0, 0, 1]), port: None });
    assert_eq!(c.ip, [10, 0, 0, 1]);
    assert_eq!(c.port, 2137);
    c.push_user("Maria".to_owned(), "123".to_owned(), "/home/maria/ftp".to_owned());
    assert_eq!(c.users[1].data.dir, "/home/maria/ftp");
}

#[test]
fn app_start_up_with_named_file() {
    let mut app = App::new();
    let step = app.run(AppEvent::Start(CliSettings {
        config_file: Some("ftp.toml".to_owned()),
        ip: None,
        port: Some(2121),
    }));
    assert!(matches!(step, AppStep::ReadFile(ref p) if p == "ftp.toml"));
    match app.run(AppEvent::FileRead(Err(IoErrorKind::NotFound))) {
        AppStep::Fail(AppError::ConfigUnreadable(p, k)) => {
            assert_eq!(p, "ftp.toml");
            assert_eq!(k, IoErrorKind::NotFound);
        }
        other => panic!("{:?}", other),
    }
    assert_eq!(app.stage, Stage::Done);
}

#[test]
fn app_start_up_with_default_file() {
    let mut app = App::new();
    let step = app.run(AppEvent::Start(CliSettings { config_file: None, ip: None, port: Some(2121) }));
    assert!(matches!(step, AppStep::ReadFile(ref p) if p == "config.toml"));
    assert!(matches!(app.run(AppEvent::FileRead(Ok("x".to_owned()))), AppStep::Decode(ref t) if t == "x"));
    let settings = FileSettings {
        ip: Some([0, 0, 0, 0]),
        port: Some(2137),
        timeout: None,
        users: vec![
            User::new("a".to_owned(), "1".to_owned(), "/a".to_owned()),
            User::new("b".to_owned(), "2".to_owned(), "/b".to_owned()),
        ],
        file_log: None,
        console_level: None,
        sys_level: None,
    };
    assert!(matches!(app.run(AppEvent::Decoded(Ok(settings))), AppStep::StartLogger));
    assert_eq!(app.config.port, 2121);
    assert_eq!(app.config.ip, [0, 0, 0, 0]);
    assert!(matches!(app.run(AppEvent::LoggerStarted(true)), AppStep::CheckDirs));
    match app.run(AppEvent::DirsChecked(vec![true, false])) {
        AppStep::Fail(AppError::MissingDirectory(name, dir)) => {
            assert_eq!(name, "b");
            assert_eq!(dir, "/b");
        }
        other => panic!("{:?}", other),
    }
}

#[test]
fn app_default_file_may_be_missing() {
    let mut app = App::new();
    app.run(AppEvent::Start(CliSettings { config_file: None, ip: Some([1, 2, 3, 4]), port: None }));
    assert!(matches!(app.run(AppEvent::FileRead(Err(IoErrorKind::NotFound))), AppStep::StartLogger));
    assert_eq!(app.config.ip, [1, 2, 3, 4]);
    assert_eq!(app.config.port, 21);
    assert!(matches!(app.run(AppEvent::LoggerStarted(true)), AppStep::CheckDirs));
    assert!(matches!(app.run(AppEvent::DirsChecked(Vec::new())), AppStep::Serve));
}

#[test]
fn app_decode_failure() {
    let mut app = App::new();
    app.run(AppEvent::Start(CliSettings { config_file: None, ip: None, port: None }));
    app.run(AppEvent::FileRead(Ok("[[".to_owned())));
    match app.run(AppEvent::Decoded(Err("bad".to_owned()))) {
        AppStep::Fail(AppError::ConfigInvalid(p, m)) => {
            assert_eq!(p, "config.toml");
            assert_eq!(m, "bad");
        }
        other => panic!("{:?}", other),
    }
}

#[test]
fn first_missing_position() {
    assert_eq!(first_missing_index(&vec![true, true, false, false]), 2);
    assert_eq!(first_missing_index(&vec![true]), 1);
    assert_eq!(first_missing_index(&Vec::new()), 0);
}

#[test]
fn app_logger_failure() {
    let mut app = App::new();
    app.run(AppEvent::Start(CliSettings { config_file: None, ip: None, port: None }));
    app.run(AppEvent::FileRead(Err(IoErrorKind::NotFound)));
    assert!(matches!(app.run(AppEvent::LoggerStarted(false)), AppStep::Fail(AppError::LoggerFailed)));
    assert_eq!(app.stage, Stage::Done);
}
