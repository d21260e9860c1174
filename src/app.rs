//! Start-up of the server: which configuration file to read, how the settings
//! are layered, and when the configuration is fit to serve. The reading,
//! decoding, logging and serving are done by the caller, step by step.
use vstd::prelude::*;

use crate::config::{or_else, CliSettings, Config, FileSettings};
use crate::reply::IoErrorKind;
use crate::user::records;

verus! {

/// Why the server does not start.
#[derive(Debug)]
pub enum AppError {
    /// The configuration file named on the command line cannot be read.
    ConfigUnreadable(String, IoErrorKind),
    /// The configuration file cannot be decoded; the caller's explanation.
    ConfigInvalid(String, String),
    /// The logger cannot be started.
    LoggerFailed,
    /// A user's root directory does not exist: the user's name and the directory.
    MissingDirectory(String, String),
}

/// What the caller is to do next.
#[derive(Debug)]
pub enum AppStep {
    /// Read this configuration file and report `AppEvent::FileRead`.
    ReadFile(String),
    /// Decode the text read and report `AppEvent::Decoded`.
    Decode(String),
    /// Start the logger as `config.log` says and report `AppEvent::LoggerStarted`.
    StartLogger,
    /// Check that each user's directory exists, in order, and report `AppEvent::DirsChecked`.
    CheckDirs,
    /// Serve with `config`.
    Serve,
    /// Stop with this error.
    Fail(AppError),
}

/// The outcome of a step.
#[derive(Debug)]
pub enum AppEvent {
    Start(CliSettings),
    FileRead(Result<String, IoErrorKind>),
    Decoded(Result<FileSettings, String>),
    LoggerStarted(bool),
    DirsChecked(Vec<bool>),
}

/// Where start-up stands.
#[derive(Clone, Copy, Debug, PartialEq, Eq)]
pub enum Stage {
    Begin,
    /// The file is being read; it was named on the command line when the flag is set.
    Reading(bool),
    Decoding,
    Logging,
    Checking,
    Done,
}

/// The file read when the command line names none.
pub open spec fn default_config_path() -> Seq<char> {
    seq!['c', 'o', 'n', 'f', 'i', 'g', '.', 't', 'o', 'm', 'l']
}

/// The start-up of the server.
pub struct App {
    pub config: Config,
    pub stage: Stage,
    /// What the command line set.
    pub cli: CliSettings,
    /// The configuration file being read or decoded.
    pub path: String,
}

/// The event answers the step of this stage.
pub open spec fn event_fits(stage: Stage, e: AppEvent) -> bool {
    match stage {
        Stage::Begin => e is Start,
        Stage::Reading(_) => e is FileRead,
        Stage::Decoding => e is Decoded,
        Stage::Logging => e is LoggerStarted,
        Stage::Checking => e is DirsChecked,
        Stage::Done => false,
    }
}

/// The position of the first `false`, or the length when there is none.
pub open spec fn first_missing(v: Seq<bool>) -> int
    decreases v.len(),
{
    if v.len() == 0 {
        0
    } else if !v[0] {
        0
    } else {
        1 + first_missing(v.drop_first())
    }
}

/// The position of the first `false`, or the length when there is none.
pub fn first_missing_index(v: &Vec<bool>) -> (r: usize)
    ensures
        r == first_missing(v@),
{
    let mut i: usize = 0;
    assert(v@.skip(0) == v@);
    while i < v.len()
        invariant
            i <= v@.len(),
            first_missing(v@) == i + first_missing(v@.skip(i as int)),
        decreases v@.len() - i,
    {
        assert(v@.skip(i as int).drop_first() == v@.skip(i + 1));
        if !v[i] {
            return i;
        }
        i = i + 1;
    }
    assert(v@.skip(i as int).len() == 0);
    i
}

impl App {
    /// Start-up with the built-in defaults.
    pub fn new() -> (r: App)
        ensures
            r.stage == Stage::Begin,
            r.config.port == 21,
            r.config.timeout == 180,
            r.config.users@.len() == 0,
    {
        App {
            config: Config::default(),
            stage: Stage::Begin,
            cli: CliSettings { config_file: None, ip: None, port: None },
            path: String::new(),
        }
    }

    /// The configuration file being read or decoded.
    pub open spec fn config_path(&self) -> Seq<char> {
        self.path@
    }

    /// The address and port set on the command line.
    pub open spec fn cli_ip(&self) -> Option<[u8; 4]> {
        self.cli.ip
    }

    pub open spec fn cli_port(&self) -> Option<u16> {
        self.cli.port
    }

    /// Takes the next start-up decision.
    /// - Start: read the file that the command line names, else "config.toml".
    /// - A file named on the command line that cannot be read stops start-up;
    ///   the default file may be missing, and the defaults then stand.
    /// - The file's settings replace the defaults, and the command line's
    ///   replace both.
    /// - The configuration serves only when every user's directory exists.
    pub fn run(&mut self, event: AppEvent) -> (r: AppStep)
        requires
            event_fits(old(self).stage, event),
            event matches AppEvent::DirsChecked(v) ==> v@.len() == old(self).config.users@.len(),
        ensures
            match event {
                AppEvent::Start(cli) => {
                    &&& final(self).stage == Stage::Reading(cli.config_file is Some)
                    &&& final(self).config_path() == match cli.config_file {
                        Some(p) => p@,
                        None => default_config_path(),
                    }
                    &&& final(self).cli_ip() == cli.ip && final(self).cli_port() == cli.port
                    &&& r matches AppStep::ReadFile(p) && p@ == final(self).config_path()
                    &&& final(self).config == old(self).config
                },
                AppEvent::FileRead(Ok(text)) => {
                    &&& final(self).stage == Stage::Decoding
                    &&& r matches AppStep::Decode(t) && t@ == text@
                    &&& final(self).config == old(self).config
                    &&& final(self).config_path() == old(self).config_path()
                },
                AppEvent::FileRead(Err(k)) => match old(self).stage {
                    Stage::Reading(true) => {
                        &&& final(self).stage == Stage::Done
                        &&& (r matches AppStep::Fail(AppError::ConfigUnreadable(p, k2)) && p@
                            == old(self).config_path() && k2 == k)
                    },
                    _ => {
                        &&& final(self).stage == Stage::Logging
                        &&& r is StartLogger
                        &&& final(self).config.ip == or_else(
                            old(self).cli_ip(),
                            old(self).config.ip,
                        )
                        &&& final(self).config.port == or_else(
                            old(self).cli_port(),
                            old(self).config.port,
                        )
                        &&& final(self).config.timeout == old(self).config.timeout
                        &&& final(self).config.users == old(self).config.users
                        &&& final(self).config.log == old(self).config.log
                    },
                },
                AppEvent::Decoded(Ok(s)) => {
                    &&& final(self).stage == Stage::Logging
                    &&& r is StartLogger
                    &&& final(self).config.ip == or_else(
                        old(self).cli_ip(),
                        or_else(s.ip, old(self).config.ip),
                    )
                    &&& final(self).config.port == or_else(
                        old(self).cli_port(),
                        or_else(s.port, old(self).config.port),
                    )
                    &&& final(self).config.timeout == or_else(s.timeout, old(self).config.timeout)
                    &&& records(final(self).config.users@) == records(old(self).config.users@)
                        + records(s.users@)
                    &&& final(self).config.log.file == (match s.file_log {
                        Some(f) => Some(f),
                        None => old(self).config.log.file,
                    })
                    &&& final(self).config.log.console.level == or_else(
                        s.console_level,
                        old(self).config.log.console.level,
                    )
                    &&& final(self).config.log.sys.level == or_else(
                        s.sys_level,
                        old(self).config.log.sys.level,
                    )
                },
                AppEvent::Decoded(Err(m)) => {
                    &&& final(self).stage == Stage::Done
                    &&& (r matches AppStep::Fail(AppError::ConfigInvalid(p, m2)) && p@
                        == old(self).config_path() && m2@ == m@)
                },
                AppEvent::LoggerStarted(ok) => final(self).config == old(self).config && if ok {
                    final(self).stage == Stage::Checking && r is CheckDirs
                } else {
                    final(self).stage == Stage::Done && r matches AppStep::Fail(
                        AppError::LoggerFailed,
                    )
                },
                AppEvent::DirsChecked(v) => {
                    &&& final(self).stage == Stage::Done
                    &&& final(self).config == old(self).config
                    &&& first_missing(v@) == v@.len() ==> r is Serve
                    &&& first_missing(v@) < v@.len() ==> (r matches AppStep::Fail(
                        AppError::MissingDirectory(name, dir),
                    ) && name@ == old(self).config.users@[first_missing(v@)].username@ && dir@
                        == old(self).config.users@[first_missing(v@)].data.dir@)
                },
            },
    {
        match event {
            AppEvent::Start(cli) => {
                let path = match &cli.config_file {
                    Some(p) => p.clone(),
                    None => {
                        proof {
                            reveal_strlit("config.toml");
                        }
                        let p = String::from_str("config.toml");
                        assert(p@ =~= default_config_path());
                        p
                    },
                };
                self.stage = Stage::Reading(cli.config_file.is_some());
                self.cli = cli;
                self.path = path.clone();
                AppStep::ReadFile(path)
            },
            AppEvent::FileRead(Ok(text)) => {
                self.stage = Stage::Decoding;
                AppStep::Decode(text)
            },
            AppEvent::FileRead(Err(k)) => {
                if let Stage::Reading(true) = self.stage {
                    self.stage = Stage::Done;
                    AppStep::Fail(AppError::ConfigUnreadable(self.path.clone(), k))
                } else {
                    self.config.merge_cli(&self.cli);
                    self.stage = Stage::Logging;
                    AppStep::StartLogger
                }
            },
            AppEvent::Decoded(Ok(s)) => {
                self.config.merge_file(s);
                self.config.merge_cli(&self.cli);
                self.stage = Stage::Logging;
                AppStep::StartLogger
            },
            AppEvent::Decoded(Err(m)) => {
                self.stage = Stage::Done;
                AppStep::Fail(AppError::ConfigInvalid(self.path.clone(), m))
            },
            AppEvent::LoggerStarted(ok) => {
                if ok {
                    self.stage = Stage::Checking;
                    AppStep::CheckDirs
                } else {
                    self.stage = Stage::Done;
                    AppStep::Fail(AppError::LoggerFailed)
                }
            },
            AppEvent::DirsChecked(v) => {
                self.stage = Stage::Done;
                let i = first_missing_index(&v);
                if i < v.len() {
                    let u = &self.config.users[i];
                    return AppStep::Fail(
                        AppError::MissingDirectory(u.username.clone(), u.data.dir.clone()),
                    );
                }
                AppStep::Serve
            },
        }
    }
}

} // verus!
