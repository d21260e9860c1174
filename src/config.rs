//! The server's configuration: built-in defaults, overridden by a configuration
//! file, overridden in turn by the command line.
use vstd::prelude::*;

use crate::user::{records, User};

verus! {

/// How much is logged.
#[derive(Clone, Copy, Debug, PartialEq, Eq)]
pub enum LogLevel {
    Off,
    Error,
    Warn,
    Info,
    Debug,
    Trace,
}

/// Logging to a file.
#[derive(Debug)]
pub struct FileLogOpts {
    pub file_path: String,
    pub level: LogLevel,
}

/// Logging to the terminal.
#[derive(Clone, Copy, Debug, PartialEq, Eq)]
pub struct ConsoleLogOpts {
    pub level: LogLevel,
}

/// Logging to the system log.
#[derive(Clone, Copy, Debug, PartialEq, Eq)]
pub struct SysLogOpts {
    pub level: LogLevel,
}

/// Where and how much to log.
#[derive(Debug)]
pub struct LogOpts {
    pub file: Option<FileLogOpts>,
    pub console: ConsoleLogOpts,
    pub sys: SysLogOpts,
}

/// The server's configuration.
#[derive(Debug)]
pub struct Config {
    pub ip: [u8; 4],
    pub port: u16,
    /// The data-channel timeout, in seconds.
    pub timeout: u64,
    pub users: Vec<User>,
    pub log: LogOpts,
}

/// What a configuration file sets; what it leaves out stays as it was.
#[derive(Debug)]
pub struct FileSettings {
    pub ip: Option<[u8; 4]>,
    pub port: Option<u16>,
    pub timeout: Option<u64>,
    /// Added to the users already configured.
    pub users: Vec<User>,
    pub file_log: Option<FileLogOpts>,
    pub console_level: Option<LogLevel>,
    pub sys_level: Option<LogLevel>,
}

/// What the command line sets; what it leaves out stays as it was.
#[derive(Debug)]
pub struct CliSettings {
    /// The configuration file to read instead of the default one.
    pub config_file: Option<String>,
    pub ip: Option<[u8; 4]>,
    pub port: Option<u16>,
}

pub open spec fn or_else<T>(o: Option<T>, d: T) -> T {
    match o {
        Some(v) => v,
        None => d,
    }
}

impl FileLogOpts {
    /// No file, logging off.
    pub fn default() -> (r: FileLogOpts)
        ensures
            r.file_path@.len() == 0,
            r.level == LogLevel::Off,
    {
        FileLogOpts { file_path: String::new(), level: LogLevel::Off }
    }
}

impl ConsoleLogOpts {
    pub fn default() -> (r: ConsoleLogOpts)
        ensures
            r.level == LogLevel::Debug,
    {
        ConsoleLogOpts { level: LogLevel::Debug }
    }
}

impl SysLogOpts {
    pub fn default() -> (r: SysLogOpts)
        ensures
            r.level == LogLevel::Error,
    {
        SysLogOpts { level: LogLevel::Error }
    }
}

impl Config {
    /// Loopback, port 21, a timeout of 180 s, no users, console logging at debug
    /// level and system logging of errors.
    pub fn default() -> (r: Config)
        ensures
            r.ip@ == seq![127u8, 0, 0, 1],
            r.port == 21,
            r.timeout == 180,
            r.users@.len() == 0,
            r.log.file is None,
            r.log.console.level == LogLevel::Debug,
            r.log.sys.level == LogLevel::Error,
    {
        let r = Config {
            ip: [127, 0, 0, 1],
            port: 21,
            timeout: 180,
            users: Vec::new(),
            log: LogOpts {
                file: None,
                console: ConsoleLogOpts::default(),
                sys: SysLogOpts::default(),
            },
        };
        assert(r.ip@ =~= seq![127u8, 0, 0, 1]);
        r
    }

    /// Adds a user.
    pub fn push_user(&mut self, username: String, password: String, dir: String)
        ensures
            records(final(self).users@) == records(old(self).users@).push(
                crate::user::UserRecord { name: username@, password: password@, dir: dir@ },
            ),
            final(self).ip == old(self).ip,
            final(self).port == old(self).port,
            final(self).timeout == old(self).timeout,
            final(self).log == old(self).log,
    {
        let ghost before = self.users@;
        self.users.push(User::new(username, password, dir));
        assert(records(self.users@) =~= records(before).push(self.users@.last()@));
    }

    /// Applies a configuration file: what it sets replaces what is here, and its
    /// users are added after these.
    pub fn merge_file(&mut self, s: FileSettings)
        ensures
            final(self).ip == or_else(s.ip, old(self).ip),
            final(self).port == or_else(s.port, old(self).port),
            final(self).timeout == or_else(s.timeout, old(self).timeout),
            records(final(self).users@) == records(old(self).users@) + records(s.users@),
            final(self).log.file == (match s.file_log {
                Some(f) => Some(f),
                None => old(self).log.file,
            }),
            final(self).log.console.level == or_else(s.console_level, old(self).log.console.level),
            final(self).log.sys.level == or_else(s.sys_level, old(self).log.sys.level),
    {
        let FileSettings { ip, port, timeout, users, file_log, console_level, sys_level } = s;
        if let Some(ip) = ip {
            self.ip = ip;
        }
        if let Some(port) = port {
            self.port = port;
        }
        if let Some(timeout) = timeout {
            self.timeout = timeout;
        }
        let mut users = users;
        let ghost added = users@;
        let ghost before = self.users@;
        self.users.append(&mut users);
        assert(records(self.users@) =~= records(before) + records(added));
        if let Some(f) = file_log {
            self.log.file = Some(f);
        }
        if let Some(level) = console_level {
            self.log.console.level = level;
        }
        if let Some(level) = sys_level {
            self.log.sys.level = level;
        }
    }

    /// Applies the command line: the address and port it sets replace these.
    pub fn merge_cli(&mut self, cli: &CliSettings)
        ensures
            final(self).ip == or_else(cli.ip, old(self).ip),
            final(self).port == or_else(cli.port, old(self).port),
            final(self).timeout == old(self).timeout,
            final(self).users == old(self).users,
            final(self).log == old(self).log,
    {
        if let Some(ip) = cli.ip {
            self.ip = ip;
        }
        if let Some(port) = cli.port {
            self.port = port;
        }
    }
}

} // verus!
