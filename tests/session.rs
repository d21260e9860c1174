use std::collections::BTreeMap;

use ftp::hostport::HostPort;
use ftp::reply::{IoErrorKind, Reply};
use ftp::session::{
    accepts_data_peer, Action, Client, Event, FileOp, ProtocolInterpreter, Transfer, TransferKind,
};
use ftp::user::User;

const ROOT: &str = "/srv/ftp";

enum Entry {
    File(Vec<u8>),
    Dir,
}

/// A control connection driven through the session state machine, with an
/// in-memory file tree standing in for the disk and the data channel.
struct Session {
    pi: ProtocolInterpreter,
    client: Client,
    fs: BTreeMap<String, Entry>,
    upload: Vec<u8>,
    received: Vec<u8>,
    opened: Vec<(HostPort, bool)>,
    touched: Vec<String>,
    closed: bool,
}

fn key(path: &str) -> String {
    path.trim_end_matches('/').to_string()
}

fn parent(path: &str) -> String {
    match path.rfind('/') {
        Some(i) => path[..i].to_string(),
        None => String::new(),
    }
}

impl Session {
    fn start() -> Session {
        let users = vec![User::new("test".to_owned(), "test".to_owned(), ROOT.to_owned())];
        let mut fs = BTreeMap::new();
        fs.insert(ROOT.to_owned(), Entry::Dir);
        Session {
            pi: ProtocolInterpreter::new(users),
            client: Client::new([127, 0, 0, 1]),
            fs,
            upload: Vec::new(),
            received: Vec::new(),
            opened: Vec::new(),
            touched: Vec::new(),
            closed: false,
        }
    }

    fn greeting(&self) -> String {
        Reply::ServiceReady.to_wire()
    }

    fn create_file(&mut self, name: &str, contents: &[u8]) {
        self.fs.insert(format!("{}/{}", ROOT, name), Entry::File(contents.to_vec()));
    }

    fn create_dir(&mut self, name: &str) {
        self.fs.insert(format!("{}/{}", ROOT, name), Entry::Dir);
    }

    fn has_entry(&self, name: &str) -> bool {
        self.fs.contains_key(&format!("{}/{}", ROOT, name))
    }

    fn file_op(&mut self, op: FileOp) -> Result<(), IoErrorKind> {
        match op {
            FileOp::ChangeDir(p) => {
                self.touched.push(p.clone());
                match self.fs.get(&key(&p)) {
                    Some(Entry::Dir) => Ok(()),
                    _ => Err(IoErrorKind::NotFound),
                }
            }
            FileOp::MakeDir(p) => {
                self.touched.push(p.clone());
                if self.fs.contains_key(&key(&p)) {
                    return Err(IoErrorKind::AlreadyExists);
                }
                self.fs.insert(key(&p), Entry::Dir);
                Ok(())
            }
            FileOp::Remove(p) => {
                self.touched.push(p.clone());
                match self.fs.get(&key(&p)) {
                    Some(Entry::File(_)) => {
                        self.fs.remove(&key(&p));
                        Ok(())
                    }
                    _ => Err(IoErrorKind::NotFound),
                }
            }
            FileOp::CheckExists(p) => {
                self.touched.push(p.clone());
                if self.fs.contains_key(&key(&p)) {
                    Ok(())
                } else {
                    Err(IoErrorKind::NotFound)
                }
            }
            FileOp::Rename(a, b) => {
                self.touched.push(a.clone());
                self.touched.push(b.clone());
                match self.fs.remove(&key(&a)) {
                    Some(e) => {
                        self.fs.insert(key(&b), e);
                        Ok(())
                    }
                    None => Err(IoErrorKind::NotFound),
                }
            }
        }
    }

    fn transfer(&mut self, t: Transfer) -> Result<(), IoErrorKind> {
        self.touched.push(t.path.clone());
        let k = key(&t.path);
        match t.kind {
            TransferKind::SendFile => match self.fs.get(&k) {
                Some(Entry::File(c)) => {
                    self.received = c.clone();
                    Ok(())
                }
                _ => Err(IoErrorKind::NotFound),
            },
            TransferKind::ReceiveFile => {
                self.fs.insert(k, Entry::File(self.upload.clone()));
                Ok(())
            }
            TransferKind::SendNames | TransferKind::SendList => match self.fs.get(&k) {
                Some(Entry::Dir) => {
                    let mut out = Vec::new();
                    for name in self.fs.keys() {
                        if parent(name) == k {
                            out.extend_from_slice(name[k.len() + 1..].as_bytes());
                            out.extend_from_slice(b"\r\n");
                        }
                    }
                    self.received = out;
                    Ok(())
                }
                _ => Err(IoErrorKind::NotFound),
            },
        }
    }

    /// Sends one command line and returns every reply it brought, as sent.
    fn command(&mut self, line: &str) -> Vec<String> {
        assert!(self.client.is_idle());
        self.received.clear();
        let mut out = Vec::new();
        let mut action = self.pi.handle_line(&mut self.client, line);
        loop {
            action = match action {
                Action::Send(r) => {
                    out.push(r.to_wire());
                    break;
                }
                Action::Close(r) => {
                    out.push(r.to_wire());
                    self.closed = true;
                    break;
                }
                Action::Listen => {
                    let hp = HostPort::new([127, 0, 0, 1], 40000);
                    self.pi.handle_event(&mut self.client, Event::Listening(Ok(hp)))
                }
                Action::File(op) => {
                    let r = self.file_op(op);
                    self.pi.handle_event(&mut self.client, Event::FileDone(r))
                }
                Action::OpenData(hp, passive) => {
                    self.opened.push((hp, passive));
                    self.pi.handle_event(&mut self.client, Event::DataOpened(Ok(())))
                }
                Action::Transfer(r, t) => {
                    out.push(r.to_wire());
                    let res = self.transfer(t);
                    self.pi.handle_event(&mut self.client, Event::TransferDone(res))
                }
            };
        }
        out
    }

    fn last_code(&mut self, line: &str) -> u32 {
        let replies = self.command(line);
        replies.last().unwrap()[..3].parse().unwrap()
    }

    fn login(&mut self, user: &str, pass: &str) -> Result<(), String> {
        self.command(&format!("USER {}", user));
        let r = self.command(&format!("PASS {}", pass));
        if r[0].starts_with("230") {
            Ok(())
        } else {
            Err(r[0].clone())
        }
    }

    fn quit(&mut self) {
        assert_eq!(self.command("QUIT"), vec!["221 Service closing control connection\r\n"]);
        assert!(self.closed);
    }

    fn pwd(&mut self) -> Result<String, String> {
        let r = self.command("PWD");
        let line = r[0].clone();
        if !line.starts_with("257 ") {
            return Err(line);
        }
        let start = line.find('"').unwrap();
        let end = line.rfind('"').unwrap();
        Ok(line[start + 1..end].to_string())
    }

    fn ok(&mut self, line: &str) -> Result<(), String> {
        let r = self.command(line);
        let last = r.last().unwrap().clone();
        if last.starts_with('4') || last.starts_with('5') {
            Err(last)
        } else {
            Ok(())
        }
    }

    fn data(&mut self, line: &str) -> Result<Vec<u8>, String> {
        assert!(self.command("PASV")[0].starts_with("227 "));
        let r = self.command(line);
        let last = r.last().unwrap().clone();
        if last.starts_with("226 ") {
            assert_eq!(r[0], "150 Opening data connection\r\n");
            Ok(self.received.clone())
        } else {
            Err(last)
        }
    }

    fn nlst(&mut self, dir: Option<&str>) -> Result<Vec<String>, String> {
        let line = match dir {
            Some(d) => format!("NLST {}", d),
            None => "NLST".to_string(),
        };
        let bytes = self.data(&line)?;
        let text = String::from_utf8(bytes).unwrap();
        Ok(text.split("\r\n").filter(|s| !s.is_empty()).map(|s| s.to_string()).collect())
    }

    fn put(&mut self, name: &str, contents: &[u8]) -> Result<(), String> {
        self.upload = contents.to_vec();
        self.data(&format!("STOR {}", name)).map(|_| ())
    }

    fn read_file(&self, name: &str) -> Vec<u8> {
        match self.fs.get(&format!("{}/{}", ROOT, name)) {
            Some(Entry::File(c)) => c.clone(),
            _ => panic!("no such file"),
        }
    }
}

fn logged_in() -> Session {
    let mut s = Session::start();
    s.login("test", "test").unwrap();
    s
}

#[test]
fn greeting_and_quit() {
    let mut s = Session::start();
    assert_eq!(s.greeting(), "220 Service ready for new user\r\n");
    assert_eq!(s.command("QUIT"), vec!["221 Service closing control connection\r\n"]);
    assert!(s.closed);
}

#[test]
fn unauthenticated_pwd() {
    let mut s = Session::start();
    assert_eq!(s.command("PWD"), vec!["550 Requested action not taken. File unavailable\r\n"]);
}

#[test]
fn login_flow() {
    let mut s = Session::start();
    assert_eq!(s.command("USER test"), vec!["331 User name okay, need password\r\n"]);
    assert_eq!(s.command("PASS test"), vec!["230 User logged in, proceed\r\n"]);
    assert_eq!(s.command("PWD"), vec!["257 \"/\" created\r\n"]);
}

#[test]
fn pasv_and_nlst_on_empty_directory() {
    let mut s = logged_in();
    assert_eq!(s.command("PASV"), vec!["227 Entering passive mode (127,0,0,1,156,64)\r\n"]);
    assert_eq!(
        s.command("NLST"),
        vec![
            "150 Opening data connection\r\n",
            "226 Closing data connection. Requested file action successful\r\n",
        ]
    );
    assert!(s.received.is_empty());
    assert_eq!(s.opened.len(), 1);
    assert!(s.opened[0].1);
    assert_eq!(s.opened[0].0.ip, [127, 0, 0, 1]);
}

#[test]
fn path_escape_rejection() {
    let mut s = logged_in();
    assert_eq!(s.command("CWD /etc"), vec!["501 Syntax error in parameters or arguments\r\n"]);
    assert_eq!(s.command("CWD ../../.."), vec!["250 Requested file action okay, proceed\r\n"]);
    assert_eq!(s.command("PWD"), vec!["257 \"/\" created\r\n"]);
    for p in &s.touched {
        assert!(p.starts_with(ROOT));
        assert!(!p.contains(".."));
    }
}

#[test]
fn rename_flow() {
    let mut s = logged_in();
    s.create_file("a.txt", b"");
    assert_eq!(
        s.command("RNFR a.txt"),
        vec!["350 Requested file action pending further information\r\n"]
    );
    assert_eq!(s.command("RNTO b.txt"), vec!["250 Requested file action okay, proceed\r\n"]);
    assert_eq!(s.command("RNTO c.txt"), vec!["503 Bad sequence of commands\r\n"]);
    assert!(!s.has_entry("a.txt"));
    assert!(s.has_entry("b.txt"));
}

#[test]
fn data_commands_need_login() {
    let mut s = Session::start();
    for line in ["PASV", "NLST", "LIST", "RETR a", "STOR a", "CWD a", "CDUP", "MKD a", "DELE a", "RNFR a", "RNTO a"] {
        assert_eq!(s.command(line), vec!["530 Not logged in\r\n"], "{}", line);
    }
    assert!(s.opened.is_empty());
    assert!(s.touched.is_empty());
}

#[test]
fn pass_before_user() {
    let mut s = Session::start();
    assert_eq!(s.command("PASS test"), vec!["503 Bad sequence of commands\r\n"]);
}

#[test]
fn command_errors_get_their_replies() {
    let mut s = Session::start();
    assert_eq!(s.command("FOO"), vec!["500 Syntax error, command unrecognized\r\n"]);
    assert_eq!(s.command("USER"), vec!["501 Syntax error in parameters or arguments\r\n"]);
    assert_eq!(s.command("TYPE X"), vec!["504 Command not implemented for that parameter\r\n"]);
    assert_eq!(s.command("SYST"), vec!["502 Command not implemented\r\n"]);
    assert_eq!(s.command("NOOP"), vec!["200 Command okay\r\n"]);
    assert_eq!(s.command("type I"), vec!["200 Command okay\r\n"]);
    assert_eq!(s.command("TYPE i"), vec!["504 Command not implemented for that parameter\r\n"]);
}

#[test]
fn port_sets_the_data_endpoint() {
    let mut s = logged_in();
    assert_eq!(s.command("PORT 10,0,0,7,4,1"), vec!["200 Command okay\r\n"]);
    assert_eq!(s.command("NLST").len(), 2);
    assert_eq!(s.opened[0].0, HostPort::new([10, 0, 0, 7], 1025));
    assert!(!s.opened[0].1);
}

#[test]
fn data_channel_failure_gives_425() {
    let mut s = logged_in();
    let a = s.pi.handle_line(&mut s.client, "NLST");
    assert!(matches!(a, Action::OpenData(_, _)));
    match s.pi.handle_event(&mut s.client, Event::DataOpened(Err(IoErrorKind::TimedOut))) {
        Action::Send(r) => assert_eq!(r.to_wire(), "425 Can't open data connection\r\n"),
        other => panic!("{:?}", other),
    }
    assert!(s.client.is_idle());
}

#[test]
fn interrupted_transfer_gives_426() {
    let mut s = logged_in();
    s.create_file("f", b"x");
    s.pi.handle_line(&mut s.client, "RETR f");
    match s.pi.handle_event(&mut s.client, Event::DataOpened(Ok(()))) {
        Action::Transfer(r, t) => {
            assert_eq!(r.to_wire(), "150 Opening data connection\r\n");
            assert_eq!(t.path, "/srv/ftp/f");
        }
        other => panic!("{:?}", other),
    }
    match s.pi.handle_event(&mut s.client, Event::TransferDone(Err(IoErrorKind::ConnectionReset))) {
        Action::Send(r) => assert_eq!(r.to_wire(), "426 Connection closed; transfer aborted\r\n"),
        other => panic!("{:?}", other),
    }
}

#[test]
fn missing_file_gives_550_after_150() {
    let mut s = logged_in();
    s.command("PASV");
    assert_eq!(
        s.command("RETR nothing"),
        vec!["150 Opening data connection\r\n", "550 Requested action not taken. File unavailable\r\n"]
    );
}

#[test]
fn mkd_replies_with_the_name() {
    let mut s = logged_in();
    assert_eq!(s.command("MKD new"), vec!["257 \"new\" created\r\n"]);
    assert_eq!(s.command("MKD new"), vec!["553 Requested action not taken. File name not allowed\r\n"]);
    assert_eq!(s.command("MKD"), vec!["501 Syntax error in parameters or arguments\r\n"]);
}

#[test]
fn nested_directories_and_paths() {
    let mut s = logged_in();
    s.create_dir("a");
    s.create_dir("a/b");
    s.create_file("a/b/f.txt", b"deep");
    assert_eq!(s.last_code("CWD a/./b"), 250);
    assert_eq!(s.pwd().unwrap(), "/a/b");
    assert_eq!(s.data("RETR f.txt").unwrap(), b"deep".to_vec());
    assert_eq!(s.last_code("CWD ../../../a"), 250);
    assert_eq!(s.pwd().unwrap(), "/a");
    assert_eq!(s.last_code("CDUP"), 200);
    assert_eq!(s.pwd().unwrap(), "/");
}

#[test]
fn test_simple_login() {
    let mut s = Session::start();
    s.login("test", "test").unwrap();
    s.quit();
}

#[test]
fn test_wrong_credentials() {
    let mut s = Session::start();
    assert!(s.login("this user", "does not exists").is_err());
    s.quit();
}

#[test]
fn not_authorized_action() {
    let mut s = Session::start();
    assert!(s.pwd().is_err());
    s.quit();
}

#[test]
fn authorized_action() {
    let mut s = Session::start();
    s.login("test", "test").unwrap();
    s.pwd().unwrap();
    s.quit();
}

#[test]
fn test_basic_commands_test_connect_and_quit() {
    let mut s = logged_in();
    s.quit();
}

#[test]
fn test_test_connect_and_quit() {
    let mut s = Session::start();
    s.quit();
}

#[test]
fn test_logging_in() {
    let mut s = logged_in();
    s.login("test", "test").unwrap();
    s.quit();
}

#[test]
fn test_basic_commands_test_nlist() {
    let mut s = Session::start();
    s.create_file("1", b"");
    s.create_file("2", b"");
    s.create_file("3", b"");
    s.login("test", "test").unwrap();
    let mut list = s.nlst(None).unwrap();
    s.quit();
    list.sort();
    assert_eq!(list, vec!["1", "2", "3"]);
}

#[test]
fn test_test_nlist() {
    let mut s = logged_in();
    s.create_file("1.txt", b"");
    s.create_file("2.txt", b"");
    s.create_file("3.txt", b"");
    assert!(s.command("PASV")[0].starts_with("227 "));
    assert_eq!(
        s.command("NLST"),
        vec![
            "150 Opening data connection\r\n",
            "226 Closing data connection. Requested file action successful\r\n",
        ]
    );
    let text = String::from_utf8(s.received.clone()).unwrap();
    let mut names: Vec<&str> = text.split("\r\n").filter(|x| !x.is_empty()).collect();
    names.sort();
    assert_eq!(names, vec!["1.txt", "2.txt", "3.txt"]);
    assert!(text.ends_with("\r\n"));
    s.quit();
}

#[test]
fn test_nlins_empy_dir() {
    let mut s = logged_in();
    let list = s.nlst(None).unwrap();
    s.quit();
    let empty: Vec<String> = Vec::new();
    assert_eq!(list, empty);
}

#[test]
fn test_nlist_in_dir() {
    let mut s = Session::start();
    let dirname = "another dir";
    s.create_dir(dirname);
    s.create_file(&format!("{}/1", dirname), b"");
    s.create_file(&format!("{}/2", dirname), b"");
    s.create_file(&format!("{}/3", dirname), b"");
    s.login("test", "test").unwrap();
    let mut list = s.nlst(Some(dirname)).unwrap();
    s.quit();
    list.sort();
    assert_eq!(list, vec!["1", "2", "3"]);
}

#[test]
fn test_simple_file_receiving() {
    let mut s = Session::start();
    let filename = "a very important file with a very long name lol.txt";
    let text = "Hello World!";
    s.create_file(filename, text.as_bytes());
    s.login("test", "test").unwrap();
    let data = s.data(&format!("RETR {}", filename)).unwrap();
    assert_eq!(data.as_slice(), text.as_bytes());
    s.quit();
}

#[test]
fn test_receiving_nonexistent_file() {
    let mut s = logged_in();
    assert!(s.data("RETR This file does not exists").is_err());
    s.quit();
}

#[test]
fn test_receiving_multiple_files() {
    let mut s = Session::start();
    let contents = vec!["First file", "Second file", "Third File"];
    let filenames = vec!["1", "2", "3"];
    for (filename, content) in filenames.iter().zip(contents.iter()) {
        s.create_file(filename, content.as_bytes());
    }
    s.login("test", "test").unwrap();
    let mut received = Vec::new();
    for filename in filenames {
        received.push(s.data(&format!("RETR {}", filename)).unwrap());
    }
    s.quit();
    for (received, expected) in received.into_iter().zip(contents) {
        assert_eq!(std::str::from_utf8(received.as_slice()).unwrap(), expected);
    }
}

#[test]
fn test_simple_file_sending() {
    let mut s = logged_in();
    let filename = "yet another very important file.txt";
    let contents = "random garbage people store in text files";
    s.put(filename, contents.as_bytes()).unwrap();
    s.quit();
    assert_eq!(contents.as_bytes(), s.read_file(filename).as_slice());
}

#[test]
fn test_sending_multiple_files() {
    let mut s = logged_in();
    let contents = vec!["First file", "Second file", "Third File"];
    let filenames = vec!["1", "2", "3"];
    for (filename, content) in filenames.iter().zip(contents.iter()) {
        s.put(filename, content.as_bytes()).unwrap();
    }
    s.quit();
    for (filename, expected) in filenames.iter().zip(contents.iter()) {
        assert_eq!(&std::str::from_utf8(&s.read_file(filename)).unwrap(), expected);
    }
}

#[test]
fn test_printing_working_directory() {
    let mut s = logged_in();
    let working_dir = s.pwd().unwrap();
    s.quit();
    assert_eq!(working_dir, "/");
}

#[test]
fn test_changing_working_directory() {
    let mut s = Session::start();
    let dirname = "a very important directory";
    s.create_dir(dirname);
    s.login("test", "test").unwrap();
    s.ok(&format!("CWD {}", dirname)).unwrap();
    let path = s.pwd().unwrap();
    s.quit();
    assert!(path.ends_with(dirname));
}

#[test]
fn test_changing_to_nonextistent_dir() {
    let mut s = logged_in();
    assert!(s.ok("CWD This directory does not exist").is_err());
    s.quit();
}

#[test]
fn test_dots_handling() {
    let mut s = logged_in();
    s.ok("CWD ../../../..").unwrap();
    assert_eq!(s.pwd().unwrap(), "/");
    s.quit();
}

#[test]
fn test_dots_handling2() {
    let mut s = Session::start();
    let dir = "a very nice directory";
    s.create_dir(dir);
    s.login("test", "test").unwrap();
    s.ok(&format!("CWD {}", dir)).unwrap();
    s.ok("CWD ./..").unwrap();
    assert_eq!(s.pwd().unwrap(), "/");
    s.quit();
}

#[test]
fn test_dots_handling_with_abosolute_path_argument() {
    let mut s = logged_in();
    assert!(s.ok("CWD /etc").is_err());
    s.quit();
}

#[test]
fn test_cdup() {
    let mut s = Session::start();
    let dir = "a very nice directory";
    s.create_dir(dir);
    s.login("test", "test").unwrap();
    s.ok(&format!("CWD {}", dir)).unwrap();
    s.ok("CDUP").unwrap();
    assert_eq!(s.pwd().unwrap(), "/");
    s.quit();
}

#[test]
fn test_creating_directory() {
    let mut s = logged_in();
    let dirname = "yet another very important directory";
    s.ok(&format!("MKD {}", dirname)).unwrap();
    s.quit();
    assert!(s.has_entry(dirname));
}

#[test]
fn test_simple_file_deletion() {
    let mut s = Session::start();
    let filename = "file to delete.json";
    s.create_file(filename, b"");
    s.login("test", "test").unwrap();
    s.ok(&format!("DELE {}", filename)).unwrap();
    s.quit();
    assert!(!s.has_entry(filename))
}

#[test]
fn test_file_renaming() {
    let mut s = Session::start();
    let filename = "file to rename.doc";
    let new_filename = "file renamed.txt";
    s.create_file(filename, b"");
    s.login("test", "test").unwrap();
    s.ok(&format!("RNFR {}", filename)).unwrap();
    s.ok(&format!("RNTO {}", new_filename)).unwrap();
    s.quit();
    assert!(!s.has_entry(filename));
    assert!(s.has_entry(new_filename));
}

#[test]
fn test_rename_nonexistent_file() {
    let mut s = logged_in();
    let result = s.ok("RNFR This file").is_err() || s.ok("RNTO does not exist").is_err();
    s.quit();
    assert!(result);
}

#[test]
fn passive_peer_must_match_the_endpoint() {
    let endpoint = HostPort::new([192, 168, 0, 5], 2000);
    assert!(accepts_data_peer(&endpoint, [192, 168, 0, 5]));
    assert!(!accepts_data_peer(&endpoint, [192, 168, 0, 6]));
    assert!(!accepts_data_peer(&endpoint, [10, 168, 0, 5]));
}
