//! The user directory: each user's password and real root directory.
use vstd::prelude::*;

verus! {

/// What the server knows of a user besides the name.
#[derive(Debug)]
pub struct UserData {
    pub password: String,
    /// The real directory that the user sees as "/".
    pub dir: String,
}

/// A user record.
#[derive(Debug)]
pub struct User {
    pub username: String,
    pub data: UserData,
}

/// A user record as its name, password and real root directory.
pub struct UserRecord {
    pub name: Seq<char>,
    pub password: Seq<char>,
    pub dir: Seq<char>,
}

impl View for User {
    type V = UserRecord;

    open spec fn view(&self) -> UserRecord {
        UserRecord { name: self.username@, password: self.data.password@, dir: self.data.dir@ }
    }
}

pub open spec fn records(users: Seq<User>) -> Seq<UserRecord> {
    users.map_values(|u: User| u@)
}

/// The record of the user named `name`; of several, the one given last.
pub open spec fn lookup_user(users: Seq<UserRecord>, name: Seq<char>) -> Option<UserRecord>
    decreases users.len(),
{
    if users.len() == 0 {
        None
    } else if users.last().name == name {
        Some(users.last())
    } else {
        lookup_user(users.drop_last(), name)
    }
}

impl UserData {
    pub fn new(password: String, dir: String) -> (r: UserData)
        ensures
            r.password@ == password@,
            r.dir@ == dir@,
    {
        UserData { password, dir }
    }

    pub fn clone(&self) -> (r: UserData)
        ensures
            r.password@ == self.password@,
            r.dir@ == self.dir@,
    {
        UserData { password: self.password.clone(), dir: self.dir.clone() }
    }
}

impl User {
    pub fn new(username: String, password: String, dir: String) -> (r: User)
        ensures
            r@ == (UserRecord { name: username@, password: password@, dir: dir@ }),
    {
        User { username, data: UserData { password, dir } }
    }

    pub fn clone(&self) -> (r: User)
        ensures
            r@ == self@,
    {
        User { username: self.username.clone(), data: self.data.clone() }
    }
}

/// The index of the record of the user named `name`; of several, the one given last.
pub fn find_user(users: &Vec<User>, name: &String) -> (r: Option<usize>)
    ensures
        match r {
            Some(i) => i < users@.len() && lookup_user(records(users@), name@) == Some(
                users@[i as int]@,
            ),
            None => lookup_user(records(users@), name@).is_none(),
        },
{
    let mut i: usize = users.len();
    assert(users@.take(i as int) =~= users@);
    while i > 0
        invariant
            i <= users@.len(),
            lookup_user(records(users@), name@) == lookup_user(
                records(users@.take(i as int)),
                name@,
            ),
        decreases i,
    {
        let ghost t = records(users@.take(i as int));
        assert(t.last() == users@[i - 1]@);
        assert(t.drop_last() =~= records(users@.take(i - 1)));
        if users[i - 1].username == *name {
            return Some(i - 1);
        }
        i = i - 1;
    }
    assert(records(users@.take(0)).len() == 0);
    None
}

} // verus!
