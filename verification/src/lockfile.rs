//! The lock-file registry: one record for each port that a server of this
//! application occupies.
//!
//! The registry is the supervisor's image of the lock directory. The runner
//! reads the directory into it and carries out on disk what the registry
//! decides.

use vstd::prelude::*;
use vstd::string::*;
use serde_json::Value;
use crate::json::{
    count_value, json_count, json_member, json_object, json_text, member, object_map,
    object_value, parse_json, parsed_json, pretty_json, text_value, write_json_pretty,
};
use crate::table::{as_map, has_key, keys_distinct, lemma_push_new_key, NameTable};
use crate::text::{
    decimal_digits, decimal_text, lemma_decimal_digits_are_digits, lemma_port_round_trip,
    parse_port,
};

verus! {

/// The name of the lock directory inside the data folder of the application.
pub const LOCK_DIR_NAME: &'static str = "mcp_locks";

/// What a lock file records.
#[derive(Debug, Clone, PartialEq, Eq)]
pub struct LockEntry {
    /// The port that is occupied.
    pub port: u16,
    /// The process that occupies it.
    pub pid: u32,
    /// The server that the process runs.
    pub server_name: String,
    /// The token of the supervisor that wrote the file.
    pub owner_token: String,
    /// When the file was written, in seconds since the epoch.
    pub created_at: u64,
}

/// What reading the lock file of a port gave.
#[derive(Debug, Clone, PartialEq, Eq)]
pub enum LockFileState {
    /// There is no lock file for the port.
    Missing,
    /// There is one, but its content is no lock record.
    Unparsable,
    /// There is one, with this record.
    Entry(LockEntry),
}

/// The name of the lock file of `port`: the port in decimal, then `.lock`.
pub open spec fn lock_file_name_spec(port: u16) -> Seq<char> {
    decimal_digits(port as nat) + ".lock"@
}

/// The port whose lock file is called `name`, if `name` is the name of a lock
/// file.
pub open spec fn port_of_lock_file_name_spec(name: Seq<char>) -> Option<u16> {
    if exists|p: u16| lock_file_name_spec(p) == name {
        Some(choose|p: u16| lock_file_name_spec(p) == name)
    } else {
        None
    }
}

/// A lock file is stale where its record cannot be read, where its process
/// does not exist, or where its process is not a server of this application.
pub open spec fn is_stale_spec(parsed: bool, process_exists: bool, recognized: bool) -> bool {
    !parsed || !process_exists || !recognized
}

/// Two ports with the same lock-file name are the same port.
pub proof fn lemma_lock_file_name_injective(p: u16, q: u16)
    requires
        lock_file_name_spec(p) == lock_file_name_spec(q),
    ensures
        p == q,
{
    reveal_strlit(".lock");
    let a = decimal_digits(p as nat);
    let b = decimal_digits(q as nat);
    let name = lock_file_name_spec(p);
    assert(a.len() + 5 == name.len());
    assert(b.len() + 5 == name.len());
    assert(a =~= name.subrange(0, a.len() as int));
    assert(b =~= name.subrange(0, b.len() as int));
    lemma_port_round_trip(p);
    lemma_port_round_trip(q);
}

/// The name of the lock file of `port`.
pub fn lock_file_name(port: u16) -> (name: String)
    ensures
        name@ == lock_file_name_spec(port),
{
    let mut name = decimal_text(port as u64);
    name.append(".lock");
    name
}

/// The port that a file name of the lock directory stands for; none for a
/// name that `lock_file_name` does not write.
pub fn port_of_lock_file_name(name: &str) -> (r: Option<u16>)
    ensures
        r == port_of_lock_file_name_spec(name@),
        r matches Some(p) ==> lock_file_name_spec(p) == name@,
{
    proof {
        reveal_strlit(".lock");
        assert forall|q: u16| lock_file_name_spec(q) == name@ implies name@.len() >= 6
            && port_of_text_prefix(name@) == Some(q) by {
            lemma_decimal_digits_are_digits(q as nat);
            lemma_port_round_trip(q);
            assert(name@.subrange(0, name@.len() - 5) =~= decimal_digits(q as nat));
        }
    }
    let n: usize = name.unicode_len();
    if n < 6 {
        return None;
    }
    let prefix = name.substring_char(0, n - 5);
    match parse_port(prefix) {
        None => None,
        Some(p) => {
            let canonical = lock_file_name(p);
            if canonical == name.to_owned() {
                proof {
                    let chosen = choose|q: u16| lock_file_name_spec(q) == name@;
                    lemma_lock_file_name_injective(chosen, p);
                }
                Some(p)
            } else {
                None
            }
        },
    }
}

/// The port that the part of `name` before its last five characters spells.
pub open spec fn port_of_text_prefix(name: Seq<char>) -> Option<u16> {
    crate::text::port_of_text(name.subrange(0, name.len() - 5))
}

/// Whether a lock file is stale, from what was found out about it.
pub fn is_stale(parsed: bool, process_exists: bool, recognized: bool) -> (stale: bool)
    ensures
        stale == is_stale_spec(parsed, process_exists, recognized),
{
    !parsed || !process_exists || !recognized
}

/// The record that the JSON value `v` holds for the lock file of `port`: an
/// object with the number `pid`, which fits 32 bits, and the strings
/// `server_name` and `owner_token`; `created_at` is read where it is a number
/// and taken as zero otherwise.
pub open spec fn lock_record_of(port: u16, v: Value) -> Option<(u32, Seq<char>, Seq<char>, u64)> {
    match (
        json_member(v, "pid"@),
        json_member(v, "server_name"@),
        json_member(v, "owner_token"@),
    ) {
        (Some(pid), Some(server), Some(owner)) => match (
            json_count(pid),
            json_text(server),
            json_text(owner),
        ) {
            (Some(pid), Some(server), Some(owner)) => if pid <= u32::MAX {
                Some(
                    (
                        pid as u32,
                        server,
                        owner,
                        match json_member(v, "created_at"@) {
                            Some(at) => match json_count(at) {
                                Some(at) => at,
                                None => 0,
                            },
                            None => 0,
                        },
                    ),
                )
            } else {
                None
            },
            _ => None,
        },
        _ => None,
    }
}

/// Reads a lock record from the JSON value `v`, for the lock file of `port`.
/// A value that lacks a field of a lock record gives `Unparsable`.
pub fn lock_record(port: u16, v: &Value) -> (r: LockFileState)
    ensures
        match lock_record_of(port, *v) {
            Some(record) => r matches LockFileState::Entry(e) && e.port == port && e.pid
                == record.0 && e.server_name@ == record.1 && e.owner_token@ == record.2
                && e.created_at == record.3,
            None => r is Unparsable,
        },
{
    let pid = match member(v, "pid") {
        Some(p) => match p.as_u64() {
            Some(p) => p,
            None => {
                return LockFileState::Unparsable;
            },
        },
        None => {
            return LockFileState::Unparsable;
        },
    };
    let server_name = match member(v, "server_name") {
        Some(s) => match s.as_str() {
            Some(s) => s.to_owned(),
            None => {
                return LockFileState::Unparsable;
            },
        },
        None => {
            return LockFileState::Unparsable;
        },
    };
    let owner_token = match member(v, "owner_token") {
        Some(s) => match s.as_str() {
            Some(s) => s.to_owned(),
            None => {
                return LockFileState::Unparsable;
            },
        },
        None => {
            return LockFileState::Unparsable;
        },
    };
    if pid > 0xffff_ffff {
        return LockFileState::Unparsable;
    }
    let created_at: u64 = match member(v, "created_at") {
        Some(at) => match at.as_u64() {
            Some(at) => at,
            None => 0,
        },
        None => 0,
    };
    LockFileState::Entry(
        LockEntry { port, pid: pid as u32, server_name, owner_token, created_at },
    )
}

/// Reads the content of the lock file of `port`. Content that is no JSON, or
/// that lacks a field of a lock record, gives `Unparsable`.
pub fn parse_lock_entry(port: u16, text: &str) -> (r: LockFileState)
    ensures
        r !is Missing,
        match parsed_json(text@) {
            Some(v) => match lock_record_of(port, v) {
                Some(record) => r matches LockFileState::Entry(e) && e.port == port && e.pid
                    == record.0 && e.server_name@ == record.1 && e.owner_token@ == record.2
                    && e.created_at == record.3,
                None => r is Unparsable,
            },
            None => r is Unparsable,
        },
{
    match parse_json(text) {
        Ok(v) => lock_record(port, &v),
        Err(_) => LockFileState::Unparsable,
    }
}

/// The lock record `entry` as a JSON value: an object with the members
/// `port`, `pid`, `server_name`, `owner_token` and `created_at`. Reading the
/// value as a lock record gives the entry back.
pub fn lock_value(entry: &LockEntry) -> (v: Value)
    ensures
        lock_record_of(entry.port, v) == Some(
            (entry.pid, entry.server_name@, entry.owner_token@, entry.created_at),
        ),
        json_object(v) matches Some(m) && object_map(m).dom() =~= set![
            "port"@,
            "pid"@,
            "server_name"@,
            "owner_token"@,
            "created_at"@,
        ] && json_count(object_map(m)["port"@]) == Some(entry.port as u64),
{
    proof {
        reveal_strlit("port");
        reveal_strlit("pid");
        reveal_strlit("server_name");
        reveal_strlit("owner_token");
        reveal_strlit("created_at");
    }
    let mut record = serde_json::Map::new();
    assert(object_map(record) =~= Map::<Seq<char>, Value>::empty());
    record.insert("port".to_owned(), count_value(entry.port as u64));
    record.insert("pid".to_owned(), count_value(entry.pid as u64));
    record.insert("server_name".to_owned(), text_value(entry.server_name.as_str()));
    record.insert("owner_token".to_owned(), text_value(entry.owner_token.as_str()));
    record.insert("created_at".to_owned(), count_value(entry.created_at));
    assert("pid"@ != "port"@ && "pid"@ != "server_name"@ && "pid"@ != "owner_token"@ && "pid"@
        != "created_at"@) by {
        assert("pid"@.len() == 3);
    }
    assert("server_name"@ != "owner_token"@ && "server_name"@ != "created_at"@ && "server_name"@
        != "port"@) by {
        assert("server_name"@[0] == 's');
        assert("owner_token"@[0] == 'o');
        assert("created_at"@[0] == 'c');
        assert("port"@[0] == 'p');
    }
    assert("owner_token"@ != "created_at"@ && "owner_token"@ != "port"@ && "created_at"@
        != "port"@) by {
        assert("owner_token"@[0] == 'o');
        assert("created_at"@[0] == 'c');
        assert("port"@[0] == 'p');
    }
    object_value(record)
}

/// Writes the lock record `entry` as the text of its lock file; nothing where
/// the record cannot be written.
pub fn render_lock_entry(entry: &LockEntry) -> (r: Option<String>)
    ensures
        exists|v: Value|
            #![trigger pretty_json(v)]
            lock_record_of(entry.port, v) == Some(
                (entry.pid, entry.server_name@, entry.owner_token@, entry.created_at),
            ) && match r {
                Some(text) => pretty_json(v) == Some(text@),
                None => pretty_json(v) is None,
            },
{
    let v = lock_value(entry);
    match write_json_pretty(&v) {
        Ok(text) => {
            assert(pretty_json(v) == Some(text@));
            Some(text)
        },
        Err(_) => {
            assert(pretty_json(v) is None);
            None
        },
    }
}

/// The lock files that are left of `files` once those that `owner` wrote are
/// deleted.
pub open spec fn without_owner(files: Map<Seq<char>, LockEntry>, owner: Seq<char>) -> Map<
    Seq<char>,
    LockEntry,
> {
    Map::new(
        |name: Seq<char>| files.contains_key(name) && files[name].owner_token@ != owner,
        |name: Seq<char>| files[name],
    )
}

/// The names of the lock files among `files` that `owner` wrote.
pub open spec fn written_by(files: Map<Seq<char>, LockEntry>, owner: Seq<char>) -> Set<
    Seq<char>,
> {
    Set::new(|name: Seq<char>| files.contains_key(name) && files[name].owner_token@ == owner)
}

/// The names that the strings of `names` spell.
pub open spec fn names_of(names: Seq<String>) -> Set<Seq<char>> {
    Set::new(|name: Seq<char>| exists|i: int| 0 <= i < names.len() && (#[trigger] names[i])@ == name)
}

/// Lock-file idempotence: deleting the lock files of an owner a second time
/// leaves the directory as the first time left it, and finds nothing to
/// delete.
pub proof fn lemma_cleanup_own_idempotent(files: Map<Seq<char>, LockEntry>, owner: Seq<char>)
    ensures
        without_owner(without_owner(files, owner), owner) == without_owner(files, owner),
        written_by(without_owner(files, owner), owner) == Set::<Seq<char>>::empty(),
{
    assert(without_owner(without_owner(files, owner), owner) =~= without_owner(files, owner));
    assert(written_by(without_owner(files, owner), owner) =~= Set::<Seq<char>>::empty());
}

/// The lock registry as a value.
pub struct LockRegistryView {
    /// The lock files by name.
    pub files: Map<Seq<char>, LockEntry>,
    /// The token under which this supervisor writes lock files.
    pub owner: Seq<char>,
}

/// The supervisor's image of the lock directory: the lock files by name, and
/// the token under which this supervisor writes.
pub struct LockRegistry {
    files: NameTable<LockEntry>,
    owner_token: String,
}

impl LockRegistry {
    /// The registry as a value.
    pub closed spec fn view(&self) -> LockRegistryView {
        LockRegistryView { files: self.files@, owner: self.owner_token@ }
    }

    /// No file name occurs twice.
    pub closed spec fn wf(&self) -> bool {
        self.files.wf()
    }

    /// The image of an empty lock directory, for a supervisor that writes
    /// under `owner_token`.
    pub fn new(owner_token: String) -> (r: LockRegistry)
        ensures
            r.wf(),
            r@.files == Map::<Seq<char>, LockEntry>::empty(),
            r@.owner == owner_token@,
    {
        LockRegistry { files: NameTable::new(), owner_token }
    }

    /// Takes in a lock file that was found in the directory.
    pub fn load(&mut self, file_name: String, entry: LockEntry)
        requires
            old(self).wf(),
        ensures
            final(self).wf(),
            final(self)@.files == old(self)@.files.insert(file_name@, entry),
            final(self)@.owner == old(self)@.owner,
    {
        self.files.insert(file_name, entry);
    }

    /// Records that the process `pid` of the server `server_name` occupies
    /// `port`. The record replaces an earlier one for the port; it is handed
    /// back with its file name, to be written to the directory.
    pub fn write(&mut self, port: u16, pid: u32, server_name: String, created_at: u64) -> (r: (
        String,
        LockEntry,
    ))
        requires
            old(self).wf(),
        ensures
            final(self).wf(),
            final(self)@.owner == old(self)@.owner,
            r.0@ == lock_file_name_spec(port),
            r.1.port == port,
            r.1.pid == pid,
            r.1.server_name@ == server_name@,
            r.1.owner_token@ == old(self)@.owner,
            r.1.created_at == created_at,
            final(self)@.files.dom() == old(self)@.files.dom().insert(lock_file_name_spec(port)),
            forall|name: Seq<char>|
                name != lock_file_name_spec(port) && old(self)@.files.contains_key(name)
                    ==> final(self)@.files[name] == old(self)@.files[name],
            final(self)@.files[lock_file_name_spec(port)].port == port,
            final(self)@.files[lock_file_name_spec(port)].pid == pid,
            final(self)@.files[lock_file_name_spec(port)].server_name@ == server_name@,
            final(self)@.files[lock_file_name_spec(port)].owner_token@ == old(self)@.owner,
            final(self)@.files[lock_file_name_spec(port)].created_at == created_at,
    {
        let stored = LockEntry {
            port,
            pid,
            server_name: server_name.clone(),
            owner_token: self.owner_token.clone(),
            created_at,
        };
        let handed = LockEntry {
            port,
            pid,
            server_name,
            owner_token: self.owner_token.clone(),
            created_at,
        };
        self.files.insert(lock_file_name(port), stored);
        (lock_file_name(port), handed)
    }

    /// The record of the lock file of `port`, if the directory has one.
    pub fn read(&self, port: u16) -> (r: Option<&LockEntry>)
        requires
            self.wf(),
        ensures
            match r {
                Some(e) => self@.files.contains_key(lock_file_name_spec(port)) && *e
                    == self@.files[lock_file_name_spec(port)],
                None => !self@.files.contains_key(lock_file_name_spec(port)),
            },
    {
        let name = lock_file_name(port);
        self.files.get(name.as_str())
    }

    /// Forgets the lock file of `port` and says whether there was one; where
    /// there was, the runner deletes the file.
    pub fn delete(&mut self, port: u16) -> (existed: bool)
        requires
            old(self).wf(),
        ensures
            final(self).wf(),
            final(self)@.owner == old(self)@.owner,
            final(self)@.files == old(self)@.files.remove(lock_file_name_spec(port)),
            existed == old(self)@.files.contains_key(lock_file_name_spec(port)),
    {
        let name = lock_file_name(port);
        self.files.remove(name.as_str()).is_some()
    }

    /// Forgets every lock file that this supervisor wrote and hands back
    /// their names; the runner deletes those files.
    pub fn cleanup_own(&mut self) -> (deleted: Vec<String>)
        requires
            old(self).wf(),
        ensures
            final(self).wf(),
            final(self)@.owner == old(self)@.owner,
            final(self)@.files == without_owner(old(self)@.files, old(self)@.owner),
            names_of(deleted@) == written_by(old(self)@.files, old(self)@.owner),
    {
        let ghost orig = self.files.entries();
        let ghost owner = self.owner_token@;
        let mut pending = self.files.take_all();
        let mut deleted: Vec<String> = Vec::new();
        let ghost mut done: int = 0;
        assert(orig.subrange(0, 0) =~= Seq::<(Seq<char>, LockEntry)>::empty());
        assert(as_map(orig.subrange(0, 0)) =~= Map::<Seq<char>, LockEntry>::empty());
        assert(self.files@ =~= without_owner(as_map(orig.subrange(0, 0)), owner));
        assert(names_of(deleted@) =~= written_by(as_map(orig.subrange(0, 0)), owner));
        while pending.len() > 0
            invariant
                keys_distinct(orig),
                owner == self.owner_token@,
                0 <= done <= orig.len(),
                pending@.len() == orig.len() - done,
                forall|x: int|
                    0 <= x < pending@.len() ==> (#[trigger] pending@[x]).0@ == orig[done + x].0
                        && pending@[x].1 == orig[done + x].1,
                self.files.wf(),
                keys_distinct(orig.subrange(0, done)),
                self.files@ == without_owner(as_map(orig.subrange(0, done)), owner),
                names_of(deleted@) == written_by(as_map(orig.subrange(0, done)), owner),
            decreases pending@.len(),
        {
            let (name, entry) = pending.remove(0);
            let ghost before = orig.subrange(0, done);
            let ghost after = orig.subrange(0, done + 1);
            let ghost deleted_before = deleted@;
            proof {
                assert(name@ == orig[done].0 && entry == orig[done].1);
                assert(after =~= before.push((name@, entry)));
                if has_key(before, name@) {
                    let p = choose|i: int| 0 <= i < before.len() && (#[trigger] before[i]).0 == name@;
                    assert(orig[p].0 != orig[done].0);
                }
                lemma_push_new_key(before, name@, entry);
            }
            if entry.owner_token == self.owner_token {
                deleted.push(name);
                proof {
                    assert(deleted@[deleted@.len() - 1]@ == name@);
                    assert forall|k: Seq<char>| names_of(deleted@).contains(k) == written_by(
                        as_map(after),
                        owner,
                    ).contains(k) by {
                        if names_of(deleted_before).contains(k) {
                            let i = choose|i: int|
                                0 <= i < deleted_before.len() && (#[trigger] deleted_before[i])@
                                    == k;
                            assert(deleted@[i]@ == k);
                        }
                        if names_of(deleted@).contains(k) {
                            let i = choose|i: int|
                                0 <= i < deleted@.len() && (#[trigger] deleted@[i])@ == k;
                            if i < deleted_before.len() {
                                assert(deleted_before[i]@ == k);
                            }
                        }
                    }
                    assert(names_of(deleted@) =~= written_by(as_map(after), owner));
                    assert(self.files@ =~= without_owner(as_map(after), owner));
                }
            } else {
                self.files.insert(name, entry);
                proof {
                    assert(self.files@ =~= without_owner(as_map(after), owner));
                    assert(names_of(deleted@) =~= written_by(as_map(after), owner));
                }
            }
            proof {
                done = done + 1;
            }
        }
        assert(orig.subrange(0, done) =~= orig);
        deleted
    }
}

} // verus!
