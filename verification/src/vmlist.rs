//! The machine list: a TOML document that maps each machine's name to a
//! table of its details and port forwardings.
//!
//! The document is read from its text and written back with the outside
//! crate `toml`, and held here as plain data in between, so that the edits
//! made to it (recording a new machine, adding a port forwarding) and what the
//! libvirt hook reads of it are stated and proved over its contents.

use vstd::prelude::*;
use crate::text::{owned, str_eq};
use crate::cmd::hook::{PortMapping, VmEntry, vm_entry_view};

verus! {

/// A value of the outside crate `toml`, carried through unread.
#[verifier::external_type_specification]
#[verifier::external_body]
pub struct ExTomlValue(toml::Value);

/// A TOML value. Floats and dates, which the tool never reads, are kept as
/// `toml` holds them, so that a document passes through unchanged.
#[derive(Debug)]
pub enum TomlValue {
    Str(String),
    Integer(i64),
    Boolean(bool),
    Array(Vec<TomlValue>),
    Table(TomlTable),
    Other(toml::Value),
}

/// A TOML table: its keys with their values.
#[derive(Debug)]
pub struct TomlTable {
    pub entries: Vec<(String, TomlValue)>,
}

/// Entry `i` is the first one under `key`.
pub open spec fn first_key_at(e: Seq<(String, TomlValue)>, key: Seq<char>, i: int) -> bool {
    &&& 0 <= i < e.len()
    &&& e[i].0@ == key
    &&& forall|j: int| 0 <= j < i ==> e[j].0@ != key
}

/// No entry is under `key`.
pub open spec fn lacks_key(e: Seq<(String, TomlValue)>, key: Seq<char>) -> bool {
    forall|j: int| 0 <= j < e.len() ==> e[j].0@ != key
}

/// No two entries share a key.
pub open spec fn keys_unique(e: Seq<(String, TomlValue)>) -> bool {
    forall|i: int, j: int| 0 <= i < j < e.len() ==> e[i].0@ != e[j].0@
}

/// The value under `key`, if any.
pub open spec fn table_get(e: Seq<(String, TomlValue)>, key: Seq<char>) -> Option<TomlValue> {
    if exists|i: int| first_key_at(e, key, i) {
        Some(e[choose|i: int| first_key_at(e, key, i)].1)
    } else {
        None
    }
}

/// `r` is `e` with `v` put under `key`: the value of the entry under `key`
/// replaced, or a new last entry where there was none.
pub open spec fn table_put(
    e: Seq<(String, TomlValue)>,
    r: Seq<(String, TomlValue)>,
    key: Seq<char>,
    v: TomlValue,
) -> bool {
    if exists|i: int| first_key_at(e, key, i) {
        let i = choose|i: int| first_key_at(e, key, i);
        r == e.update(i, (e[i].0, v))
    } else {
        &&& r.len() == e.len() + 1
        &&& r.drop_last() == e
        &&& r.last().0@ == key
        &&& r.last().1 == v
    }
}

pub proof fn lemma_first_key_unique(e: Seq<(String, TomlValue)>, key: Seq<char>, i: int, j: int)
    requires
        first_key_at(e, key, i),
        first_key_at(e, key, j),
    ensures
        i == j,
{
    if i < j {
        assert(e[i].0@ != key);
    } else if j < i {
        assert(e[j].0@ != key);
    }
}

/// Where no entry is the first under `key`, no entry is under `key` at all.
pub proof fn lemma_no_first_key(e: Seq<(String, TomlValue)>, key: Seq<char>)
    requires
        !(exists|i: int| first_key_at(e, key, i)),
    ensures
        lacks_key(e, key),
    decreases e.len(),
{
    if e.len() > 0 {
        let d = e.drop_last();
        assert forall|i: int| !first_key_at(d, key, i) by {
            if first_key_at(d, key, i) {
                assert(d[i] == e[i]);
                assert(forall|j: int| 0 <= j < i ==> d[j] == e[j]);
                assert(first_key_at(e, key, i));
            }
        }
        lemma_no_first_key(d, key);
        if e.last().0@ == key {
            assert forall|j: int| 0 <= j < e.len() - 1 implies e[j].0@ != key by {
                assert(d[j] == e[j]);
            }
            assert(first_key_at(e, key, e.len() - 1));
        }
        assert forall|j: int| 0 <= j < e.len() implies e[j].0@ != key by {
            if j < e.len() - 1 {
                assert(d[j] == e[j]);
            }
        }
    }
}

/// Reading a table after a value was put under a key gives that value under
/// that key, and under every other key what was there before.
pub proof fn law_get_after_put(
    e: Seq<(String, TomlValue)>,
    r: Seq<(String, TomlValue)>,
    key: Seq<char>,
    v: TomlValue,
    other: Seq<char>,
)
    requires
        table_put(e, r, key, v),
    ensures
        table_get(r, key) == Some(v),
        other != key ==> table_get(r, other) == table_get(e, other),
{
    if exists|i: int| first_key_at(e, key, i) {
        let i = choose|i: int| first_key_at(e, key, i);
        assert(forall|j: int| 0 <= j < r.len() ==> r[j].0 == e[j].0);
        assert(first_key_at(r, key, i));
        let c = choose|c: int| first_key_at(r, key, c);
        lemma_first_key_unique(r, key, c, i);
        assert forall|j: int| first_key_at(r, other, j) <==> first_key_at(e, other, j) by {}
        if other != key {
            if exists|j: int| first_key_at(e, other, j) {
                let j = choose|j: int| first_key_at(e, other, j);
                let c2 = choose|c2: int| first_key_at(r, other, c2);
                lemma_first_key_unique(r, other, c2, j);
            }
        }
    } else {
        lemma_no_first_key(e, key);
        let n = e.len() as int;
        assert forall|j: int| 0 <= j < n implies r[j] == e[j] by {
            assert(r.drop_last()[j] == r[j]);
        }
        assert(first_key_at(r, key, n));
        let c = choose|c: int| first_key_at(r, key, c);
        lemma_first_key_unique(r, key, c, n);
        if other != key {
            assert forall|j: int| first_key_at(r, other, j) <==> first_key_at(e, other, j) by {}
            if exists|j: int| first_key_at(e, other, j) {
                let j = choose|j: int| first_key_at(e, other, j);
                let c2 = choose|c2: int| first_key_at(r, other, c2);
                lemma_first_key_unique(r, other, c2, j);
            }
        }
    }
}

/// The value under `key` of a table; nothing for a value of another kind.
pub open spec fn value_get(v: TomlValue, key: Seq<char>) -> Option<TomlValue> {
    match v {
        TomlValue::Table(t) => table_get(t.entries@, key),
        _ => None,
    }
}

/// The integer that `o` holds, if it holds one.
pub open spec fn as_integer(o: Option<TomlValue>) -> Option<i64> {
    match o {
        Some(TomlValue::Integer(n)) => Some(n),
        _ => None,
    }
}

/// The text that `o` holds, if it holds a string.
pub open spec fn as_text(o: Option<TomlValue>) -> Option<Seq<char>> {
    match o {
        Some(TomlValue::Str(s)) => Some(s@),
        _ => None,
    }
}

/// `v` is a string with the text `s`.
pub open spec fn is_text(v: TomlValue, s: Seq<char>) -> bool {
    v matches TomlValue::Str(x) && x@ == s
}

/// `v` is the table `{ host = host, guest = guest }`.
pub open spec fn is_port_value(v: TomlValue, host: u16, guest: u16) -> bool {
    &&& v matches TomlValue::Table(t)
    &&& t.entries@.len() == 2
    &&& t.entries@[0].0@ == "host"@
    &&& t.entries@[0].1 == TomlValue::Integer(host as i64)
    &&& t.entries@[1].0@ == "guest"@
    &&& t.entries@[1].1 == TomlValue::Integer(guest as i64)
}

/// `v` is a list that holds one port forwarding, `host` to `guest`.
pub open spec fn is_port_list(v: TomlValue, host: u16, guest: u16) -> bool {
    v matches TomlValue::Array(a) && a@.len() == 1 && is_port_value(a@[0], host, guest)
}

/// `v` is the record of a machine: its name, user, distribution, disk image
/// and IPv4 address.
pub open spec fn is_vm_record(
    v: TomlValue,
    name: Seq<char>,
    user: Seq<char>,
    distro: Seq<char>,
    disk_path: Seq<char>,
    ipv4: Seq<char>,
) -> bool {
    &&& v matches TomlValue::Table(t)
    &&& t.entries@.len() == 5
    &&& t.entries@[0].0@ == "name"@ && is_text(t.entries@[0].1, name)
    &&& t.entries@[1].0@ == "user"@ && is_text(t.entries@[1].1, user)
    &&& t.entries@[2].0@ == "distro"@ && is_text(t.entries@[2].1, distro)
    &&& t.entries@[3].0@ == "disk_path"@ && is_text(t.entries@[3].1, disk_path)
    &&& t.entries@[4].0@ == "ipv4addr"@ && is_text(t.entries@[4].1, ipv4)
}

/// `r` is the table `t` with a port forwarding, `host` to `guest`, added to
/// its `ports`: appended where `ports` is a list, else `ports` set to a list
/// of that forwarding alone.
pub open spec fn with_port(t: Seq<(String, TomlValue)>, r: Seq<(String, TomlValue)>, host: u16, guest: u16) -> bool {
    if exists|i: int| first_key_at(t, "ports"@, i) {
        let i = choose|i: int| first_key_at(t, "ports"@, i);
        &&& r.len() == t.len()
        &&& forall|j: int| 0 <= j < t.len() && j != i ==> r[j] == t[j]
        &&& r[i].0 == t[i].0
        &&& match t[i].1 {
            TomlValue::Array(a) => {
                &&& r[i].1 matches TomlValue::Array(b)
                &&& b@.len() == a@.len() + 1
                &&& b@.drop_last() == a@
                &&& is_port_value(b@.last(), host, guest)
            },
            _ => is_port_list(r[i].1, host, guest),
        }
    } else {
        &&& r.len() == t.len() + 1
        &&& r.drop_last() == t
        &&& r.last().0@ == "ports"@
        &&& is_port_list(r.last().1, host, guest)
    }
}

/// `r` is the machine list `e` with a port forwarding, `host` to `guest`,
/// added to the machine `name`: to its table where it has one, to a new
/// table of its own where the list has no such machine; an entry under
/// `name` that is not a table is left as it is.
pub open spec fn with_machine_port(
    e: Seq<(String, TomlValue)>,
    r: Seq<(String, TomlValue)>,
    name: Seq<char>,
    host: u16,
    guest: u16,
) -> bool {
    if exists|i: int| first_key_at(e, name, i) {
        let i = choose|i: int| first_key_at(e, name, i);
        &&& r.len() == e.len()
        &&& forall|j: int| 0 <= j < e.len() && j != i ==> r[j] == e[j]
        &&& r[i].0 == e[i].0
        &&& match e[i].1 {
            TomlValue::Table(t) => r[i].1 matches TomlValue::Table(t2) && with_port(t.entries@, t2.entries@, host, guest),
            _ => r[i].1 == e[i].1,
        }
    } else {
        &&& r.len() == e.len() + 1
        &&& r.drop_last() == e
        &&& r.last().0@ == name
        &&& r.last().1 matches TomlValue::Table(t2) && with_port(Seq::empty(), t2.entries@, host, guest)
    }
}

/// A port forwarding's host and guest port, where they are integers.
pub open spec fn port_mapping_of(x: TomlValue) -> PortMapping {
    PortMapping { host: as_integer(value_get(x, "host"@)), guest: as_integer(value_get(x, "guest"@)) }
}

/// What the hook reads of a machine's entry: the IPv4 address where it is a
/// string, and the forwardings where they form a list, each with its host
/// and guest port where they are integers.
pub open spec fn entry_view(v: TomlValue) -> (Option<Seq<char>>, Option<Seq<PortMapping>>) {
    (
        as_text(value_get(v, "ipv4addr"@)),
        match value_get(v, "ports"@) {
            Some(TomlValue::Array(a)) => Some(a@.map_values(|x: TomlValue| port_mapping_of(x))),
            _ => None,
        },
    )
}

impl TomlTable {
    /// An empty table.
    pub fn new() -> (r: TomlTable)
        ensures
            r.entries@.len() == 0,
    {
        TomlTable { entries: Vec::new() }
    }

    /// Where the first entry under `key` stands.
    pub fn position(&self, key: &str) -> (r: Option<usize>)
        ensures
            match r {
                Some(i) => first_key_at(self.entries@, key@, i as int),
                None => lacks_key(self.entries@, key@),
            },
    {
        let mut i: usize = 0;
        while i < self.entries.len()
            invariant
                i <= self.entries.len(),
                forall|j: int| 0 <= j < i ==> self.entries@[j].0@ != key@,
            decreases self.entries.len() - i,
        {
            if str_eq(self.entries[i].0.as_str(), key) {
                return Some(i);
            }
            i = i + 1;
        }
        None
    }

    /// The value under `key`.
    pub fn get(&self, key: &str) -> (r: Option<&TomlValue>)
        ensures
            match r {
                Some(v) => table_get(self.entries@, key@) == Some(*v),
                None => table_get(self.entries@, key@) is None,
            },
    {
        match self.position(key) {
            Some(i) => {
                proof {
                    let c = choose|c: int| first_key_at(self.entries@, key@, c);
                    lemma_first_key_unique(self.entries@, key@, c, i as int);
                }
                Some(&self.entries[i].1)
            },
            None => None,
        }
    }

    /// Puts `value` under `key`, in place of the value there or as a new
    /// last entry.
    pub fn insert(&mut self, key: String, value: TomlValue)
        ensures
            table_put(old(self).entries@, final(self).entries@, key@, value),
            keys_unique(old(self).entries@) ==> keys_unique(final(self).entries@),
    {
        let ghost e = self.entries@;
        let ghost v = value;
        match self.position(key.as_str()) {
            Some(i) => {
                proof {
                    let c = choose|c: int| first_key_at(e, key@, c);
                    lemma_first_key_unique(e, key@, c, i as int);
                }
                let (k, _previous) = self.entries.remove(i);
                self.entries.insert(i, (k, value));
                assert(self.entries@ =~= e.update(i as int, (e[i as int].0, v)));
            },
            None => {
                self.entries.push((key, value));
                assert(self.entries@.drop_last() =~= e);
            },
        }
    }
}

/// `{ host = host, guest = guest }`.
fn port_value(host: u16, guest: u16) -> (r: TomlValue)
    ensures
        is_port_value(r, host, guest),
{
    let mut t = TomlTable::new();
    t.entries.push((owned("host"), TomlValue::Integer(host as i64)));
    t.entries.push((owned("guest"), TomlValue::Integer(guest as i64)));
    TomlValue::Table(t)
}

/// Adds a port forwarding to the `ports` of a machine's table.
fn add_port(t: &mut TomlTable, host: u16, guest: u16)
    ensures
        with_port(old(t).entries@, final(t).entries@, host, guest),
{
    let ghost e = t.entries@;
    let port = port_value(host, guest);
    let ghost p = port;
    match t.position("ports") {
        Some(i) => {
            proof {
                let c = choose|c: int| first_key_at(e, "ports"@, c);
                lemma_first_key_unique(e, "ports"@, c, i as int);
            }
            let (k, v) = t.entries.remove(i);
            let ghost old_v = v;
            let nv = match v {
                TomlValue::Array(a) => {
                    let mut a = a;
                    let ghost a0 = a@;
                    a.push(port);
                    assert(a@.drop_last() =~= a0);
                    TomlValue::Array(a)
                },
                _ => TomlValue::Array(vec![port]),
            };
            let ghost gnv = nv;
            t.entries.insert(i, (k, nv));
            assert(t.entries@ =~= e.update(i as int, (e[i as int].0, gnv)));
            assert(old_v == e[i as int].1);
        },
        None => {
            t.entries.push((owned("ports"), TomlValue::Array(vec![port])));
            assert(t.entries@.drop_last() =~= e);
        },
    }
}

/// Records a machine in the machine list under its name, in place of any
/// record there was under that name.
pub fn save_vm_entry(doc: &mut TomlTable, name: &str, user: &str, distro: &str, disk_path: &str, ipv4: &str)
    ensures
        exists|v: TomlValue|
            is_vm_record(v, name@, user@, distro@, disk_path@, ipv4@) && table_put(
                old(doc).entries@,
                final(doc).entries@,
                name@,
                v,
            ),
        keys_unique(old(doc).entries@) ==> keys_unique(final(doc).entries@),
{
    let mut t = TomlTable::new();
    t.entries.push((owned("name"), TomlValue::Str(owned(name))));
    t.entries.push((owned("user"), TomlValue::Str(owned(user))));
    t.entries.push((owned("distro"), TomlValue::Str(owned(distro))));
    t.entries.push((owned("disk_path"), TomlValue::Str(owned(disk_path))));
    t.entries.push((owned("ipv4addr"), TomlValue::Str(owned(ipv4))));
    let v = TomlValue::Table(t);
    let ghost gv = v;
    assert(is_vm_record(gv, name@, user@, distro@, disk_path@, ipv4@));
    doc.insert(owned(name), v);
}

/// Adds a port forwarding, host port `host` to guest port `guest`, to the
/// machine `name` in the machine list.
pub fn add_port_mapping(doc: &mut TomlTable, name: &str, host: u16, guest: u16)
    ensures
        with_machine_port(old(doc).entries@, final(doc).entries@, name@, host, guest),
        keys_unique(old(doc).entries@) ==> keys_unique(final(doc).entries@),
{
    let ghost e = doc.entries@;
    match doc.position(name) {
        Some(i) => {
            proof {
                let c = choose|c: int| first_key_at(e, name@, c);
                lemma_first_key_unique(e, name@, c, i as int);
            }
            let (k, v) = doc.entries.remove(i);
            let ghost old_v = v;
            let nv = match v {
                TomlValue::Table(t) => {
                    let mut t = t;
                    let ghost t0 = t.entries@;
                    add_port(&mut t, host, guest);
                    assert(with_port(t0, t.entries@, host, guest));
                    TomlValue::Table(t)
                },
                other => other,
            };
            let ghost gnv = nv;
            doc.entries.insert(i, (k, nv));
            assert(doc.entries@ =~= e.update(i as int, (e[i as int].0, gnv)));
            assert(old_v == e[i as int].1);
        },
        None => {
            let mut t = TomlTable::new();
            assert(t.entries@ =~= Seq::<(String, TomlValue)>::empty());
            add_port(&mut t, host, guest);
            doc.entries.push((owned(name), TomlValue::Table(t)));
            assert(doc.entries@.drop_last() =~= e);
        },
    }
}

/// The integer under `key` of a table value.
fn integer_at(v: &TomlValue, key: &str) -> (r: Option<i64>)
    ensures
        r == as_integer(value_get(*v, key@)),
{
    match v {
        TomlValue::Table(t) => match t.get(key) {
            Some(TomlValue::Integer(n)) => Some(*n),
            _ => None,
        },
        _ => None,
    }
}

/// What the hook reads of a machine's entry.
fn read_entry(v: &TomlValue) -> (r: VmEntry)
    ensures
        vm_entry_view(r) == entry_view(*v),
{
    let t = match v {
        TomlValue::Table(t) => t,
        _ => {
            return VmEntry { ipv4addr: None, ports: None };
        },
    };
    let ipv4addr = match t.get("ipv4addr") {
        Some(TomlValue::Str(s)) => Some(s.clone()),
        _ => None,
    };
    let ports = match t.get("ports") {
        Some(TomlValue::Array(a)) => {
            let mut out: Vec<PortMapping> = Vec::new();
            let mut i: usize = 0;
            while i < a.len()
                invariant
                    i <= a.len(),
                    out@ == a@.take(i as int).map_values(|x: TomlValue| port_mapping_of(x)),
                decreases a.len() - i,
            {
                let m = PortMapping { host: integer_at(&a[i], "host"), guest: integer_at(&a[i], "guest") };
                assert(m == port_mapping_of(a@[i as int]));
                out.push(m);
                assert(a@.take(i + 1).map_values(|x: TomlValue| port_mapping_of(x)) =~= a@.take(i as int).map_values(|x: TomlValue| port_mapping_of(x)).push(port_mapping_of(a@[i as int])));
                i = i + 1;
            }
            assert(a@.take(a.len() as int) =~= a@);
            Some(out)
        },
        _ => None,
    };
    VmEntry { ipv4addr, ports }
}

/// What the hook reads of the entry of machine `name`, if the list has one.
pub fn vm_entry_of(doc: &TomlTable, name: &str) -> (r: Option<VmEntry>)
    ensures
        match table_get(doc.entries@, name@) {
            Some(v) => r matches Some(en) && vm_entry_view(en) == entry_view(v),
            None => r is None,
        },
{
    match doc.get(name) {
        Some(v) => Some(read_entry(v)),
        None => None,
    }
}

/// The document that the outside crate `toml` reads from a text
/// (`toml::from_str::<toml::Value>`), as plain data; none where it refuses
/// the text.
pub uninterp spec fn vmlist_of_text(text: Seq<char>) -> Option<TomlValue>;

/// The text that the outside crate `toml` writes for a document
/// (`toml::to_string_pretty`); none where it refuses the document.
pub uninterp spec fn vmlist_text(doc: TomlValue) -> Option<Seq<char>>;

/// A value of `toml` as plain data, kind by kind.
#[verifier::external_body]
fn model_of_value(v: &toml::Value) -> TomlValue {
    match v {
        toml::Value::String(s) => TomlValue::Str(s.clone()),
        toml::Value::Integer(n) => TomlValue::Integer(*n),
        toml::Value::Boolean(b) => TomlValue::Boolean(*b),
        toml::Value::Array(a) => TomlValue::Array(a.iter().map(model_of_value).collect()),
        toml::Value::Table(t) => TomlValue::Table(
            TomlTable { entries: t.iter().map(|(k, x)| (k.clone(), model_of_value(x))).collect() },
        ),
        toml::Value::Float(_) => TomlValue::Other(v.clone()),
        toml::Value::Datetime(_) => TomlValue::Other(v.clone()),
    }
}

/// Plain data as a value of `toml`, kind by kind.
#[verifier::external_body]
fn value_of_model(v: &TomlValue) -> toml::Value {
    match v {
        TomlValue::Str(s) => toml::Value::String(s.clone()),
        TomlValue::Integer(n) => toml::Value::Integer(*n),
        TomlValue::Boolean(b) => toml::Value::Boolean(*b),
        TomlValue::Array(a) => toml::Value::Array(a.iter().map(value_of_model).collect()),
        TomlValue::Table(t) => toml::Value::Table(
            t.entries.iter().map(|(k, x)| (k.clone(), value_of_model(x))).collect(),
        ),
        TomlValue::Other(x) => x.clone(),
    }
}

/// Reads a machine list with `toml::from_str::<toml::Value>`. Its outcome is
/// named `vmlist_of_text` of the text; nothing more of it is stated.
#[verifier::external_body]
pub(crate) fn parse_vmlist(text: &str) -> (r: Option<TomlValue>)
    ensures
        r == vmlist_of_text(text@),
{
    match toml::from_str::<toml::Value>(text) {
        Ok(v) => Some(model_of_value(&v)),
        Err(_) => None,
    }
}

/// Writes a machine list with `toml::to_string_pretty`. Its outcome is named
/// `vmlist_text` of the document; nothing more of it is stated.
#[verifier::external_body]
fn render_vmlist(doc: &TomlValue) -> (r: Option<String>)
    ensures
        match vmlist_text(*doc) {
            Some(t) => r matches Some(s) && s@ == t,
            None => r is None,
        },
{
    match toml::to_string_pretty(&value_of_model(doc)) {
        Ok(s) => Some(s),
        Err(_) => None,
    }
}

/// Why the machine list could not be updated.
#[derive(Clone, Copy, Debug, PartialEq, Eq, Structural)]
pub enum VmListError {
    /// The existing text is not a TOML document.
    Parse,
    /// The updated document could not be written as TOML.
    Render,
}

/// `r` is the text of `doc`, or the refusal to write it.
pub open spec fn rendered(doc: TomlValue, r: Result<String, VmListError>) -> bool {
    match vmlist_text(doc) {
        Some(t) => r matches Ok(s) && s@ == t,
        None => r matches Err(VmListError::Render),
    }
}

/// `r` is the text of the list `e` with a record of the machine put under its
/// name.
pub open spec fn saved_text(
    e: Seq<(String, TomlValue)>,
    r: Result<String, VmListError>,
    name: Seq<char>,
    user: Seq<char>,
    distro: Seq<char>,
    disk_path: Seq<char>,
    ipv4: Seq<char>,
) -> bool {
    exists|t: TomlTable, v: TomlValue|
        #![trigger table_put(e, t.entries@, name, v)]
        is_vm_record(v, name, user, distro, disk_path, ipv4) && table_put(e, t.entries@, name, v) && rendered(
            TomlValue::Table(t),
            r,
        )
}

/// `r` is the text of the list `e` with the port forwarding added to the
/// machine `name`.
pub open spec fn ported_text(
    e: Seq<(String, TomlValue)>,
    r: Result<String, VmListError>,
    name: Seq<char>,
    host: u16,
    guest: u16,
) -> bool {
    exists|t: TomlTable|
        #![trigger with_machine_port(e, t.entries@, name, host, guest)]
        with_machine_port(e, t.entries@, name, host, guest) && rendered(TomlValue::Table(t), r)
}

/// The text of the machine list `existing` (an empty list where there is
/// none) with a record of the machine put under its name; a document that is
/// not a table is written back as it is; refused where the text does not
/// parse or the result cannot be written.
pub fn save_vm_entry_text(
    existing: Option<&str>,
    name: &str,
    user: &str,
    distro: &str,
    disk_path: &str,
    ipv4: &str,
) -> (r: Result<String, VmListError>)
    ensures
        match existing {
            Some(x) => match vmlist_of_text(x@) {
                None => r == Err::<String, VmListError>(VmListError::Parse),
                Some(TomlValue::Table(d)) => saved_text(d.entries@, r, name@, user@, distro@, disk_path@, ipv4@),
                Some(v) => rendered(v, r),
            },
            None => saved_text(Seq::empty(), r, name@, user@, distro@, disk_path@, ipv4@),
        },
{
    let doc = match existing {
        Some(x) => match parse_vmlist(x) {
            Some(d) => d,
            None => return Err(VmListError::Parse),
        },
        None => TomlValue::Table(TomlTable::new()),
    };
    match doc {
        TomlValue::Table(t) => {
            let mut t = t;
            let ghost e = t.entries@;
            assert(existing is None ==> e =~= Seq::<(String, TomlValue)>::empty());
            save_vm_entry(&mut t, name, user, distro, disk_path, ipv4);
            let ghost v = choose|v: TomlValue|
                is_vm_record(v, name@, user@, distro@, disk_path@, ipv4@) && table_put(e, t.entries@, name@, v);
            let out = TomlValue::Table(t);
            let r = match render_vmlist(&out) {
                Some(s) => Ok(s),
                None => Err(VmListError::Render),
            };
            assert(table_put(e, t.entries@, name@, v) && rendered(TomlValue::Table(t), r));
            r
        },
        other => match render_vmlist(&other) {
            Some(s) => Ok(s),
            None => Err(VmListError::Render),
        },
    }
}

/// The text of the machine list `existing` (an empty list where there is
/// none) with a port forwarding, `host` to `guest`, added to the machine
/// `name`; a document that is not a table is written back as it is; refused
/// where the text does not parse or the result cannot be written.
pub fn add_port_mapping_text(existing: Option<&str>, name: &str, host: u16, guest: u16) -> (r: Result<
    String,
    VmListError,
>)
    ensures
        match existing {
            Some(x) => match vmlist_of_text(x@) {
                None => r == Err::<String, VmListError>(VmListError::Parse),
                Some(TomlValue::Table(d)) => ported_text(d.entries@, r, name@, host, guest),
                Some(v) => rendered(v, r),
            },
            None => ported_text(Seq::empty(), r, name@, host, guest),
        },
{
    let doc = match existing {
        Some(x) => match parse_vmlist(x) {
            Some(d) => d,
            None => return Err(VmListError::Parse),
        },
        None => TomlValue::Table(TomlTable::new()),
    };
    match doc {
        TomlValue::Table(t) => {
            let mut t = t;
            let ghost e = t.entries@;
            assert(existing is None ==> e =~= Seq::<(String, TomlValue)>::empty());
            add_port_mapping(&mut t, name, host, guest);
            let out = TomlValue::Table(t);
            let r = match render_vmlist(&out) {
                Some(s) => Ok(s),
                None => Err(VmListError::Render),
            };
            assert(with_machine_port(e, t.entries@, name@, host, guest) && rendered(TomlValue::Table(t), r));
            r
        },
        other => match render_vmlist(&other) {
            Some(s) => Ok(s),
            None => Err(VmListError::Render),
        },
    }
}

} // verus!
