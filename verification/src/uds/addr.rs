//! Fake addresses for socket paths.
use std::collections::HashMap;
use vstd::prelude::*;

verus! {

broadcast use vstd::std_specs::hash::group_hash_axioms;

/// The first fake port that is given out.
pub const FIRST_FAKE_PORT: u16 = 100;

/// The fake IP address that goes with all ports: the local host.
pub fn fake_ip() -> (ip: [u8; 4])
    ensures
        ip@ == seq![127u8, 0, 0, 1],
{
    let ip: [u8; 4] = [127, 0, 0, 1];
    assert(ip@ =~= seq![127u8, 0, 0, 1]);
    ip
}

/// A counter that gives out numbers, and starts again at zero after the largest one.
#[derive(Debug, Clone, Copy, PartialEq, Eq, Structural)]
pub struct Counter {
    pub next: u16,
}

impl Counter {
    /// The counter for fake ports.
    pub fn ports() -> (r: Self)
        ensures
            r.next == FIRST_FAKE_PORT,
    {
        Counter { next: FIRST_FAKE_PORT }
    }

    /// The counter for client ids.
    pub fn client_ids() -> (r: Self)
        ensures
            r.next == 0,
    {
        Counter { next: 0 }
    }

    /// The number after `n`.
    pub open spec fn after(n: u16) -> u16 {
        if n == u16::MAX {
            0
        } else {
            (n + 1) as u16
        }
    }

    /// The next number.
    pub fn take(&mut self) -> (n: u16)
        ensures
            n == old(self).next,
            final(self).next == Self::after(n),
    {
        let n: u16 = self.next;
        self.next = if n == u16::MAX {
            0
        } else {
            n + 1
        };
        n
    }
}

/// What a path consists of. Two paths with the same components are the same path.
pub struct Components {
    /// Whether the path starts at the root.
    pub root: bool,
    /// The names on the path, from the first one on.
    pub names: Seq<Seq<u8>>,
}

/// What stands between two names.
pub const SEPARATOR: u8 = 47;

/// The name of the current directory.
pub const CURRENT_DIR: u8 = 46;

/// How long the name at position `i` is.
pub open spec fn name_len(path: Seq<u8>, i: int) -> nat
    decreases path.len() - i,
{
    if i < 0 || i >= path.len() || path[i] == SEPARATOR {
        0
    } else {
        1 + name_len(path, i + 1)
    }
}

/// Whether this name at position `i` of a path says nothing: it is empty, or it is the current
/// directory and not the start of the path.
pub open spec fn is_void(name: Seq<u8>, i: int) -> bool {
    name.len() == 0 || (i > 0 && name == seq![CURRENT_DIR])
}

/// The names on a path, from position `i` on.
pub open spec fn names_from(path: Seq<u8>, i: int) -> Seq<Seq<u8>>
    decreases path.len() - i,
{
    if i < 0 || i >= path.len() {
        Seq::empty()
    } else {
        let end = i + name_len(path, i);
        let name = path.subrange(i, end);
        let rest = if end < path.len() {
            names_from(path, end + 1)
        } else {
            Seq::empty()
        };
        if is_void(name, i) {
            rest
        } else {
            seq![name] + rest
        }
    }
}

/// What a path consists of. Repeated separators, one at the end, and a `.` that is not the start of
/// the path make no difference.
pub open spec fn components(path: Seq<u8>) -> Components {
    Components {
        root: path.len() > 0 && path[0] == SEPARATOR,
        names: names_from(path, 0),
    }
}

/// Where the names on a path end, from position `i` on.
pub open spec fn name_ends(path: Seq<u8>, i: int) -> Seq<int>
    decreases path.len() - i,
{
    if i < 0 || i >= path.len() {
        Seq::empty()
    } else {
        let end = i + name_len(path, i);
        let rest = if end < path.len() {
            name_ends(path, end + 1)
        } else {
            Seq::empty()
        };
        if is_void(path.subrange(i, end), i) {
            rest
        } else {
            seq![end] + rest
        }
    }
}

/// The directory of a path: the path up to the last name but one. A path without names has none.
pub open spec fn parent(path: Seq<u8>) -> Option<Seq<u8>> {
    let ends = name_ends(path, 0);
    if ends.len() == 0 {
        None
    } else if ends.len() > 1 {
        Some(path.take(ends[ends.len() - 2]))
    } else if path[0] == SEPARATOR {
        Some(path.take(1))
    } else {
        Some(Seq::empty())
    }
}

/// The path of a name in a directory.
pub open spec fn joined(dir: Seq<u8>, name: Seq<u8>) -> Seq<u8> {
    if dir.len() == 0 || dir.last() == SEPARATOR {
        dir + name
    } else {
        dir.push(SEPARATOR) + name
    }
}

/// How long the directory of a path is.
pub fn parent_len(path: &[u8]) -> (r: Option<usize>)
    ensures
        match r {
            Some(n) => n <= path@.len() && parent(path@) == Some(path@.take(n as int)),
            None => parent(path@) is None,
        },
{
    let mut last: Option<usize> = None;
    let mut before: Option<usize> = None;
    let mut i: usize = 0;
    let ghost mut ends: Seq<int> = Seq::empty();
    assert(ends + name_ends(path@, 0) =~= name_ends(path@, 0));
    while i < path.len()
        invariant
            i <= path.len(),
            ends + name_ends(path@, i as int) == name_ends(path@, 0),
            last matches Some(n) ==> n <= path.len(),
            before matches Some(n) ==> n <= path.len(),
            match (last, before) {
                (None, None) => ends.len() == 0,
                (Some(n), None) => ends == seq![n as int],
                (Some(n), Some(m)) => ends.len() > 1 && ends.last() == n && ends[ends.len() - 2]
                    == m,
                (None, Some(_)) => false,
            },
        decreases path.len() - i,
    {
        let mut k: usize = i;
        while k < path.len() && path[k] != SEPARATOR
            invariant
                i <= k <= path.len(),
                i + name_len(path@, i as int) == k + name_len(path@, k as int),
            decreases path.len() - k,
        {
            k = k + 1;
        }
        let void = k == i || (i > 0 && k - i == 1 && path[i] == CURRENT_DIR);
        let ghost name = path@.subrange(i as int, k as int);
        proof {
            assert(k - i == 1 && path[i as int] == CURRENT_DIR ==> name =~= seq![CURRENT_DIR]);
            if name == seq![CURRENT_DIR] {
                assert(name[0] == CURRENT_DIR);
            }
            assert(void == is_void(name, i as int));
        }
        let ghost rest = if k < path.len() {
            name_ends(path@, k + 1)
        } else {
            Seq::empty()
        };
        let ghost sofar = ends;
        if !void {
            before = last;
            last = Some(k);
            proof {
                ends = ends.push(k as int);
                assert(sofar + (seq![k as int] + rest) =~= ends + rest);
            }
        }
        assert(ends + rest =~= name_ends(path@, 0));
        i = if k < path.len() {
            k + 1
        } else {
            k
        };
        assert(name_ends(path@, i as int) =~= rest);
    }
    assert(ends =~= name_ends(path@, 0));
    match (last, before) {
        (_, Some(n)) => Some(n),
        (Some(_), None) => {
            assert(path@.take(0) =~= Seq::empty());
            if path.len() > 0 && path[0] == SEPARATOR {
                Some(1)
            } else {
                Some(0)
            }
        },
        (None, None) => None,
    }
}

/// The path of a name in a directory.
pub fn join(dir: &[u8], name: &[u8]) -> (r: Vec<u8>)
    ensures
        r@ == joined(dir@, name@),
{
    let mut path = copy_path(dir);
    if dir.len() > 0 && dir[dir.len() - 1] != SEPARATOR {
        path.push(SEPARATOR);
    }
    path.extend_from_slice(name);
    assert(path@ =~= joined(dir@, name@));
    path
}

/// The names on a path.
fn split(path: &[u8]) -> (r: Vec<Vec<u8>>)
    ensures
        r.deep_view() == components(path@).names,
{
    let mut names: Vec<Vec<u8>> = Vec::new();
    let mut i: usize = 0;
    assert(names.deep_view() + names_from(path@, 0) =~= names_from(path@, 0));
    while i < path.len()
        invariant
            i <= path.len(),
            names.deep_view() + names_from(path@, i as int) == names_from(path@, 0),
        decreases path.len() - i,
    {
        let mut name: Vec<u8> = Vec::new();
        let mut k: usize = i;
        while k < path.len() && path[k] != SEPARATOR
            invariant
                i <= k <= path.len(),
                name@ == path@.subrange(i as int, k as int),
                i + name_len(path@, i as int) == k + name_len(path@, k as int),
            decreases path.len() - k,
        {
            name.push(path[k]);
            k = k + 1;
            assert(name@ =~= path@.subrange(i as int, k as int));
        }
        let void = name.len() == 0 || (i > 0 && name.len() == 1 && name[0] == CURRENT_DIR);
        proof {
            assert(name.len() == 1 && name[0] == CURRENT_DIR ==> name@ =~= seq![CURRENT_DIR]);
            assert(void == is_void(name@, i as int));
            assert(name.deep_view() =~= name@);
        }
        let ghost before = names.deep_view();
        let ghost rest = if k < path.len() {
            names_from(path@, k + 1)
        } else {
            Seq::empty()
        };
        if !void {
            names.push(name);
            assert(names.deep_view() =~= before.push(name@));
        }
        assert(names.deep_view() + rest =~= names_from(path@, 0));
        i = if k < path.len() {
            k + 1
        } else {
            k
        };
        assert(names_from(path@, i as int) =~= rest);
    }
    assert(names.deep_view() =~= names_from(path@, 0));
    names
}

/// Whether two names are the same.
fn same_name(a: &[u8], b: &[u8]) -> (r: bool)
    ensures
        r == (a@ == b@),
{
    if a.len() != b.len() {
        return false;
    }
    let mut i: usize = 0;
    while i < a.len()
        invariant
            i <= a.len(),
            a.len() == b.len(),
            forall|k: int| 0 <= k < i ==> a[k] == b[k],
        decreases a.len() - i,
    {
        if a[i] != b[i] {
            assert(a@[i as int] != b@[i as int]);
            return false;
        }
        i = i + 1;
    }
    assert(a@ =~= b@);
    true
}

/// Whether two paths are the same.
fn same_path(a: &[u8], b: &[u8]) -> (r: bool)
    ensures
        r == (components(a@) == components(b@)),
{
    if (a.len() > 0 && a[0] == SEPARATOR) != (b.len() > 0 && b[0] == SEPARATOR) {
        return false;
    }
    let x = split(a);
    let y = split(b);
    proof {
        assert(x.deep_view().len() == x.len());
        assert(y.deep_view().len() == y.len());
    }
    if x.len() != y.len() {
        return false;
    }
    let mut i: usize = 0;
    while i < x.len()
        invariant
            i <= x.len(),
            x.len() == y.len(),
            x.deep_view() == components(a@).names,
            y.deep_view() == components(b@).names,
            forall|k: int| 0 <= k < i ==> x[k]@ == y[k]@,
        decreases x.len() - i,
    {
        proof {
            assert(x.deep_view()[i as int] == x[i as int].deep_view());
            assert(y.deep_view()[i as int] == y[i as int].deep_view());
            assert(x[i as int].deep_view() =~= x[i as int]@);
            assert(y[i as int].deep_view() =~= y[i as int]@);
        }
        if !same_name(x[i].as_slice(), y[i].as_slice()) {
            return false;
        }
        i = i + 1;
    }
    assert forall|k: int| 0 <= k < x.len() implies x.deep_view()[k] == y.deep_view()[k] by {
        assert(x[k].deep_view() =~= x[k]@);
        assert(y[k].deep_view() =~= y[k]@);
    }
    assert(x.deep_view() =~= y.deep_view());
    true
}

/// The fake ports of some paths, which are all different. It does not matter how a path is spelled.
pub struct PathTable {
    entries: Vec<(Vec<u8>, u16)>,
}

impl View for PathTable {
    type V = Map<Components, u16>;

    closed spec fn view(&self) -> Map<Components, u16> {
        entries_map(self.entries@)
    }
}

spec fn entries_map(entries: Seq<(Vec<u8>, u16)>) -> Map<Components, u16>
    decreases entries.len(),
{
    if entries.len() == 0 {
        Map::empty()
    } else {
        entries_map(entries.drop_last()).insert(components(entries.last().0@), entries.last().1)
    }
}

spec fn has_path(entries: Seq<(Vec<u8>, u16)>, path: Components) -> bool {
    exists|i: int| 0 <= i < entries.len() && components((#[trigger] entries[i]).0@) == path
}

spec fn paths_differ(entries: Seq<(Vec<u8>, u16)>) -> bool {
    forall|i: int, j: int|
        0 <= i < j < entries.len() ==> components((#[trigger] entries[i]).0@) != components((#[trigger] entries[j]).0@)
}

proof fn lemma_entries_dom(entries: Seq<(Vec<u8>, u16)>, path: Components)
    ensures
        entries_map(entries).contains_key(path) <==> has_path(entries, path),
    decreases entries.len(),
{
    if entries.len() > 0 {
        let rest = entries.drop_last();
        lemma_entries_dom(rest, path);
        if has_path(rest, path) {
            let i = choose|i: int| 0 <= i < rest.len() && components((#[trigger] rest[i]).0@) == path;
            assert(components(entries[i].0@) == path);
        }
        if has_path(entries, path) && components(entries.last().0@) != path {
            let i = choose|i: int| 0 <= i < entries.len() && components((#[trigger] entries[i]).0@) == path;
            assert(components(rest[i].0@) == path);
        }
    }
}

proof fn lemma_entries_get(entries: Seq<(Vec<u8>, u16)>, i: int)
    requires
        0 <= i < entries.len(),
        paths_differ(entries),
    ensures
        entries_map(entries).contains_key(components(entries[i].0@)),
        entries_map(entries)[components(entries[i].0@)] == entries[i].1,
    decreases entries.len(),
{
    if i < entries.len() - 1 {
        let rest = entries.drop_last();
        assert(rest[i] == entries[i]);
        assert forall|a: int, b: int| 0 <= a < b < rest.len() implies components(
            (#[trigger] rest[a]).0@,
        ) != components((#[trigger] rest[b]).0@) by {
            assert(rest[a] == entries[a] && rest[b] == entries[b]);
        }
        lemma_entries_get(rest, i);
        assert(components(entries[i].0@) != components(entries[entries.len() - 1].0@));
    }
}

impl PathTable {
    #[verifier::type_invariant]
    spec fn has_no_duplicates(self) -> bool {
        paths_differ(self.entries@)
    }

    /// Without paths.
    pub fn new() -> (r: Self)
        ensures
            r@ == Map::<Components, u16>::empty(),
    {
        PathTable { entries: Vec::new() }
    }

    fn find(&self, path: &[u8]) -> (r: Option<usize>)
        ensures
            match r {
                Some(i) => i < self.entries.len() && components(self.entries[i as int].0@)
                    == components(path@),
                None => !has_path(self.entries@, components(path@)),
            },
    {
        let mut i: usize = 0;
        while i < self.entries.len()
            invariant
                i <= self.entries.len(),
                forall|k: int| 0 <= k < i ==> components((#[trigger] self.entries[k]).0@) != components(
                    path@,
                ),
            decreases self.entries.len() - i,
        {
            if same_path(self.entries[i].0.as_slice(), path) {
                return Some(i);
            }
            i = i + 1;
        }
        None
    }

    /// The fake port of a path.
    pub fn get(&self, path: &[u8]) -> (r: Option<u16>)
        ensures
            r == if self@.contains_key(components(path@)) {
                Some(self@[components(path@)])
            } else {
                None
            },
    {
        proof {
            use_type_invariant(self);
            lemma_entries_dom(self.entries@, components(path@));
        }
        match self.find(path) {
            Some(i) => {
                proof {
                    lemma_entries_get(self.entries@, i as int);
                }
                Some(self.entries[i].1)
            },
            None => None,
        }
    }

    /// Gives a path this fake port.
    pub fn insert(&mut self, path: Vec<u8>, port: u16)
        ensures
            final(self)@ == old(self)@.insert(components(path@), port),
    {
        proof {
            use_type_invariant(&*self);
        }
        let found = self.find(path.as_slice());
        let mut entries: Vec<(Vec<u8>, u16)> = Vec::new();
        std::mem::swap(&mut self.entries, &mut entries);
        let ghost before = entries@;
        match found {
            Some(i) => {
                entries.set(i, (path, port));
                proof {
                    assert forall|a: int, b: int| 0 <= a < b < entries.len() implies components(
                        (#[trigger] entries@[a]).0@,
                    ) != components((#[trigger] entries@[b]).0@) by {
                        assert(components(before[a].0@) != components(before[b].0@));
                    }
                    lemma_update(before, entries@, i as int, port);
                }
            },
            None => {
                entries.push((path, port));
                proof {
                    assert forall|a: int, b: int| 0 <= a < b < entries.len() implies components(
                        (#[trigger] entries@[a]).0@,
                    ) != components((#[trigger] entries@[b]).0@) by {
                        assert(before[a] == entries@[a]);
                        if b < before.len() {
                            assert(before[b] == entries@[b]);
                        }
                    }
                    assert(entries@.drop_last() =~= before);
                }
            },
        }
        self.entries = entries;
    }
}

/// Giving an entry another port inserts it into the map.
proof fn lemma_update(before: Seq<(Vec<u8>, u16)>, after: Seq<(Vec<u8>, u16)>, i: int, port: u16)
    requires
        0 <= i < before.len(),
        after.len() == before.len(),
        paths_differ(before),
        components(after[i].0@) == components(before[i].0@),
        after[i].1 == port,
        forall|k: int| 0 <= k < before.len() && k != i ==> #[trigger] after[k] == before[k],
    ensures
        entries_map(after) == entries_map(before).insert(components(before[i].0@), port),
    decreases before.len(),
{
    let rest = before.drop_last();
    let rest_after = after.drop_last();
    if i == before.len() - 1 {
        assert(rest =~= rest_after);
        assert(entries_map(after) =~= entries_map(before).insert(components(before[i].0@), port));
    } else {
        assert forall|a: int, b: int| 0 <= a < b < rest.len() implies components(
            (#[trigger] rest[a]).0@,
        ) != components((#[trigger] rest[b]).0@) by {
            assert(rest[a] == before[a] && rest[b] == before[b]);
        }
        assert(rest[i] == before[i] && rest_after[i] == after[i]);
        assert forall|k: int| 0 <= k < rest.len() && k != i implies #[trigger] rest_after[k]
            == rest[k] by {
            assert(after[k] == before[k]);
        }
        lemma_update(rest, rest_after, i, port);
        assert(after.last() == before.last()) by {
            assert(after[before.len() - 1] == before[before.len() - 1]);
        }
        assert(components(before[i].0@) != components(before[before.len() - 1].0@));
        assert(entries_map(after) =~= entries_map(before).insert(components(before[i].0@), port));
    }
}

/// Bidirectional mapping between socket paths and fake ports.
pub struct AddrMap {
    path_to_addr: PathTable,
    addr_to_path: HashMap<u16, Vec<u8>>,
}

/// An [`AddrMap`] as two maps.
#[verifier::ext_equal]
pub struct AddrMapSpec {
    /// The ports of paths, however they are spelled.
    pub ports: Map<Components, u16>,
    /// The paths of ports, as they were spelled.
    pub paths: Map<u16, Seq<u8>>,
}

impl View for AddrMap {
    type V = AddrMapSpec;

    closed spec fn view(&self) -> AddrMapSpec {
        AddrMapSpec {
            ports: self.path_to_addr@,
            paths: self.addr_to_path@.map_values(|path: Vec<u8>| path@),
        }
    }
}

impl AddrMapSpec {
    /// Without paths.
    pub open spec fn empty() -> AddrMapSpec {
        AddrMapSpec { ports: Map::empty(), paths: Map::empty() }
    }

    /// With a path and its port added.
    pub open spec fn with(self, path: Seq<u8>, port: u16) -> AddrMapSpec {
        AddrMapSpec {
            ports: self.ports.insert(components(path), port),
            paths: self.paths.insert(port, path),
        }
    }

    /// Each direction of the mapping is the inverse of the other one.
    pub open spec fn is_bidirectional(self) -> bool {
        &&& forall|key: Components| #[trigger]
            self.ports.contains_key(key) ==> self.paths.contains_key(self.ports[key])
                && components(self.paths[self.ports[key]]) == key
        &&& forall|port: u16| #[trigger]
            self.paths.contains_key(port) ==> self.ports.contains_key(components(self.paths[port]))
                && self.ports[components(self.paths[port])] == port
    }
}

/// A copy of a path.
pub fn copy_path(path: &[u8]) -> (r: Vec<u8>)
    ensures
        r@ == path@,
{
    let mut r: Vec<u8> = Vec::new();
    r.extend_from_slice(path);
    assert(r@ =~= path@);
    r
}

impl AddrMap {
    /// Without paths.
    pub fn new() -> (r: Self)
        ensures
            r@ == AddrMapSpec::empty(),
    {
        let r = AddrMap { path_to_addr: PathTable::new(), addr_to_path: HashMap::new() };
        assert(r@.paths =~= Map::empty());
        r
    }

    /// Adds a path and its port.
    pub fn insert(&mut self, path: &[u8], port: u16)
        ensures
            final(self)@ == old(self)@.with(path@, port),
    {
        self.path_to_addr.insert(copy_path(path), port);
        self.addr_to_path.insert(port, copy_path(path));
        assert(self@.paths =~= old(self)@.paths.insert(port, path@));
    }

    /// The fake port of a path. A path that is new gets the next port.
    pub fn get_or_insert_addr(&mut self, path: &[u8], ports: &mut Counter) -> (port: u16)
        ensures
            if old(self)@.ports.contains_key(components(path@)) {
                &&& port == old(self)@.ports[components(path@)]
                &&& final(self)@ == old(self)@
                &&& *final(ports) == *old(ports)
            } else {
                &&& port == old(ports).next
                &&& final(self)@ == old(self)@.with(path@, port)
                &&& final(ports).next == Counter::after(port)
            },
    {
        match self.path_to_addr.get(path) {
            Some(port) => port,
            None => {
                let port: u16 = ports.take();
                self.insert(path, port);
                port
            },
        }
    }

    /// The path of a fake port.
    pub fn get_path(&self, port: u16) -> (r: Option<Vec<u8>>)
        ensures
            match r {
                Some(path) => self@.paths.contains_key(port) && path@ == self@.paths[port],
                None => !self@.paths.contains_key(port),
            },
    {
        match self.addr_to_path.get(&port) {
            Some(path) => Some(copy_path(path.as_slice())),
            None => None,
        }
    }
}

/// Repeated separators, one at the end, and a `.` between two separators make no difference.
pub proof fn law_spelling_makes_no_difference(a: Seq<u8>, b: Seq<u8>)
    ensures
        components(a + seq![SEPARATOR, SEPARATOR] + b) == components(a + seq![SEPARATOR] + b),
        components(a + seq![SEPARATOR, CURRENT_DIR, SEPARATOR] + b) == components(
            a + seq![SEPARATOR] + b,
        ),
        a.len() > 0 ==> components(a + seq![SEPARATOR]) == components(a),
{
    let n = a.len() as int;
    let plain = a + seq![SEPARATOR] + b;
    let twice = a + seq![SEPARATOR, SEPARATOR] + b;
    let dotted = a + seq![SEPARATOR, CURRENT_DIR, SEPARATOR] + b;
    let ended = a + seq![SEPARATOR];
    assert(plain.take(n) =~= a && twice.take(n) =~= a && dotted.take(n) =~= a && ended.take(n) =~= a);
    lemma_names_after(a, plain);
    lemma_names_after(a, twice);
    lemma_names_after(a, dotted);
    lemma_names_after(a, ended);
    assert(twice.skip(n + 2) =~= plain.skip(n + 1));
    lemma_same_tail(twice, n + 2, plain, n + 1);
    assert(names_from(twice, n + 1) == names_from(twice, n + 2)) by {
        if n + 2 >= twice.len() {
            assert(names_from(twice, n + 2) =~= Seq::empty());
        }
        assert(name_len(twice, n + 1) == 0);
    }
    assert(dotted.skip(n + 3) =~= plain.skip(n + 1));
    lemma_same_tail(dotted, n + 3, plain, n + 1);
    assert(names_from(dotted, n + 1) == names_from(dotted, n + 3)) by {
        assert(name_len(dotted, n + 2) == 0);
        assert(name_len(dotted, n + 1) == 1);
        assert(dotted.subrange(n + 1, n + 2) =~= seq![CURRENT_DIR]);
    }
    if n > 0 {
        assert(names_from(ended, n + 1) =~= Seq::empty());
        assert(names_from(a, 0) + names_from(ended, n + 1) =~= names_from(a, 0));
    }
}

/// A file in the directory of a path has the same names before its own as the path has before its
/// last one.
pub proof fn law_parent_has_the_names_before_the_last(path: Seq<u8>, name: Seq<u8>)
    requires
        components(path).names.len() > 0,
        name.len() > 0,
        name != seq![CURRENT_DIR],
        forall|k: int| 0 <= k < name.len() ==> name[k] != SEPARATOR,
    ensures
        parent(path) matches Some(dir) && components(joined(dir, name)) == (Components {
            root: components(path).root,
            names: components(path).names.drop_last().push(name),
        }),
{
    let ends = name_ends(path, 0);
    let names = names_from(path, 0);
    lemma_ends(path, 0);
    let dir = parent(path)->0;
    let file = joined(dir, name);
    if ends.len() > 1 {
        let n = ends[ends.len() - 2];
        lemma_names_after(dir, path);
        assert(names_from(path, n + 1) =~= seq![names.last()]);
        assert(names_from(dir, 0) =~= names.drop_last()) by {
            assert(names =~= names_from(dir, 0) + seq![names.last()]);
        }
        lemma_root_of(dir, path);
        if dir.last() == SEPARATOR {
            assert(path[n - 1] != SEPARATOR);
        }
        assert(file.take(n) =~= dir);
        lemma_names_after(dir, file);
        assert(file.skip(n + 1) =~= name);
        lemma_last_name(file, n + 1, name);
        lemma_root_of(dir, file);
        assert(components(file).names =~= names.drop_last().push(name));
    } else if path[0] == SEPARATOR {
        assert(file.skip(1) =~= name);
        assert(file[0] == SEPARATOR);
        assert(name_len(file, 0) == 0);
        lemma_last_name(file, 1, name);
        assert(names.drop_last() =~= Seq::empty());
        assert(names_from(file, 0) =~= seq![name]);
        assert(components(file).names =~= names.drop_last().push(name));
    } else {
        assert(file =~= name);
        assert(file.skip(0) =~= name);
        lemma_last_name(file, 0, name);
        assert(names.drop_last() =~= Seq::empty());
        assert(components(file).names =~= names.drop_last().push(name));
    }
}

/// A path and the start of it both begin at the root, or neither does.
proof fn lemma_root_of(start: Seq<u8>, path: Seq<u8>)
    requires
        0 < start.len() <= path.len(),
        path.take(start.len() as int) == start,
    ensures
        components(start).root == components(path).root,
{
    assert(path.take(start.len() as int)[0] == path[0]);
}

/// If a path ends with a name, that is the only name there.
proof fn lemma_last_name(path: Seq<u8>, i: int, name: Seq<u8>)
    requires
        0 <= i < path.len(),
        path.skip(i) == name,
        name != seq![CURRENT_DIR],
        forall|k: int| 0 <= k < name.len() ==> name[k] != SEPARATOR,
    ensures
        names_from(path, i) == seq![name],
{
    assert forall|k: int| i <= k < path.len() implies path[k] != SEPARATOR by {
        assert(path[k] == path.skip(i)[k - i]);
    }
    lemma_name_to_end(path, i);
    assert(path.subrange(i, path.len() as int) =~= name);
    assert(seq![name] + Seq::<Seq<u8>>::empty() =~= seq![name]);
}

proof fn lemma_name_to_end(path: Seq<u8>, i: int)
    requires
        0 <= i <= path.len(),
        forall|k: int| i <= k < path.len() ==> path[k] != SEPARATOR,
    ensures
        i + name_len(path, i) == path.len(),
    decreases path.len() - i,
{
    if i < path.len() {
        lemma_name_to_end(path, i + 1);
    }
}

/// There is an end for each name, in the same order. A name that is not the last one ends at a
/// separator, after which the other names come.
proof fn lemma_ends(path: Seq<u8>, i: int)
    requires
        0 <= i,
    ensures
        name_ends(path, i).len() == names_from(path, i).len(),
        forall|k: int|
            0 <= k < name_ends(path, i).len() ==> {
                &&& i < #[trigger] name_ends(path, i)[k] <= path.len()
                &&& path[name_ends(path, i)[k] - 1] != SEPARATOR
                &&& k < name_ends(path, i).len() - 1 ==> {
                    &&& name_ends(path, i)[k] < path.len()
                    &&& path[name_ends(path, i)[k]] == SEPARATOR
                    &&& names_from(path, name_ends(path, i)[k] + 1) == names_from(path, i).skip(
                        k + 1,
                    )
                }
            },
    decreases path.len() - i,
{
    if i < path.len() {
        lemma_name_stops(path, i);
        let end = i + name_len(path, i);
        let ends = name_ends(path, i);
        let names = names_from(path, i);
        if end < path.len() {
            lemma_ends(path, end + 1);
            let rest = name_ends(path, end + 1);
            let rest_names = names_from(path, end + 1);
            if !is_void(path.subrange(i, end), i) {
                assert(names.skip(1) =~= rest_names);
                assert forall|k: int| 0 <= k < ends.len() implies {
                    &&& i < #[trigger] ends[k] <= path.len()
                    &&& path[ends[k] - 1] != SEPARATOR
                    &&& k < ends.len() - 1 ==> {
                        &&& ends[k] < path.len()
                        &&& path[ends[k]] == SEPARATOR
                        &&& names_from(path, ends[k] + 1) == names.skip(k + 1)
                    }
                } by {
                    if k > 0 {
                        assert(ends[k] == rest[k - 1]);
                        assert(rest_names.skip(k) =~= names.skip(k + 1));
                    }
                }
            }
        }
    }
}

/// A name ends at the end of the path or at a separator, and there is none in it.
proof fn lemma_name_stops(path: Seq<u8>, i: int)
    requires
        0 <= i <= path.len(),
    ensures
        i + name_len(path, i) <= path.len(),
        i + name_len(path, i) < path.len() ==> path[i + name_len(path, i)] == SEPARATOR,
        forall|k: int| i <= k < i + name_len(path, i) ==> path[k] != SEPARATOR,
    decreases path.len() - i,
{
    if i < path.len() && path[i] != SEPARATOR {
        lemma_name_stops(path, i + 1);
    }
}

/// A path that goes on after a separator has the names before it and those after it.
proof fn lemma_names_after(a: Seq<u8>, path: Seq<u8>)
    requires
        a.len() < path.len(),
        path.take(a.len() as int) == a,
        path[a.len() as int] == SEPARATOR,
    ensures
        names_from(path, 0) == names_from(a, 0) + names_from(path, a.len() as int + 1),
{
    lemma_names_after_from(a, path, 0);
}

proof fn lemma_names_after_from(a: Seq<u8>, path: Seq<u8>, i: int)
    requires
        0 <= i <= a.len(),
        a.len() < path.len(),
        path.take(a.len() as int) == a,
        path[a.len() as int] == SEPARATOR,
    ensures
        names_from(path, i) == names_from(a, i) + names_from(path, a.len() as int + 1),
    decreases a.len() - i,
{
    lemma_name_len_in(a, path, i);
    let end = i + name_len(a, i);
    if i == a.len() {
        assert(names_from(a, i) =~= Seq::empty());
        assert(names_from(path, i) =~= names_from(path, a.len() as int + 1));
        assert(names_from(a, i) + names_from(path, a.len() as int + 1) =~= names_from(path, a.len() as int + 1));
    } else {
        assert(path.subrange(i, end) =~= a.subrange(i, end));
        if end < a.len() {
            lemma_names_after_from(a, path, end + 1);
        }
        assert(names_from(path, i) =~= names_from(a, i) + names_from(path, a.len() as int + 1));
    }
}

proof fn lemma_name_len_in(a: Seq<u8>, path: Seq<u8>, i: int)
    requires
        0 <= i <= a.len(),
        a.len() < path.len(),
        path.take(a.len() as int) == a,
        path[a.len() as int] == SEPARATOR,
    ensures
        name_len(path, i) == name_len(a, i),
        i + name_len(a, i) <= a.len(),
    decreases a.len() - i,
{
    if i < a.len() {
        assert(path[i] == path.take(a.len() as int)[i]);
        lemma_name_len_in(a, path, i + 1);
    }
}

/// Two paths that are the same from two positions on have the same names there.
proof fn lemma_same_tail(p: Seq<u8>, i: int, q: Seq<u8>, j: int)
    requires
        0 < i <= p.len(),
        0 < j <= q.len(),
        p.skip(i) == q.skip(j),
    ensures
        names_from(p, i) == names_from(q, j),
    decreases p.len() - i,
{
    assert(p.len() - i == q.len() - j) by {
        assert(p.skip(i).len() == p.len() - i && q.skip(j).len() == q.len() - j);
    }
    if i < p.len() {
        lemma_same_name_len(p, i, q, j);
        let n = name_len(p, i) as int;
        assert(p.subrange(i, i + n) =~= p.skip(i).take(n));
        assert(q.subrange(j, j + n) =~= q.skip(j).take(n));
        if i + n < p.len() {
            assert(p.skip(i + n + 1) =~= p.skip(i).skip(n + 1));
            assert(q.skip(j + n + 1) =~= q.skip(j).skip(n + 1));
            lemma_same_tail(p, i + n + 1, q, j + n + 1);
        }
    }
}

proof fn lemma_same_name_len(p: Seq<u8>, i: int, q: Seq<u8>, j: int)
    requires
        0 <= i <= p.len(),
        0 <= j <= q.len(),
        p.skip(i) == q.skip(j),
    ensures
        name_len(p, i) == name_len(q, j),
        i + name_len(p, i) <= p.len(),
    decreases p.len() - i,
{
    assert(p.skip(i).len() == p.len() - i && q.skip(j).len() == q.len() - j);
    if i < p.len() {
        assert(p[i] == p.skip(i)[0]);
        assert(q[j] == q.skip(j)[0]);
        assert(p.skip(i + 1) =~= p.skip(i).skip(1));
        assert(q.skip(j + 1) =~= q.skip(j).skip(1));
        lemma_same_name_len(p, i + 1, q, j + 1);
    }
}

/// A mapping stays bidirectional when a new path gets a port that is not in use.
pub proof fn law_mapping_stays_bidirectional(map: AddrMapSpec, path: Seq<u8>, port: u16)
    requires
        map.is_bidirectional(),
        !map.ports.contains_key(components(path)),
        !map.paths.contains_key(port),
    ensures
        map.with(path, port).is_bidirectional(),
{
    let next = map.with(path, port);
    assert forall|key: Components| #[trigger] next.ports.contains_key(
        key,
    ) implies next.paths.contains_key(next.ports[key]) && components(next.paths[next.ports[key]])
        == key by {
        if key != components(path) {
            assert(map.ports.contains_key(key));
        }
    }
    assert forall|q: u16| #[trigger] next.paths.contains_key(q) implies next.ports.contains_key(
        components(next.paths[q]),
    ) && next.ports[components(next.paths[q])] == q by {
        if q != port {
            assert(map.paths.contains_key(q));
        }
    }
}

/// What was added last can be found in both directions.
pub proof fn law_added_path_is_found(map: AddrMapSpec, path: Seq<u8>, port: u16)
    ensures
        map.with(path, port).ports.contains_key(components(path)),
        map.with(path, port).ports[components(path)] == port,
        map.with(path, port).paths.contains_key(port),
        map.with(path, port).paths[port] == path,
{
}

/// A counter gives out different numbers, until it has given out all of them.
pub proof fn law_counter_numbers_differ(start: u16, i: nat, j: nat)
    requires
        i < j < 0x1_0000,
    ensures
        nth_number(start, i) != nth_number(start, j),
{
    lemma_nth_number(start, i);
    lemma_nth_number(start, j);
}

/// The number that a counter gives out after `i` others.
pub open spec fn nth_number(start: u16, i: nat) -> u16
    decreases i,
{
    if i == 0 {
        start
    } else {
        Counter::after(nth_number(start, (i - 1) as nat))
    }
}

proof fn lemma_nth_number(start: u16, i: nat)
    ensures
        nth_number(start, i) as int == (start + i) % 0x1_0000,
    decreases i,
{
    if i > 0 {
        lemma_nth_number(start, (i - 1) as nat);
        let before = start + i - 1;
        assert((before + 1) % 0x1_0000 == if before % 0x1_0000 == 0xffff {
            0
        } else {
            before % 0x1_0000 + 1
        });
    }
}

/// A name in a directory adds itself to the names of the directory, and nothing else: two paths are
/// the same only if they have the same names.
pub proof fn law_joined_adds_a_name(dir: Seq<u8>, name: Seq<u8>)
    requires
        name.len() > 0,
        name != seq![CURRENT_DIR],
        forall|k: int| 0 <= k < name.len() ==> name[k] != SEPARATOR,
    ensures
        components(joined(dir, name)).names == components(dir).names.push(name),
        components(joined(dir, name)).root == components(dir).root,
{
    let file = joined(dir, name);
    let n = dir.len() as int;
    if n == 0 {
        assert(file =~= name);
        assert(file.skip(0) =~= name);
        lemma_last_name(file, 0, name);
        assert(components(dir).names =~= Seq::empty());
        assert(components(file).names =~= components(dir).names.push(name));
    } else if dir.last() == SEPARATOR {
        let a = dir.drop_last();
        assert(dir.take(n - 1) =~= a);
        assert(file.take(n - 1) =~= a);
        lemma_names_after(a, dir);
        lemma_names_after(a, file);
        assert(names_from(dir, n) =~= Seq::empty());
        assert(file.skip(n) =~= name);
        lemma_last_name(file, n, name);
        assert(components(file).names =~= components(dir).names.push(name));
        assert(file[0] == dir[0]);
    } else {
        assert(file.take(n) =~= dir);
        lemma_names_after(dir, file);
        assert(file.skip(n + 1) =~= name);
        lemma_last_name(file, n + 1, name);
        assert(components(file).names =~= components(dir).names.push(name));
        lemma_root_of(dir, file);
    }
}

/// A path starts at the root exactly if it starts with a separator. No name on it is empty or has a
/// separator in it, and the current directory is only ever its first name.
pub proof fn law_names_are_plain(path: Seq<u8>)
    ensures
        components(path).root <==> path.len() > 0 && path[0] == 47,
        forall|k: int|
            0 <= k < components(path).names.len() ==> {
                let name = #[trigger] components(path).names[k];
                &&& name.len() > 0
                &&& forall|j: int| 0 <= j < name.len() ==> name[j] != 47
                &&& name == seq![46u8] ==> k == 0 && path[0] == 46
            },
        path.len() == 0 ==> components(path).names.len() == 0,
{
    lemma_names_are_plain(path, 0);
}

proof fn lemma_names_are_plain(path: Seq<u8>, i: int)
    requires
        0 <= i,
    ensures
        forall|k: int|
            0 <= k < names_from(path, i).len() ==> {
                let name = #[trigger] names_from(path, i)[k];
                &&& name.len() > 0
                &&& forall|j: int| 0 <= j < name.len() ==> name[j] != SEPARATOR
                &&& name == seq![CURRENT_DIR] ==> k == 0 && i == 0 && path[0] == CURRENT_DIR
            },
    decreases path.len() - i,
{
    if i < path.len() {
        lemma_name_stops(path, i);
        let end = i + name_len(path, i);
        let name = path.subrange(i, end);
        let names = names_from(path, i);
        if end < path.len() {
            lemma_names_are_plain(path, end + 1);
        }
        let rest = if end < path.len() {
            names_from(path, end + 1)
        } else {
            Seq::empty()
        };
        assert forall|k: int| 0 <= k < names.len() implies {
            let name = #[trigger] names[k];
            &&& name.len() > 0
            &&& forall|j: int| 0 <= j < name.len() ==> name[j] != SEPARATOR
            &&& name == seq![CURRENT_DIR] ==> k == 0 && i == 0 && path[0] == CURRENT_DIR
        } by {
            if is_void(name, i) {
                assert(names[k] == rest[k]);
            } else if k > 0 {
                assert(names[k] == rest[k - 1]);
            } else {
                assert(names[0] == name);
                if name == seq![CURRENT_DIR] {
                    assert(name[0] == path[i]);
                    assert(name[0] == CURRENT_DIR);
                }
            }
        }
    }
}

/// A relative path may start with the current directory, and that makes a difference.
pub proof fn law_leading_current_dir(rest: Seq<u8>)
    ensures
        ({
            let path = seq![46u8, 47u8] + rest;
            &&& !components(path).root
            &&& components(path).names.len() > 0
            &&& components(path).names[0] == seq![46u8]
        }),
{
    let path = seq![CURRENT_DIR, SEPARATOR] + rest;
    assert(name_len(path, 1) == 0);
    assert(name_len(path, 0) == 1);
    assert(path.subrange(0, 1) =~= seq![CURRENT_DIR]);
    assert(names_from(path, 0)[0] =~= seq![CURRENT_DIR]);
}

/// Exactly the paths without names have no directory. The directory of a path is the start of it.
pub proof fn law_parent(path: Seq<u8>)
    ensures
        parent(path) is None <==> components(path).names.len() == 0,
        parent(path) matches Some(dir) ==> dir.len() <= path.len() && path.take(dir.len() as int) == dir,
{
    lemma_ends(path, 0);
    let ends = name_ends(path, 0);
    if let Some(dir) = parent(path) {
        if ends.len() > 1 {
            let n = ends[ends.len() - 2];
            assert(path.take(n).len() == n);
        } else {
            let last = ends[0];
            assert(0 < last <= path.len());
        }
        assert(path.take(dir.len() as int) =~= dir);
    }
}

/// Adding a path changes what is known of that path and of its port, and of no other.
pub proof fn law_adding_changes_nothing_else(
    map: AddrMapSpec,
    path: Seq<u8>,
    port: u16,
    other: Seq<u8>,
    other_port: u16,
)
    ensures
        components(other) != components(path) ==> {
            &&& map.with(path, port).ports.contains_key(components(other)) == map.ports.contains_key(
                components(other),
            )
            &&& map.with(path, port).ports[components(other)] == map.ports[components(other)]
        },
        other_port != port ==> {
            &&& map.with(path, port).paths.contains_key(other_port) == map.paths.contains_key(
                other_port,
            )
            &&& map.with(path, port).paths[other_port] == map.paths[other_port]
        },
        !AddrMapSpec::empty().ports.contains_key(components(path)),
        !AddrMapSpec::empty().paths.contains_key(port),
{
}

/// A mapping is bidirectional exactly if looking up in both directions, one after the other, leads back
/// to where it began.
pub proof fn law_bidirectional_lookups(map: AddrMapSpec, key: Components, port: u16)
    requires
        map.is_bidirectional(),
    ensures
        map.ports.contains_key(key) ==> map.paths.contains_key(map.ports[key]) && components(
            map.paths[map.ports[key]],
        ) == key,
        map.paths.contains_key(port) ==> map.ports.contains_key(components(map.paths[port]))
            && map.ports[components(map.paths[port])] == port,
{
}

/// A counter counts up by one, and begins again at zero after the largest number.
pub proof fn law_counter_counts(start: u16, i: nat)
    ensures
        nth_number(start, i) as int == (start + i) % 0x1_0000,
        Counter::after(start) as int == (start + 1) % 0x1_0000,
{
    lemma_nth_number(start, i);
}

} // verus!
