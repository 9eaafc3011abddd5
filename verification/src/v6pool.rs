//! The pool of IPv6 addresses handed out to machines, each tied to one domain.

use vstd::prelude::*;
use crate::ipv6::{Ipv6Address, ipv6_text, ipv6_parse, ipv6_to_string, ipv6_from_str};
use crate::config::{HustoaVmConfig, Ipv6Config};
use crate::text::{nonempty_lines, nonempty_lines_of, push_str};
use crate::tools::{CommandLine, commands_view, lemma_commands_view_push};

verus! {

/// One address of the pool and the libvirt domain that uses it.
#[derive(Debug, Clone)]
pub struct V6PoolItem {
    pub addr: Ipv6Address,
    pub domain: String,
}

impl View for V6PoolItem {
    type V = (Seq<u16>, Seq<char>);

    open spec fn view(&self) -> (Seq<u16>, Seq<char>) {
        (self.addr@, self.domain@)
    }
}

impl V6PoolItem {
    /// A copy of the entry.
    pub fn duplicate(&self) -> (r: V6PoolItem)
        ensures
            r == *self,
    {
        V6PoolItem { addr: self.addr, domain: self.domain.clone() }
    }
}

impl PartialEq for V6PoolItem {
    fn eq(&self, other: &Self) -> (r: bool) {
        self.addr.same_as(&other.addr) && self.domain == other.domain
    }
}

impl vstd::std_specs::cmp::PartialEqSpecImpl for V6PoolItem {
    open spec fn obeys_eq_spec() -> bool {
        true
    }

    open spec fn eq_spec(&self, other: &Self) -> bool {
        self.addr@ == other.addr@ && self.domain@ == other.domain@
    }
}

/// The pool: its entries, in the order they were added.
#[derive(Debug, Clone)]
pub struct V6Pool {
    pub pool: Vec<V6PoolItem>,
}

/// Entries of a pool as (address segments, domain) pairs.
pub type PoolView = Seq<(Seq<u16>, Seq<char>)>;

pub open spec fn items_view(v: Seq<V6PoolItem>) -> PoolView {
    v.map_values(|x: V6PoolItem| x@)
}

impl View for V6Pool {
    type V = PoolView;

    open spec fn view(&self) -> PoolView {
        items_view(self.pool@)
    }
}

/// Why an address could not join the pool.
#[derive(Clone, Copy, Debug, PartialEq, Eq, Structural)]
pub enum PoolError {
    /// The address is already held by another domain.
    SameAddrDifferentDomain,
    /// The domain already holds another address.
    SameDomainDifferentAddr,
}

/// The conflict that the first entry from index `i` on that shares the address
/// or the domain stands for, if any.
pub open spec fn conflict_from(p: PoolView, a: Seq<u16>, d: Seq<char>, i: int) -> Option<PoolError>
    decreases p.len() - i,
{
    if i < 0 || i >= p.len() {
        None
    } else if p[i].0 == a {
        Some(PoolError::SameAddrDifferentDomain)
    } else if p[i].1 == d {
        Some(PoolError::SameDomainDifferentAddr)
    } else {
        conflict_from(p, a, d, i + 1)
    }
}

/// What inserting the pair `(a, d)` does to a pool: nothing where the pair is
/// already there; a refusal, naming the first conflicting entry's kind, where
/// another entry shares the address or the domain; else the pair is appended.
pub open spec fn pool_insert(p: PoolView, a: Seq<u16>, d: Seq<char>) -> (PoolView, Result<(), PoolError>) {
    if p.contains((a, d)) {
        (p, Ok(()))
    } else {
        match conflict_from(p, a, d, 0) {
            Some(e) => (p, Err(e)),
            None => (p.push((a, d)), Ok(())),
        }
    }
}

/// No two entries share an address, and no two share a domain.
pub open spec fn unique_entries(p: PoolView) -> bool {
    forall|i: int, j: int|
        0 <= i < p.len() && 0 <= j < p.len() && i != j ==> p[i].0 != p[j].0 && p[i].1 != p[j].1
}

pub proof fn lemma_conflict_from_none(p: PoolView, a: Seq<u16>, d: Seq<char>, i: int)
    requires
        0 <= i <= p.len(),
    ensures
        conflict_from(p, a, d, i) is None <==> (forall|j: int|
            i <= j < p.len() ==> p[j].0 != a && p[j].1 != d),
    decreases p.len() - i,
{
    if i < p.len() {
        lemma_conflict_from_none(p, a, d, i + 1);
    }
}

pub proof fn lemma_items_view_push(v: Seq<V6PoolItem>, x: V6PoolItem)
    ensures
        items_view(v.push(x)) == items_view(v).push(x@),
{
    assert(items_view(v.push(x)) =~= items_view(v).push(x@));
}

/// The entries of `p` whose address is not `a`.
pub open spec fn without_addr(p: PoolView, a: Seq<u16>) -> PoolView {
    p.filter(addr_differs(a))
}

pub open spec fn addr_differs(a: Seq<u16>) -> spec_fn((Seq<u16>, Seq<char>)) -> bool {
    |e: (Seq<u16>, Seq<char>)| e.0 != a
}

pub open spec fn domain_differs(d: Seq<char>) -> spec_fn((Seq<u16>, Seq<char>)) -> bool {
    |e: (Seq<u16>, Seq<char>)| e.1 != d
}

/// The entries of `p` whose domain is not `d`.
pub open spec fn without_domain(p: PoolView, d: Seq<char>) -> PoolView {
    p.filter(domain_differs(d))
}

/// The entries of `p` whose domain is one of `names`.
pub open spec fn only_domains(p: PoolView, names: Seq<Seq<char>>) -> PoolView {
    p.filter(|e: (Seq<u16>, Seq<char>)| names.contains(e.1))
}

impl V6Pool {
    /// An empty pool.
    pub fn new() -> (r: V6Pool)
        ensures
            r@ == Seq::<(Seq<u16>, Seq<char>)>::empty(),
    {
        let r = V6Pool { pool: Vec::new() };
        assert(r@ =~= Seq::<(Seq<u16>, Seq<char>)>::empty());
        r
    }

    /// Adds `addr` for `domain`. An entry that is already there is accepted
    /// as it is; an address held by another domain, or a domain holding another
    /// address, is refused and the pool left unchanged.
    pub fn insert(&mut self, addr: &Ipv6Address, domain: &String) -> (r: Result<(), PoolError>)
        ensures
            (final(self)@, r) == pool_insert(old(self)@, addr@, domain@),
            unique_entries(old(self)@) ==> unique_entries(final(self)@),
    {
        let ghost p = self@;
        let n = self.pool.len();
        let mut i: usize = 0;
        while i < n
            invariant
                n == self.pool.len(),
                p == self@,
                i <= n,
                forall|j: int| 0 <= j < i ==> p[j] != (addr@, domain@),
            decreases n - i,
        {
            if self.pool[i].addr.same_as(addr) && self.pool[i].domain == *domain {
                assert(p[i as int] == (addr@, domain@));
                return Ok(());
            }
            i = i + 1;
        }
        assert(!p.contains((addr@, domain@)));
        let mut k: usize = 0;
        while k < n
            invariant
                n == self.pool.len(),
                p == self@,
                k <= n,
                p == old(self)@,
                !p.contains((addr@, domain@)),
                conflict_from(p, addr@, domain@, 0) == conflict_from(p, addr@, domain@, k as int),
            decreases n - k,
        {
            assert(p[k as int] == self.pool@[k as int]@);
            if self.pool[k].addr.same_as(addr) {
                return Err(PoolError::SameAddrDifferentDomain);
            }
            if self.pool[k].domain == *domain {
                return Err(PoolError::SameDomainDifferentAddr);
            }
            k = k + 1;
        }
        proof {
            lemma_conflict_from_none(p, addr@, domain@, 0);
        }
        let item = V6PoolItem { addr: *addr, domain: domain.clone() };
        self.pool.push(item);
        proof {
            lemma_items_view_push(old(self).pool@, item);
        }
        Ok(())
    }

    /// Removes every entry with address `addr`, keeping the others in order.
    pub fn remove_by_addr(&mut self, addr: &Ipv6Address)
        ensures
            final(self)@ == without_addr(old(self)@, addr@),
    {
        let ghost p = self@;
        let ghost pred = addr_differs(addr@);
        let n = self.pool.len();
        let mut kept: Vec<V6PoolItem> = Vec::new();
        let mut i: usize = 0;
        proof {
            reveal(Seq::filter);
            assert(p.take(0) =~= Seq::<(Seq<u16>, Seq<char>)>::empty());
            assert(items_view(kept@) =~= p.take(0).filter(pred));
        }
        while i < n
            invariant
                n == self.pool.len(),
                p == self@,
                i <= n,
                pred == addr_differs(addr@),
                items_view(kept@) == p.take(i as int).filter(pred),
            decreases n - i,
        {
            let ghost before = kept@;
            proof {
                assert(p.take(i + 1) =~= p.take(i as int).push(p[i as int]));
                crate::text::lemma_filter_push(p.take(i as int), p[i as int], pred);
            }
            if !self.pool[i].addr.same_as(addr) {
                let item = self.pool[i].duplicate();
                kept.push(item);
                proof {
                    lemma_items_view_push(before, item);
                }
            }
            i = i + 1;
        }
        proof {
            assert(p.take(n as int) =~= p);
        }
        self.pool = kept;
    }

    /// Removes every entry of domain `name`, keeping the others in order.
    pub fn remove_by_name(&mut self, name: &String)
        ensures
            final(self)@ == without_domain(old(self)@, name@),
    {
        let ghost p = self@;
        let ghost pred = domain_differs(name@);
        let n = self.pool.len();
        let mut kept: Vec<V6PoolItem> = Vec::new();
        let mut i: usize = 0;
        proof {
            reveal(Seq::filter);
            assert(p.take(0) =~= Seq::<(Seq<u16>, Seq<char>)>::empty());
            assert(items_view(kept@) =~= p.take(0).filter(pred));
        }
        while i < n
            invariant
                n == self.pool.len(),
                p == self@,
                i <= n,
                pred == domain_differs(name@),
                items_view(kept@) == p.take(i as int).filter(pred),
            decreases n - i,
        {
            let ghost before = kept@;
            proof {
                assert(p.take(i + 1) =~= p.take(i as int).push(p[i as int]));
                crate::text::lemma_filter_push(p.take(i as int), p[i as int], pred);
            }
            if self.pool[i].domain != *name {
                let item = self.pool[i].duplicate();
                kept.push(item);
                proof {
                    lemma_items_view_push(before, item);
                }
            }
            i = i + 1;
        }
        proof {
            assert(p.take(n as int) =~= p);
        }
        self.pool = kept;
    }

    /// Keeps only the entries whose domain is one of `vms`, keeping their
    /// order, and returns the entries it removed, in order.
    pub fn purge(&mut self, vms: &Vec<String>) -> (removed: Vec<V6PoolItem>)
        ensures
            final(self)@ == only_domains(old(self)@, vms.deep_view()),
            items_view(removed@) == old(self)@.filter(
                |e: (Seq<u16>, Seq<char>)| !vms.deep_view().contains(e.1),
            ),
    {
        let ghost p = self@;
        let ghost names = vms.deep_view();
        let ghost keep = |e: (Seq<u16>, Seq<char>)| names.contains(e.1);
        let ghost drop = |e: (Seq<u16>, Seq<char>)| !names.contains(e.1);
        let n = self.pool.len();
        let mut kept: Vec<V6PoolItem> = Vec::new();
        let mut removed: Vec<V6PoolItem> = Vec::new();
        let mut i: usize = 0;
        proof {
            reveal(Seq::filter);
            assert(p.take(0) =~= Seq::<(Seq<u16>, Seq<char>)>::empty());
            assert(items_view(kept@) =~= p.take(0).filter(keep));
            assert(items_view(removed@) =~= p.take(0).filter(drop));
        }
        while i < n
            invariant
                n == self.pool.len(),
                p == self@,
                names == vms.deep_view(),
                i <= n,
                keep == (|e: (Seq<u16>, Seq<char>)| names.contains(e.1)),
                drop == (|e: (Seq<u16>, Seq<char>)| !names.contains(e.1)),
                items_view(kept@) == p.take(i as int).filter(keep),
                items_view(removed@) == p.take(i as int).filter(drop),
            decreases n - i,
        {
            let ghost kept_before = kept@;
            let ghost removed_before = removed@;
            proof {
                assert(p.take(i + 1) =~= p.take(i as int).push(p[i as int]));
                crate::text::lemma_filter_push(p.take(i as int), p[i as int], keep);
                crate::text::lemma_filter_push(p.take(i as int), p[i as int], drop);
            }
            let mut found = false;
            let mut j: usize = 0;
            while j < vms.len()
                invariant
                    names == vms.deep_view(),
                    j <= vms.len(),
                    i < n,
                    n == self.pool.len(),
                    found == (exists|k: int| 0 <= k < j && names[k] == self.pool@[i as int].domain@),
                decreases vms.len() - j,
            {
                assert(names[j as int] == vms@[j as int]@);
                if vms[j] == self.pool[i].domain {
                    found = true;
                }
                j = j + 1;
            }
            assert(found == names.contains(p[i as int].1));
            let item = self.pool[i].duplicate();
            if found {
                kept.push(item);
                proof {
                    lemma_items_view_push(kept_before, item);
                }
            } else {
                removed.push(item);
                proof {
                    lemma_items_view_push(removed_before, item);
                }
            }
            i = i + 1;
        }
        proof {
            assert(p.take(n as int) =~= p);
        }
        self.pool = kept;
        removed
    }

    /// Commands that re-create the routing of every address: for each entry in
    /// order, its neighbour-proxy and route entries are deleted, then added.
    /// Nothing is to be run where the configuration has no IPv6 section.
    pub fn flush(&self, config: &HustoaVmConfig) -> (r: Vec<CommandLine>)
        ensures
            commands_view(r@) == (match config.ipv6conf {
                Some(c) => flush_commands(self@, c.wan_interface@, c.libvirt_interface_v6@),
                None => Seq::empty(),
            }),
    {
        let mut cmds: Vec<CommandLine> = Vec::new();
        match &config.ipv6conf {
            None => {
                assert(commands_view(cmds@) =~= Seq::<(Seq<char>, Seq<Seq<char>>)>::empty());
            },
            Some(ipv6conf) => {
                let ghost p = self@;
                let n = self.pool.len();
                let mut i: usize = 0;
                assert(commands_view(cmds@) =~= Seq::<(Seq<char>, Seq<Seq<char>>)>::empty());
                assert(p.take(0) =~= Seq::<(Seq<u16>, Seq<char>)>::empty());
                while i < n
                    invariant
                        n == self.pool.len(),
                        p == self@,
                        i <= n,
                        commands_view(cmds@) == flush_commands(
                            p.take(i as int),
                            ipv6conf.wan_interface@,
                            ipv6conf.libvirt_interface_v6@,
                        ),
                    decreases n - i,
                {
                    let del = ip_command_mod_one(ipv6conf, &self.pool[i].addr, false);
                    let add = ip_command_mod_one(ipv6conf, &self.pool[i].addr, true);
                    let ghost before = cmds@;
                    append_commands(&mut cmds, del);
                    append_commands(&mut cmds, add);
                    proof {
                        assert(p.take(i + 1).drop_last() =~= p.take(i as int));
                        assert(p.take(i + 1).last() == p[i as int]);
                        assert(commands_view(cmds@) =~= flush_commands(
                            p.take(i + 1),
                            ipv6conf.wan_interface@,
                            ipv6conf.libvirt_interface_v6@,
                        ));
                    }
                    i = i + 1;
                }
                assert(p.take(n as int) =~= p);
            },
        }
        cmds
    }

    /// Takes over the addresses listed one per line in the old list file: each
    /// non-empty line that reads as an address is inserted for the domain
    /// `unknwon-<address>`. Returns how many insertions were accepted.
    pub fn migrate_lines(&mut self, text: &str) -> (count: usize)
        ensures
            (final(self)@, count as nat) == migrate_spec(old(self)@, nonempty_lines(text@)),
    {
        let lines = nonempty_lines_of(text);
        let ghost ls = nonempty_lines(text@);
        let mut count: usize = 0;
        let mut i: usize = 0;
        assert(ls.take(0) =~= Seq::<Seq<char>>::empty());
        while i < lines.len()
            invariant
                lines.deep_view() == ls,
                i <= lines.len(),
                count <= i,
                (self@, count as nat) == migrate_spec(old(self)@, ls.take(i as int)),
            decreases lines.len() - i,
        {
            proof {
                assert(ls.take(i + 1).drop_last() =~= ls.take(i as int));
                assert(ls.take(i + 1).last() == lines@[i as int]@);
            }
            match ipv6_from_str(lines[i].as_str()) {
                None => {},
                Some(addr) => {
                    let mut domain = String::from_str("unknwon-");
                    let text = ipv6_to_string(&addr);
                    push_str(&mut domain, text.as_str());
                    if self.insert(&addr, &domain).is_ok() {
                        count = count + 1;
                    }
                },
            }
            i = i + 1;
        }
        assert(ls.take(lines.len() as int) =~= ls);
        count
    }
}

/// The action word of `ip` for adding or deleting.
pub open spec fn ip_action(is_add: bool) -> Seq<char> {
    if is_add {
        "add"@
    } else {
        "del"@
    }
}

/// The two `ip -6` commands that add or delete the neighbour proxy of an
/// address on the outbound interface and its route on the IPv6 bridge.
pub open spec fn ip_commands(wan: Seq<char>, v6if: Seq<char>, addr_text: Seq<char>, is_add: bool) -> Seq<
    (Seq<char>, Seq<Seq<char>>),
> {
    seq![
        ("ip"@, seq!["-6"@, "neigh"@, ip_action(is_add), "proxy"@, addr_text, "dev"@, wan]),
        ("ip"@, seq!["-6"@, "route"@, ip_action(is_add), addr_text, "dev"@, v6if]),
    ]
}

/// For each entry in order: its delete commands, then its add commands.
pub open spec fn flush_commands(p: PoolView, wan: Seq<char>, v6if: Seq<char>) -> Seq<
    (Seq<char>, Seq<Seq<char>>),
>
    decreases p.len(),
{
    if p.len() == 0 {
        Seq::empty()
    } else {
        let t = ipv6_text(p.last().0);
        flush_commands(p.drop_last(), wan, v6if) + ip_commands(wan, v6if, t, false) + ip_commands(
            wan,
            v6if,
            t,
            true,
        )
    }
}

/// What taking over a list of old lines does: lines that read as addresses
/// are inserted in order for `unknwon-<address>`, and accepted ones counted.
pub open spec fn migrate_spec(p: PoolView, lines: Seq<Seq<char>>) -> (PoolView, nat)
    decreases lines.len(),
{
    if lines.len() == 0 {
        (p, 0)
    } else {
        let (q, c) = migrate_spec(p, lines.drop_last());
        match ipv6_parse(lines.last()) {
            None => (q, c),
            Some(a) => {
                let (q2, r) = pool_insert(q, a, "unknwon-"@ + ipv6_text(a));
                (q2, if r is Ok { c + 1 } else { c })
            },
        }
    }
}

/// Appends `more` to `cmds`.
fn append_commands(cmds: &mut Vec<CommandLine>, more: Vec<CommandLine>)
    ensures
        commands_view(final(cmds)@) == commands_view(old(cmds)@) + commands_view(more@),
{
    let mut more = more;
    let ghost m = more@;
    let mut rest: Vec<CommandLine> = Vec::new();
    // move the commands over in order
    let n = more.len();
    let mut i: usize = 0;
    while i < n
        invariant
            n == m.len(),
            i <= n,
            more@ == m.subrange(0, (n - i) as int),
            rest@ == m.subrange((n - i) as int, n as int).reverse(),
        decreases n - i,
    {
        let c = more.pop().unwrap();
        rest.push(c);
        assert(m.subrange((n - i - 1) as int, n as int).reverse() =~= m.subrange(
            (n - i) as int,
            n as int,
        ).reverse().push(c));
        i = i + 1;
    }
    let mut j: usize = 0;
    let ghost start = cmds@;
    while j < n
        invariant
            n == m.len(),
            j <= n,
            rest@ == m.subrange(j as int, n as int).reverse(),
            commands_view(cmds@) == commands_view(start) + commands_view(m.take(j as int)),
        decreases n - j,
    {
        let c = rest.pop().unwrap();
        assert(m.subrange(j + 1, n as int).reverse() =~= m.subrange(j as int, n as int).reverse().drop_last());
        let ghost before = cmds@;
        cmds.push(c);
        proof {
            lemma_commands_view_push(before, c);
            assert(m.take(j + 1) =~= m.take(j as int).push(c));
            lemma_commands_view_push(m.take(j as int), c);
        }
        j = j + 1;
    }
    assert(m.take(n as int) =~= m);
}

/// The commands that add (`is_add`) or delete the routing of one address.
pub fn ip_command_mod_one(ipv6conf: &Ipv6Config, addr: &Ipv6Address, is_add: bool) -> (r: Vec<
    CommandLine,
>)
    ensures
        commands_view(r@) == ip_commands(
            ipv6conf.wan_interface@,
            ipv6conf.libvirt_interface_v6@,
            ipv6_text(addr@),
            is_add,
        ),
{
    let addr_str = ipv6_to_string(addr);
    let action = if is_add { "add" } else { "del" };
    let neigh = CommandLine {
        program: String::from_str("ip"),
        args: vec![
            String::from_str("-6"),
            String::from_str("neigh"),
            String::from_str(action),
            String::from_str("proxy"),
            addr_str.clone(),
            String::from_str("dev"),
            ipv6conf.wan_interface.clone(),
        ],
    };
    let route = CommandLine {
        program: String::from_str("ip"),
        args: vec![
            String::from_str("-6"),
            String::from_str("route"),
            String::from_str(action),
            addr_str,
            String::from_str("dev"),
            ipv6conf.libvirt_interface_v6.clone(),
        ],
    };
    assert(neigh.args.deep_view() =~= seq![
        "-6"@,
        "neigh"@,
        ip_action(is_add),
        "proxy"@,
        ipv6_text(addr@),
        "dev"@,
        ipv6conf.wan_interface@,
    ]);
    assert(route.args.deep_view() =~= seq![
        "-6"@,
        "route"@,
        ip_action(is_add),
        ipv6_text(addr@),
        "dev"@,
        ipv6conf.libvirt_interface_v6@,
    ]);
    let r = vec![neigh, route];
    assert(commands_view(r@) =~= ip_commands(
        ipv6conf.wan_interface@,
        ipv6conf.libvirt_interface_v6@,
        ipv6_text(addr@),
        is_add,
    ));
    r
}


/// A pool whose entries share no address and no domain keeps that property
/// under any filtering of its entries (removal by address, by domain, purge).
pub proof fn lemma_filter_keeps_unique(p: PoolView, pred: spec_fn((Seq<u16>, Seq<char>)) -> bool)
    requires
        unique_entries(p),
    ensures
        unique_entries(p.filter(pred)),
    decreases p.len(),
{
    reveal(Seq::filter);
    if p.len() > 0 {
        let q = p.drop_last();
        assert(unique_entries(q)) by {
            assert forall|i: int, j: int|
                0 <= i < q.len() && 0 <= j < q.len() && i != j implies q[i].0 != q[j].0 && q[i].1
                != q[j].1 by {
                assert(q[i] == p[i] && q[j] == p[j]);
            }
        }
        lemma_filter_keeps_unique(q, pred);
        let f = q.filter(pred);
        if pred(p.last()) {
            assert forall|i: int| 0 <= i < f.len() implies f[i].0 != p.last().0 && f[i].1
                != p.last().1 by {
                assert(f.contains(f[i]));
                q.lemma_filter_contains_rev(pred, f[i]);
                let k = choose|k: int| 0 <= k < q.len() && q[k] == f[i];
                assert(p[k] == f[i]);
                assert(p[p.len() - 1] == p.last());
            }
            let g = f.push(p.last());
            assert forall|i: int, j: int|
                0 <= i < g.len() && 0 <= j < g.len() && i != j implies g[i].0 != g[j].0 && g[i].1
                != g[j].1 by {
                if i < f.len() && j < f.len() {
                    assert(g[i] == f[i] && g[j] == f[j]);
                } else if i < f.len() {
                    assert(g[i] == f[i] && g[j] == p.last());
                } else {
                    assert(g[j] == f[j] && g[i] == p.last());
                }
            }
        }
    }
}

/// After an accepted insertion the pool holds the inserted pair.
pub proof fn law_insert_holds_pair(p: PoolView, a: Seq<u16>, d: Seq<char>)
    ensures
        pool_insert(p, a, d).1 is Ok ==> pool_insert(p, a, d).0.contains((a, d)),
{
    let q = pool_insert(p, a, d).0;
    if !p.contains((a, d)) && conflict_from(p, a, d, 0) is None {
        assert(q[q.len() - 1] == (a, d));
    }
}

/// A refused insertion leaves the pool as it was.
pub proof fn law_refused_insert_changes_nothing(p: PoolView, a: Seq<u16>, d: Seq<char>)
    ensures
        pool_insert(p, a, d).1 is Err ==> pool_insert(p, a, d).0 == p,
{
}

/// Inserting the same pair a second time changes nothing and gives the same
/// answer as the first time.
pub proof fn law_insert_twice(p: PoolView, a: Seq<u16>, d: Seq<char>)
    ensures
        pool_insert(pool_insert(p, a, d).0, a, d) == pool_insert(p, a, d),
{
    law_insert_holds_pair(p, a, d);
}

/// An insertion is refused exactly when the pair is new and another entry
/// already has its address or its domain.
pub proof fn law_insert_refused_iff_conflict(p: PoolView, a: Seq<u16>, d: Seq<char>)
    ensures
        pool_insert(p, a, d).1 is Err <==> (!p.contains((a, d)) && exists|j: int|
            0 <= j < p.len() && (p[j].0 == a || p[j].1 == d)),
{
    lemma_conflict_from_none(p, a, d, 0);
}

/// Insertion keeps the entries unique.
pub proof fn law_insert_keeps_unique(p: PoolView, a: Seq<u16>, d: Seq<char>)
    requires
        unique_entries(p),
    ensures
        unique_entries(pool_insert(p, a, d).0),
{
    lemma_conflict_from_none(p, a, d, 0);
    let q = pool_insert(p, a, d).0;
    if !p.contains((a, d)) && conflict_from(p, a, d, 0) is None {
        assert forall|i: int, j: int|
            0 <= i < q.len() && 0 <= j < q.len() && i != j implies q[i].0 != q[j].0 && q[i].1
            != q[j].1 by {
            if i < p.len() && j < p.len() {
                assert(q[i] == p[i] && q[j] == p[j]);
            } else if i < p.len() {
                assert(q[i] == p[i]);
            } else {
                assert(q[j] == p[j]);
            }
        }
    }
}

/// After removal by address no entry has that address, every other entry
/// stays, and unique entries stay unique.
pub proof fn law_remove_by_addr(p: PoolView, a: Seq<u16>)
    ensures
        forall|i: int| 0 <= i < without_addr(p, a).len() ==> (#[trigger] without_addr(p, a)[i]).0 != a,
        forall|i: int| 0 <= i < p.len() && p[i].0 != a ==> without_addr(p, a).contains(#[trigger] p[i]),
        unique_entries(p) ==> unique_entries(without_addr(p, a)),
{
    broadcast use vstd::seq_lib::group_filter_ensures;

    if unique_entries(p) {
        lemma_filter_keeps_unique(p, addr_differs(a));
    }
}

/// After removal by domain no entry has that domain, every other entry stays,
/// and unique entries stay unique.
pub proof fn law_remove_by_name(p: PoolView, d: Seq<char>)
    ensures
        forall|i: int| 0 <= i < without_domain(p, d).len() ==> (#[trigger] without_domain(p, d)[i]).1 != d,
        forall|i: int| 0 <= i < p.len() && p[i].1 != d ==> without_domain(p, d).contains(#[trigger] p[i]),
        unique_entries(p) ==> unique_entries(without_domain(p, d)),
{
    broadcast use vstd::seq_lib::group_filter_ensures;

    if unique_entries(p) {
        lemma_filter_keeps_unique(p, domain_differs(d));
    }
}

/// After a purge every entry left belongs to a listed domain, every entry of
/// a listed domain is left, and unique entries stay unique.
pub proof fn law_purge(p: PoolView, names: Seq<Seq<char>>)
    ensures
        forall|i: int|
            0 <= i < only_domains(p, names).len() ==> names.contains(
                (#[trigger] only_domains(p, names)[i]).1,
            ),
        forall|i: int|
            0 <= i < p.len() && names.contains(p[i].1) ==> only_domains(p, names).contains(
                #[trigger] p[i],
            ),
        unique_entries(p) ==> unique_entries(only_domains(p, names)),
{
    broadcast use vstd::seq_lib::group_filter_ensures;

    if unique_entries(p) {
        lemma_filter_keeps_unique(p, |e: (Seq<u16>, Seq<char>)| names.contains(e.1));
    }
}

/// Taking over the old list keeps the entries unique, and every entry that
/// was in the pool stays in it.
pub proof fn law_migrate_keeps_entries(p: PoolView, lines: Seq<Seq<char>>)
    ensures
        unique_entries(p) ==> unique_entries(migrate_spec(p, lines).0),
        forall|i: int| 0 <= i < p.len() ==> migrate_spec(p, lines).0.contains(#[trigger] p[i]),
    decreases lines.len(),
{
    if lines.len() > 0 {
        law_migrate_keeps_entries(p, lines.drop_last());
        let q = migrate_spec(p, lines.drop_last()).0;
        match ipv6_parse(lines.last()) {
            None => {},
            Some(a) => {
                let d = "unknwon-"@ + ipv6_text(a);
                if unique_entries(q) {
                    law_insert_keeps_unique(q, a, d);
                }
                assert forall|i: int| 0 <= i < p.len() implies pool_insert(q, a, d).0.contains(#[trigger] p[i]) by {
                    let k = choose|k: int| 0 <= k < q.len() && q[k] == p[i];
                    if !q.contains((a, d)) && conflict_from(q, a, d, 0) is None {
                        assert(q.push((a, d))[k] == p[i]);
                    }
                }
            },
        }
    }
}

/// Flushing re-creates every entry of the pool, in pool order, with four
/// commands each: delete its neighbour proxy on the WAN interface and its
/// route on the IPv6 bridge, then add both again.
pub proof fn law_flush_every_entry(p: PoolView, wan: Seq<char>, v6if: Seq<char>)
    ensures
        flush_commands(p, wan, v6if).len() == 4 * p.len(),
        forall|i: int|
            #![trigger p[i]]
            0 <= i < p.len() ==> {
                let c = flush_commands(p, wan, v6if);
                let t = ipv6_text(p[i].0);
                &&& c[4 * i] == ("ip"@, seq!["-6"@, "neigh"@, "del"@, "proxy"@, t, "dev"@, wan])
                &&& c[4 * i + 1] == ("ip"@, seq!["-6"@, "route"@, "del"@, t, "dev"@, v6if])
                &&& c[4 * i + 2] == ("ip"@, seq!["-6"@, "neigh"@, "add"@, "proxy"@, t, "dev"@, wan])
                &&& c[4 * i + 3] == ("ip"@, seq!["-6"@, "route"@, "add"@, t, "dev"@, v6if])
            },
    decreases p.len(),
{
    if p.len() > 0 {
        let q = p.drop_last();
        law_flush_every_entry(q, wan, v6if);
        let c = flush_commands(p, wan, v6if);
        let cq = flush_commands(q, wan, v6if);
        assert forall|i: int| #![trigger p[i]] 0 <= i < p.len() implies {
            let t = ipv6_text(p[i].0);
            &&& c[4 * i] == ("ip"@, seq!["-6"@, "neigh"@, "del"@, "proxy"@, t, "dev"@, wan])
            &&& c[4 * i + 1] == ("ip"@, seq!["-6"@, "route"@, "del"@, t, "dev"@, v6if])
            &&& c[4 * i + 2] == ("ip"@, seq!["-6"@, "neigh"@, "add"@, "proxy"@, t, "dev"@, wan])
            &&& c[4 * i + 3] == ("ip"@, seq!["-6"@, "route"@, "add"@, t, "dev"@, v6if])
        } by {
            if i < q.len() {
                assert(q[i] == p[i]);
            } else {
                assert(p[i] == p.last());
            }
        }
    }
}

} // verus!
