//! The libvirt hook: port forwarding rules for a machine as it starts and
//! stops.

use vstd::prelude::*;
use crate::text::{owned, str_eq, i64_to_decimal, int_text, concat3};
use crate::tools::CommandLine;
use crate::vmlist::{TomlTable, TomlValue, table_get, entry_view, vm_entry_of, vmlist_of_text, parse_vmlist};

verus! {

/// The arguments libvirt passes to its hook.
#[derive(Debug)]
pub struct SubCmdHook {
    /// Domain name.
    pub domain: Option<String>,
    /// Action (for instance `prepare` or `release`).
    pub action: Option<String>,
    /// Further arguments, ignored.
    pub _extra: Vec<String>,
}

/// The two hook actions that change forwarding rules.
#[derive(Clone, Copy, Debug, PartialEq, Eq, Structural)]
pub enum HookAction {
    /// The machine is about to start: add its rules.
    Prepare,
    /// The machine has stopped: remove its rules.
    Release,
}

/// A port forwarding of the machine list, as far as it could be read: the
/// host and guest ports where they are integers.
#[derive(Debug)]
pub struct PortMapping {
    pub host: Option<i64>,
    pub guest: Option<i64>,
}

/// What the hook reads of a machine's entry in the machine list: its IPv4
/// address where it is a string, and its port forwardings where they form a
/// list.
#[derive(Debug)]
pub struct VmEntry {
    pub ipv4addr: Option<String>,
    pub ports: Option<Vec<PortMapping>>,
}

/// One step of the hook's work.
#[derive(Debug)]
pub enum HookStep {
    /// Run the command, whatever its outcome.
    Run(CommandLine),
    /// Run `check`; unless it runs and succeeds, run `insert`.
    EnsureRule { check: CommandLine, insert: CommandLine },
}

/// A command as plain values.
pub type CommandView = (Seq<char>, Seq<Seq<char>>);

/// A step as plain values.
pub enum StepView {
    Run(CommandView),
    EnsureRule(CommandView, CommandView),
}

pub open spec fn step_view(s: HookStep) -> StepView {
    match s {
        HookStep::Run(c) => StepView::Run(c@),
        HookStep::EnsureRule { check, insert } => StepView::EnsureRule(check@, insert@),
    }
}

pub open spec fn steps_view(v: Seq<HookStep>) -> Seq<StepView> {
    v.map_values(|s: HookStep| step_view(s))
}

/// The `iptables` command with these arguments.
pub open spec fn iptables(args: Seq<Seq<char>>) -> CommandView {
    ("iptables"@, args)
}

/// The steps that add the forwarding of host port `host` to `ip:guest`:
/// create the `HUSTOA_VM` chain, make `PREROUTING` jump to it unless it
/// does, add the DNAT rule, and accept forwarded traffic to the guest port
/// unless that rule exists.
pub open spec fn prepare_steps(ip: Seq<char>, host: Seq<char>, guest: Seq<char>) -> Seq<StepView> {
    seq![
        StepView::Run(iptables(seq!["-t"@, "nat"@, "-N"@, "HUSTOA_VM"@])),
        StepView::EnsureRule(
            iptables(seq!["-t"@, "nat"@, "-C"@, "PREROUTING"@, "-j"@, "HUSTOA_VM"@]),
            iptables(seq!["-t"@, "nat"@, "-I"@, "PREROUTING"@, "-j"@, "HUSTOA_VM"@]),
        ),
        StepView::Run(
            iptables(
                seq![
                    "-t"@,
                    "nat"@,
                    "-A"@,
                    "HUSTOA_VM"@,
                    "-p"@,
                    "tcp"@,
                    "--dport"@,
                    host,
                    "-j"@,
                    "DNAT"@,
                    "--to-destination"@,
                    ip + ":"@ + guest,
                ],
            ),
        ),
        StepView::EnsureRule(
            iptables(seq!["-C"@, "FORWARD"@, "-d"@, ip, "-p"@, "tcp"@, "--dport"@, guest, "-j"@, "ACCEPT"@]),
            iptables(seq!["-I"@, "FORWARD"@, "-d"@, ip, "-p"@, "tcp"@, "--dport"@, guest, "-j"@, "ACCEPT"@]),
        ),
    ]
}

/// The steps that remove the forwarding of host port `host` to `ip:guest`:
/// delete the DNAT rule and the forward rule.
pub open spec fn release_steps(ip: Seq<char>, host: Seq<char>, guest: Seq<char>) -> Seq<StepView> {
    seq![
        StepView::Run(
            iptables(
                seq![
                    "-t"@,
                    "nat"@,
                    "-D"@,
                    "HUSTOA_VM"@,
                    "-p"@,
                    "tcp"@,
                    "--dport"@,
                    host,
                    "-j"@,
                    "DNAT"@,
                    "--to-destination"@,
                    ip + ":"@ + guest,
                ],
            ),
        ),
        StepView::Run(
            iptables(seq!["-D"@, "FORWARD"@, "-d"@, ip, "-p"@, "tcp"@, "--dport"@, guest, "-j"@, "ACCEPT"@]),
        ),
    ]
}

/// The steps for one forwarding, by action.
pub open spec fn port_steps(action: HookAction, ip: Seq<char>, host: i64, guest: i64) -> Seq<StepView> {
    match action {
        HookAction::Prepare => prepare_steps(ip, int_text(host as int), int_text(guest as int)),
        HookAction::Release => release_steps(ip, int_text(host as int), int_text(guest as int)),
    }
}

/// The steps for the forwardings in order; one without an integer host and
/// guest port is skipped.
pub open spec fn ports_steps(action: HookAction, ip: Seq<char>, ports: Seq<PortMapping>) -> Seq<StepView>
    decreases ports.len(),
{
    if ports.len() == 0 {
        Seq::empty()
    } else {
        let rest = ports_steps(action, ip, ports.drop_last());
        match (ports.last().host, ports.last().guest) {
            (Some(h), Some(g)) => rest + port_steps(action, ip, h, g),
            _ => rest,
        }
    }
}

/// What the hook reads of a machine's entry, as plain values.
pub open spec fn vm_entry_view(e: VmEntry) -> (Option<Seq<char>>, Option<Seq<PortMapping>>) {
    (
        match e.ipv4addr {
            Some(s) => Some(s@),
            None => None,
        },
        match e.ports {
            Some(p) => Some(p@),
            None => None,
        },
    )
}

/// The hook's steps for a machine's entry: none without a non-empty IPv4
/// address or without a list of forwardings.
pub open spec fn hook_steps(action: HookAction, entry: (Option<Seq<char>>, Option<Seq<PortMapping>>)) -> Seq<StepView> {
    let ip = match entry.0 {
        Some(s) => s,
        None => Seq::empty(),
    };
    if ip.len() == 0 {
        Seq::empty()
    } else {
        match entry.1 {
            Some(ports) => ports_steps(action, ip, ports),
            None => Seq::empty(),
        }
    }
}

/// The domain and action of a hook call that changes forwarding rules:
/// `prepare` or `release` of a named domain.
pub open spec fn hook_request(domain: Option<String>, action: Option<String>) -> Option<(Seq<char>, HookAction)> {
    match (domain, action) {
        (Some(d), Some(a)) => if a@ == "prepare"@ {
            Some((d@, HookAction::Prepare))
        } else if a@ == "release"@ {
            Some((d@, HookAction::Release))
        } else {
            None
        },
        _ => None,
    }
}

/// The hook's steps for a machine list: those for the requested domain's
/// entry, none where the call changes nothing or the list has no such
/// domain.
pub open spec fn hook_steps_for(
    domain: Option<String>,
    action: Option<String>,
    doc: Seq<(String, TomlValue)>,
) -> Seq<StepView> {
    match hook_request(domain, action) {
        Some((d, act)) => match table_get(doc, d) {
            Some(v) => hook_steps(act, entry_view(v)),
            None => Seq::empty(),
        },
        None => Seq::empty(),
    }
}

/// Releasing a forwarding deletes exactly the rules that preparing it
/// added: the DNAT rule appended to `HUSTOA_VM` is deleted with the same
/// arguments, and the `FORWARD` rule that preparing inserts (unless it
/// exists) is deleted with the same arguments.
pub proof fn law_release_undoes_prepare(ip: Seq<char>, host: i64, guest: i64)
    ensures
        ({
            let p = port_steps(HookAction::Prepare, ip, host, guest);
            let r = port_steps(HookAction::Release, ip, host, guest);
            &&& r.len() == 2
            &&& p[2] matches StepView::Run(added) && r[0] matches StepView::Run(deleted)
                && deleted.0 == added.0 && added.1[2] == "-A"@ && deleted.1 == added.1.update(2, "-D"@)
            &&& p[3] matches StepView::EnsureRule(_, inserted) && r[1] matches StepView::Run(deleted)
                && deleted.0 == inserted.0 && inserted.1[0] == "-I"@ && deleted.1 == inserted.1.update(0, "-D"@)
        }),
{
    let h = int_text(host as int);
    let g = int_text(guest as int);
    let a: Seq<Seq<char>> = seq![
        "-t"@, "nat"@, "-A"@, "HUSTOA_VM"@, "-p"@, "tcp"@, "--dport"@, h, "-j"@, "DNAT"@,
        "--to-destination"@, ip + ":"@ + g,
    ];
    let d: Seq<Seq<char>> = seq![
        "-t"@, "nat"@, "-D"@, "HUSTOA_VM"@, "-p"@, "tcp"@, "--dport"@, h, "-j"@, "DNAT"@,
        "--to-destination"@, ip + ":"@ + g,
    ];
    assert(d =~= a.update(2, "-D"@));
    let i: Seq<Seq<char>> = seq!["-I"@, "FORWARD"@, "-d"@, ip, "-p"@, "tcp"@, "--dport"@, g, "-j"@, "ACCEPT"@];
    let e: Seq<Seq<char>> = seq!["-D"@, "FORWARD"@, "-d"@, ip, "-p"@, "tcp"@, "--dport"@, g, "-j"@, "ACCEPT"@];
    assert(e =~= i.update(0, "-D"@));
}

fn iptables_command(args: Vec<String>) -> (r: CommandLine)
    ensures
        r@ == iptables(args.deep_view()),
{
    CommandLine { program: owned("iptables"), args }
}

fn push_steps(steps: &mut Vec<HookStep>, more: Vec<HookStep>)
    ensures
        steps_view(final(steps)@) == steps_view(old(steps)@) + steps_view(more@),
{
    let mut more = more;
    let ghost m = more@;
    let n = more.len();
    let mut rev: Vec<HookStep> = Vec::new();
    let mut i: usize = 0;
    while i < n
        invariant
            n == m.len(),
            i <= n,
            more@ == m.subrange(0, (n - i) as int),
            rev@ == m.subrange((n - i) as int, n as int).reverse(),
        decreases n - i,
    {
        let s = more.pop().unwrap();
        rev.push(s);
        assert(m.subrange((n - i - 1) as int, n as int).reverse() =~= m.subrange((n - i) as int, n as int).reverse().push(s));
        i = i + 1;
    }
    let ghost start = steps@;
    let mut j: usize = 0;
    while j < n
        invariant
            n == m.len(),
            j <= n,
            rev@ == m.subrange(j as int, n as int).reverse(),
            steps_view(steps@) == steps_view(start) + steps_view(m.take(j as int)),
        decreases n - j,
    {
        let s = rev.pop().unwrap();
        assert(m.subrange(j + 1, n as int).reverse() =~= m.subrange(j as int, n as int).reverse().drop_last());
        let ghost before = steps@;
        steps.push(s);
        assert(steps_view(steps@) =~= steps_view(before).push(step_view(s)));
        assert(m.take(j + 1) =~= m.take(j as int).push(s));
        assert(steps_view(m.take(j + 1)) =~= steps_view(m.take(j as int)).push(step_view(s)));
        j = j + 1;
    }
    assert(m.take(n as int) =~= m);
}

/// The steps for one forwarding.
pub fn port_plan(action: HookAction, ip: &String, host: i64, guest: i64) -> (r: Vec<HookStep>)
    ensures
        steps_view(r@) == port_steps(action, ip@, host, guest),
{
    let host_s = i64_to_decimal(host);
    let guest_s = i64_to_decimal(guest);
    let dest = concat3(ip.as_str(), ":", guest_s.as_str());
    match action {
        HookAction::Prepare => {
            let create_chain = iptables_command(vec![owned("-t"), owned("nat"), owned("-N"), owned("HUSTOA_VM")]);
            let check_jump = iptables_command(vec![owned("-t"), owned("nat"), owned("-C"), owned("PREROUTING"), owned("-j"), owned("HUSTOA_VM")]);
            let insert_jump = iptables_command(vec![owned("-t"), owned("nat"), owned("-I"), owned("PREROUTING"), owned("-j"), owned("HUSTOA_VM")]);
            let dnat = iptables_command(vec![
                owned("-t"), owned("nat"), owned("-A"), owned("HUSTOA_VM"), owned("-p"), owned("tcp"),
                owned("--dport"), host_s, owned("-j"), owned("DNAT"), owned("--to-destination"), dest,
            ]);
            let check_fwd = iptables_command(vec![
                owned("-C"), owned("FORWARD"), owned("-d"), ip.clone(), owned("-p"), owned("tcp"),
                owned("--dport"), guest_s.clone(), owned("-j"), owned("ACCEPT"),
            ]);
            let insert_fwd = iptables_command(vec![
                owned("-I"), owned("FORWARD"), owned("-d"), ip.clone(), owned("-p"), owned("tcp"),
                owned("--dport"), guest_s, owned("-j"), owned("ACCEPT"),
            ]);
            let ghost expected = port_steps(action, ip@, host, guest);
            assert(create_chain@.1 =~= seq!["-t"@, "nat"@, "-N"@, "HUSTOA_VM"@]);
            assert(check_jump@.1 =~= seq!["-t"@, "nat"@, "-C"@, "PREROUTING"@, "-j"@, "HUSTOA_VM"@]);
            assert(insert_jump@.1 =~= seq!["-t"@, "nat"@, "-I"@, "PREROUTING"@, "-j"@, "HUSTOA_VM"@]);
            assert(dnat@.1 =~= seq![
                "-t"@, "nat"@, "-A"@, "HUSTOA_VM"@, "-p"@, "tcp"@, "--dport"@, int_text(host as int),
                "-j"@, "DNAT"@, "--to-destination"@, ip@ + ":"@ + int_text(guest as int),
            ]);
            assert(check_fwd@.1 =~= seq!["-C"@, "FORWARD"@, "-d"@, ip@, "-p"@, "tcp"@, "--dport"@, int_text(guest as int), "-j"@, "ACCEPT"@]);
            assert(insert_fwd@.1 =~= seq!["-I"@, "FORWARD"@, "-d"@, ip@, "-p"@, "tcp"@, "--dport"@, int_text(guest as int), "-j"@, "ACCEPT"@]);
            let r = vec![
                HookStep::Run(create_chain),
                HookStep::EnsureRule { check: check_jump, insert: insert_jump },
                HookStep::Run(dnat),
                HookStep::EnsureRule { check: check_fwd, insert: insert_fwd },
            ];
            assert(steps_view(r@) =~= expected);
            r
        },
        HookAction::Release => {
            let dnat = iptables_command(vec![
                owned("-t"), owned("nat"), owned("-D"), owned("HUSTOA_VM"), owned("-p"), owned("tcp"),
                owned("--dport"), host_s, owned("-j"), owned("DNAT"), owned("--to-destination"), dest,
            ]);
            let fwd = iptables_command(vec![
                owned("-D"), owned("FORWARD"), owned("-d"), ip.clone(), owned("-p"), owned("tcp"),
                owned("--dport"), guest_s, owned("-j"), owned("ACCEPT"),
            ]);
            assert(dnat@.1 =~= seq![
                "-t"@, "nat"@, "-D"@, "HUSTOA_VM"@, "-p"@, "tcp"@, "--dport"@, int_text(host as int),
                "-j"@, "DNAT"@, "--to-destination"@, ip@ + ":"@ + int_text(guest as int),
            ]);
            assert(fwd@.1 =~= seq!["-D"@, "FORWARD"@, "-d"@, ip@, "-p"@, "tcp"@, "--dport"@, int_text(guest as int), "-j"@, "ACCEPT"@]);
            let r = vec![HookStep::Run(dnat), HookStep::Run(fwd)];
            assert(steps_view(r@) =~= port_steps(action, ip@, host, guest));
            r
        },
    }
}

/// The hook's steps for a machine's entry.
pub fn hook_plan(action: HookAction, entry: &VmEntry) -> (r: Vec<HookStep>)
    ensures
        steps_view(r@) == hook_steps(action, vm_entry_view(*entry)),
{
    let mut steps: Vec<HookStep> = Vec::new();
    let ip = match &entry.ipv4addr {
        Some(s) => s.clone(),
        None => String::new(),
    };
    if ip.unicode_len() == 0 {
        assert(steps_view(steps@) =~= Seq::<StepView>::empty());
        return steps;
    }
    let ports = match &entry.ports {
        Some(p) => p,
        None => {
            assert(steps_view(steps@) =~= Seq::<StepView>::empty());
            return steps;
        },
    };
    let mut i: usize = 0;
    assert(ports@.take(0) =~= Seq::<PortMapping>::empty());
    assert(steps_view(steps@) =~= Seq::<StepView>::empty());
    while i < ports.len()
        invariant
            i <= ports.len(),
            steps_view(steps@) == ports_steps(action, ip@, ports@.take(i as int)),
        decreases ports.len() - i,
    {
        assert(ports@.take(i + 1).drop_last() =~= ports@.take(i as int));
        assert(ports@.take(i + 1).last() == ports@[i as int]);
        match (ports[i].host, ports[i].guest) {
            (Some(h), Some(g)) => {
                let more = port_plan(action, &ip, h, g);
                push_steps(&mut steps, more);
            },
            _ => {},
        }
        i = i + 1;
    }
    assert(ports@.take(ports.len() as int) =~= ports@);
    steps
}

impl SubCmdHook {
    /// The action to carry out and for which domain: only `prepare` and
    /// `release` of a named domain change anything.
    pub fn requested_action(&self) -> (r: Option<(String, HookAction)>)
        ensures
            match r {
                Some((d, act)) => hook_request(self.domain, self.action) == Some((d@, act)),
                None => hook_request(self.domain, self.action) is None,
            },
    {
        let domain = match &self.domain {
            Some(d) => d.clone(),
            None => return None,
        };
        let action = match &self.action {
            Some(a) => a.clone(),
            None => String::new(),
        };
        proof {
            reveal_strlit("prepare");
            reveal_strlit("release");
        }
        assert(domain@ == self.domain->0@);
        assert(self.action is None ==> action@.len() == 0);
        assert(self.action is Some ==> action@ == self.action->0@);
        if str_eq(action.as_str(), "prepare") {
            Some((domain, HookAction::Prepare))
        } else if str_eq(action.as_str(), "release") {
            Some((domain, HookAction::Release))
        } else {
            None
        }
    }

    /// The steps of this hook call for the machine list `doc`.
    pub fn plan(&self, doc: &TomlTable) -> (r: Vec<HookStep>)
        ensures
            steps_view(r@) == hook_steps_for(self.domain, self.action, doc.entries@),
    {
        match self.requested_action() {
            Some((domain, action)) => match vm_entry_of(doc, domain.as_str()) {
                Some(entry) => hook_plan(action, &entry),
                None => {
                    let r: Vec<HookStep> = Vec::new();
                    assert(steps_view(r@) =~= Seq::<StepView>::empty());
                    r
                },
            },
            None => {
                let r: Vec<HookStep> = Vec::new();
                assert(steps_view(r@) =~= Seq::<StepView>::empty());
                r
            },
        }
    }
    /// The steps of this hook call for the machine list written as `text`:
    /// none for a document that is not a table; refused where the text does
    /// not parse.
    pub fn plan_of_text(&self, text: &str) -> (r: Option<Vec<HookStep>>)
        ensures
            match vmlist_of_text(text@) {
                None => r is None,
                Some(TomlValue::Table(d)) => r matches Some(s) && steps_view(s@) == hook_steps_for(
                    self.domain,
                    self.action,
                    d.entries@,
                ),
                Some(_) => r matches Some(s) && s@.len() == 0,
            },
    {
        match parse_vmlist(text) {
            None => None,
            Some(TomlValue::Table(doc)) => Some(self.plan(&doc)),
            Some(_) => Some(Vec::new()),
        }
    }
}

} // verus!
