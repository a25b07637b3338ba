//! Forwarded ports and the local sites served for them.
use vstd::prelude::*;

use crate::assoc::get;
use crate::model::{DevcontainerConfig, PortEntry, PortMapping};
use crate::number::{read_u16, show_unsigned};
use crate::text::{cat2, cat3, ends_with, owned, split_once, trim};

verus! {

// ---------------------------------------------------------------------------
// Sites
// ---------------------------------------------------------------------------

/// The entries by port: a later one replaces an earlier one of the same port.
pub open spec fn by_port(s: Seq<PortEntry>) -> Map<u16, PortEntry> {
    crate::assoc::assoc(keyed(s))
}

/// The entries with their ports as keys.
pub open spec fn keyed(s: Seq<PortEntry>) -> Seq<(u16, PortEntry)> {
    s.map_values(|e: PortEntry| (e.port, e))
}

/// Each port is larger than the ones before it.
pub open spec fn ports_ascending(s: Seq<PortEntry>) -> bool {
    forall|i: int, j: int| 0 <= i < j < s.len() ==> (#[trigger] s[i]).port < (#[trigger] s[j]).port
}

/// Put an entry in its place, over the one that had its port.
fn place(out: &mut Vec<PortEntry>, entry: PortEntry)
    requires
        ports_ascending(old(out)@),
    ensures
        ports_ascending(final(out)@),
        by_port(final(out)@) == by_port(old(out)@).insert(entry.port, entry),
{
    let mut at: usize = 0;
    while at < out.len() && out[at].port < entry.port
        invariant
            at <= out@.len(),
            out@ == old(out)@,
            forall|j: int| 0 <= j < at ==> (#[trigger] out@[j]).port < entry.port,
        decreases out@.len() - at,
    {
        at = at + 1;
    }
    let ghost t = keyed(out@);
    proof {
        assert forall|i: int, j: int| 0 <= i < j < t.len() implies #[trigger] t[i].0 != #[trigger] t[j].0 by {
            assert(out@[i].port < out@[j].port);
        }
        assert(forall|j: int| at < j < out@.len() ==> out@[at as int].port < (#[trigger] out@[j]).port);
    }
    if at < out.len() && out[at].port == entry.port {
        proof {
            crate::assoc::assoc_update(t, at as int, entry);
            assert(keyed(out@.update(at as int, entry)) == t.update(at as int, (t[at as int].0, entry)));
        }
        out.set(at, entry);
    } else {
        proof {
            assert forall|j: int| 0 <= j < t.len() implies #[trigger] t[j].0 != entry.port by {
                assert(t[j].0 == out@[j].port);
            }
            crate::assoc::assoc_insert(t, at as int, entry.port, entry);
            assert(keyed(out@.insert(at as int, entry)) == t.insert(at as int, (entry.port, entry)));
        }
        out.insert(at, entry);
    }
}

/// Union of declared and live port entries, one per host port and in port
/// order. The live entry wins: it carries the name and keepalive that a
/// declared one lacks.
pub fn merge_caddy_ports(declared: Vec<PortEntry>, active: Vec<PortEntry>) -> (r: Vec<PortEntry>)
    ensures
        ports_ascending(r@),
        by_port(r@) == by_port(declared@).union_prefer_right(by_port(active@)),
{
    let mut all: Vec<PortEntry> = declared;
    let mut live: Vec<PortEntry> = active;
    all.append(&mut live);
    let ghost both = all@;
    proof {
        assert(keyed(both) == keyed(declared@) + keyed(active@));
        crate::assoc::assoc_append(keyed(declared@), keyed(active@));
    }
    let mut out: Vec<PortEntry> = Vec::new();
    assert(keyed(both.take(0)) == Seq::<(u16, PortEntry)>::empty());
    assert(keyed(out@) == Seq::<(u16, PortEntry)>::empty());
    for entry in it: all.into_iter()
        invariant
            it.seq() == both,
            ports_ascending(out@),
            by_port(out@) == by_port(both.take(it.index() as int)),
    {
        proof {
            let i = it.index() as int;
            let now = keyed(both.take(i + 1));
            assert(now.drop_last() == keyed(both.take(i)));
            assert(now.last() == (entry.port, entry));
        }
        place(&mut out, entry);
    }
    assert(both.take(both.len() as int) == both);
    out
}

/// A site's name for the name that the project gives it: that name under the
/// local domain. What a name that is under it already becomes is left open.
pub open spec fn site_name(given: Seq<char>, name: Seq<char>) -> bool {
    !crate::text::finishes_with(given, ".test"@) ==> name == given + ".test"@
}

/// A name under the local domain, `.test`.
fn qualify_hostname(name: &str) -> (r: String)
    ensures
        site_name(name@, r@),
{
    if ends_with(name, ".test") {
        owned(name)
    } else {
        cat2(name, ".test")
    }
}

/// The site entry of a forwarded port: the name the project gives its host
/// port, if it gives one.
pub open spec fn site_entry(names: Map<Seq<char>, Seq<char>>, p: PortMapping, e: PortEntry) -> bool {
    let key = crate::number::decimal_of(p.host as nat);
    &&& e.port == p.host
    &&& e.keepalive is None
    &&& match e.custom_name {
        Some(name) => names.contains_key(key) && site_name(names[key], name@),
        None => !names.contains_key(key),
    }
}

/// The ports a project forwards.
pub open spec fn forwarded(config: DevcontainerConfig) -> Seq<PortMapping> {
    match config.forward_ports {
        Some(ports) => ports@,
        None => Seq::empty(),
    }
}

/// The site names a project gives, by host port.
pub open spec fn site_names(config: DevcontainerConfig) -> Map<Seq<char>, Seq<char>> {
    match config.caddy {
        Some(names) => crate::assoc::pair_map(names@),
        None => Map::empty(),
    }
}

/// The site entries of a project's forwarded ports, in the order they are
/// declared: one per port, named by the project's `caddy` map where that names
/// the host port.
pub fn caddy_ports_from_config(config: &DevcontainerConfig) -> (r: Vec<PortEntry>)
    ensures
        r@.len() == forwarded(*config).len(),
        forall|i: int|
            0 <= i < r@.len() ==> site_entry(site_names(*config), forwarded(*config)[i], #[trigger] r@[i]),
{
    let mut out: Vec<PortEntry> = Vec::new();
    match &config.forward_ports {
        None => {},
        Some(ports) => {
            let mut i: usize = 0;
            while i < ports.len()
                invariant
                    i <= ports@.len(),
                    ports@ == forwarded(*config),
                    out@.len() == i,
                    forall|j: int|
                        0 <= j < i ==> site_entry(site_names(*config), ports@[j], #[trigger] out@[j]),
                decreases ports@.len() - i,
            {
                let host = ports[i].host;
                let key = show_unsigned(host as u64);
                let custom_name = match &config.caddy {
                    Some(names) => match get(names, key.as_str()) {
                        Some(name) => Some(qualify_hostname(name.as_str())),
                        None => None,
                    },
                    None => None,
                };
                out.push(PortEntry { port: host, custom_name, keepalive: None });
                i = i + 1;
            }
        },
    }
    out
}

// ---------------------------------------------------------------------------
// `--ports`
// ---------------------------------------------------------------------------

/// What one `--ports` value asks for.
pub enum PortArg {
    /// Nothing: the value is blank.
    Blank,
    Forward(PortMapping),
    /// It is refused, with this message.
    Refused(Seq<char>),
}

/// What one `--ports` value asks for: `port`, or `host:container`.
pub open spec fn port_arg(arg: Seq<char>) -> PortArg {
    let arg = crate::text::trimmed(arg);
    if arg.len() == 0 {
        PortArg::Blank
    } else {
        match crate::text::cut_once(arg, ':') {
            Some((host, container)) => match (
                crate::number::unsigned_of(host, 0xffff),
                crate::number::unsigned_of(container, 0xffff),
            ) {
                (None, _) => PortArg::Refused("invalid host port in '"@ + arg + "'"@),
                (Some(_), None) => PortArg::Refused("invalid container port in '"@ + arg + "'"@),
                (Some(h), Some(c)) => PortArg::Forward(
                    PortMapping { host: h as u16, container: c as u16 },
                ),
            },
            None => match crate::number::unsigned_of(arg, 0xffff) {
                None => PortArg::Refused("invalid port '"@ + arg + "'"@),
                Some(p) => PortArg::Forward(PortMapping { host: p as u16, container: p as u16 }),
            },
        }
    }
}

/// What a list of `--ports` values asks for: every mapping in order, or the
/// message of the first value that is refused.
pub open spec fn port_args(args: Seq<Seq<char>>) -> Result<Seq<PortMapping>, Seq<char>>
    decreases args.len(),
{
    if args.len() == 0 {
        Ok(Seq::empty())
    } else {
        match port_args(args.drop_last()) {
            Err(e) => Err(e),
            Ok(before) => match port_arg(args.last()) {
                PortArg::Blank => Ok(before),
                PortArg::Forward(p) => Ok(before.push(p)),
                PortArg::Refused(e) => Err(e),
            },
        }
    }
}

/// A refusal among the first values is the answer for all of them.
proof fn port_args_first_refusal(args: Seq<Seq<char>>, i: int)
    requires
        0 <= i <= args.len(),
        port_args(args.take(i)) is Err,
    ensures
        port_args(args) == port_args(args.take(i)),
    decreases args.len() - i,
{
    if i < args.len() {
        assert(args.take(i + 1).drop_last() == args.take(i));
        port_args_first_refusal(args, i + 1);
    } else {
        assert(args.take(i) == args);
    }
}

/// The mapping one `--ports` value asks for, none if it is blank, or why it is
/// refused.
fn parse_port_arg(arg: &str) -> (r: Result<Option<PortMapping>, String>)
    ensures
        match port_arg(arg@) {
            PortArg::Blank => r == Ok::<Option<PortMapping>, String>(None),
            PortArg::Forward(p) => r == Ok::<Option<PortMapping>, String>(Some(p)),
            PortArg::Refused(e) => r is Err && r->Err_0@ == e,
        },
{
    let arg = trim(arg);
    if arg.as_str().is_empty() {
        return Ok(None);
    }
    match split_once(arg.as_str(), ':') {
        Some((host_text, container_text)) => {
            let host = match read_u16(host_text.as_str()) {
                Some(p) => p,
                None => {
                    return Err(cat3("invalid host port in '", arg.as_str(), "'"));
                },
            };
            let container = match read_u16(container_text.as_str()) {
                Some(p) => p,
                None => {
                    return Err(cat3("invalid container port in '", arg.as_str(), "'"));
                },
            };
            Ok(Some(PortMapping { host, container }))
        },
        None => match read_u16(arg.as_str()) {
            Some(port) => Ok(Some(PortMapping { host: port, container: port })),
            None => Err(cat3("invalid port '", arg.as_str(), "'")),
        },
    }
}

/// The mappings the `--ports` values ask for: `8080` forwards a port to itself,
/// `9090:8080` forwards host port 9090 to container port 8080, blanks ask for
/// nothing.
pub fn parse_port_overrides(args: &Vec<String>) -> (r: Result<Vec<PortMapping>, String>)
    ensures
        match port_args(crate::text::texts(args@)) {
            Ok(ports) => r is Ok && r->Ok_0@ == ports,
            Err(e) => r is Err && r->Err_0@ == e,
        },
{
    let ghost all = crate::text::texts(args@);
    let mut mappings: Vec<PortMapping> = Vec::new();
    let mut i: usize = 0;
    while i < args.len()
        invariant
            all == crate::text::texts(args@),
            i <= args@.len(),
            port_args(all.take(i as int)) == Ok::<Seq<PortMapping>, Seq<char>>(mappings@),
        decreases args@.len() - i,
    {
        proof {
            assert(all.take(i + 1).drop_last() == all.take(i as int));
            assert(all.take(i + 1).last() == args@[i as int]@);
        }
        match parse_port_arg(args[i].as_str()) {
            Ok(None) => {},
            Ok(Some(p)) => {
                mappings.push(p);
            },
            Err(e) => {
                proof {
                    port_args_first_refusal(all, i + 1);
                }
                return Err(e);
            },
        }
        i = i + 1;
    }
    assert(all.take(all.len() as int) == all);
    Ok(mappings)
}

/// Let the `--ports` values, if there are any, replace the forwarded ports. A
/// refused value leaves the configuration as it was.
pub fn apply_cli_overrides(config: &mut DevcontainerConfig, port_overrides: &Vec<String>) -> (r: Result<
    (),
    String,
>)
    ensures
        port_overrides@.len() == 0 ==> r is Ok && *final(config) == *old(config),
        port_overrides@.len() > 0 ==> match port_args(crate::text::texts(port_overrides@)) {
            Ok(ports) => {
                &&& r is Ok
                &&& final(config).forward_ports is Some
                &&& final(config).forward_ports->Some_0@ == ports
                &&& *final(config) == (DevcontainerConfig {
                    forward_ports: final(config).forward_ports,
                    ..*old(config)
                })
            },
            Err(e) => r is Err && r->Err_0@ == e && *final(config) == *old(config),
        },
{
    if port_overrides.len() > 0 {
        match parse_port_overrides(port_overrides) {
            Ok(ports) => {
                config.forward_ports = Some(ports);
            },
            Err(e) => {
                return Err(e);
            },
        }
    }
    Ok(())
}

/// A `--ports` value that is a number up to 65535 forwards that port to itself; two of them
/// with a colon between forward the first to the second; a blank one forwards nothing.
/// White space around a value does not matter.
pub proof fn ports_are_forwarded_as_they_are_written(
    before: Seq<char>,
    host: u16,
    container: u16,
    behind: Seq<char>,
)
    requires
        crate::text::laws::blank(before),
        crate::text::laws::blank(behind),
    ensures
        port_arg(before + crate::number::decimal_of(host as nat) + behind) == PortArg::Forward(
            PortMapping { host, container: host },
        ),
        port_arg(
            before + (crate::number::decimal_of(host as nat) + seq![':'] + crate::number::decimal_of(
                container as nat,
            )) + behind,
        ) == PortArg::Forward(PortMapping { host, container }),
        port_arg(before) is Blank,
{
    let h = crate::number::decimal_of(host as nat);
    let c = crate::number::decimal_of(container as nat);
    let both = h + seq![':'] + c;
    crate::number::decimal_reads_back(host as nat, 0xffff);
    crate::number::decimal_reads_back(container as nat, 0xffff);
    crate::number::decimal_is_solid(host as nat);
    crate::number::decimal_is_solid(container as nat);
    crate::number::decimal_has_no_colon(host as int);
    assert(crate::number::decimal_int(host as int) == h);
    assert forall|i: int| 0 <= i < h.len() implies h[i] != ':' by {
        assert(crate::number::decimal_int(host as int)[i] != ':');
    }
    assert(!h.contains(':'));
    assert(both[0] == h[0]);
    assert(both.last() == c.last());
    crate::text::laws::trimming_takes_off_what_is_white(before, h, behind);
    crate::text::laws::trimming_takes_off_what_is_white(before, both, behind);
    crate::text::laws::a_text_is_cut_at_the_first(h, ':', c);
    let none = Seq::<char>::empty();
    crate::text::laws::trimming_takes_off_what_is_white(before, none, none);
    assert(before + none + none =~= before);
}

/// A value that is no port is refused, and so is one with a side that is none; the message
/// says which side, the host's first.
pub proof fn what_is_no_port_is_refused(s: Seq<char>, host: Seq<char>, container: Seq<char>)
    requires
        s.len() > 0 && !crate::text::white(s[0]) && !crate::text::white(s.last()),
    ensures
        !s.contains(':') && crate::number::unsigned_of(s, 0xffff) is None ==> port_arg(s) == PortArg::Refused(
            "invalid port '"@ + s + "'"@,
        ),
        s == host + seq![':'] + container && !host.contains(':') && crate::number::unsigned_of(host, 0xffff) is None
            ==> port_arg(s) == PortArg::Refused("invalid host port in '"@ + s + "'"@),
        s == host + seq![':'] + container && !host.contains(':') && crate::number::unsigned_of(host, 0xffff) is Some
            && crate::number::unsigned_of(container, 0xffff) is None ==> port_arg(s) == PortArg::Refused(
            "invalid container port in '"@ + s + "'"@,
        ),
{
    let none = Seq::<char>::empty();
    crate::text::laws::trimming_takes_off_what_is_white(none, s, none);
    assert(none + s + none =~= s);
    if s == host + seq![':'] + container && !host.contains(':') {
        crate::text::laws::a_text_is_cut_at_the_first(host, ':', container);
    }
}

/// Every value adds what it asks for behind what the values before it asked for; and the
/// first that is refused is the answer, whatever follows it.
pub proof fn values_are_taken_in_order(args: Seq<Seq<char>>, arg: Seq<char>)
    ensures
        port_args(Seq::empty()) == Ok::<Seq<PortMapping>, Seq<char>>(Seq::empty()),
        port_args(args) matches Err(e) ==> port_args(args.push(arg)) == Err::<Seq<PortMapping>, Seq<char>>(e),
        port_args(args) matches Ok(before) ==> match port_arg(arg) {
            PortArg::Blank => port_args(args.push(arg)) == Ok::<Seq<PortMapping>, Seq<char>>(before),
            PortArg::Forward(p) => port_args(args.push(arg)) == Ok::<Seq<PortMapping>, Seq<char>>(before.push(p)),
            PortArg::Refused(e) => port_args(args.push(arg)) == Err::<Seq<PortMapping>, Seq<char>>(e),
        },
{
    assert(args.push(arg).drop_last() =~= args);
}

/// The last entry of a port is the one that counts; a port without an entry has none.
pub proof fn the_last_entry_of_a_port_counts(s: Seq<PortEntry>, i: int, port: u16)
    ensures
        0 <= i < s.len() && (forall|j: int| i < j < s.len() ==> (#[trigger] s[j]).port != s[i].port) ==> by_port(
            s,
        ).contains_key(s[i].port) && by_port(s)[s[i].port] == s[i],
        (forall|j: int| 0 <= j < s.len() ==> (#[trigger] s[j]).port != port) ==> !by_port(s).contains_key(port),
        by_port(s).contains_key(port) ==> by_port(s)[port].port == port && s.contains(by_port(s)[port]),
{
    let k = keyed(s);
    crate::assoc::assoc_keys(k);
    if 0 <= i < s.len() && (forall|j: int| i < j < s.len() ==> (#[trigger] s[j]).port != s[i].port) {
        assert forall|j: int| i < j < k.len() implies #[trigger] k[j].0 != k[i].0 by {
            assert(s[j].port != s[i].port);
        }
        crate::assoc::assoc_last(k, i);
    }
    if by_port(s).contains_key(port) {
        crate::assoc::assoc_holds_a_pair(k, port);
        let at = choose|at: int| 0 <= at < k.len() && #[trigger] k[at] == (port, by_port(s)[port]);
        assert(s[at] == by_port(s)[port]);
        assert(s[at].port == port);
    }
}

/// Of declared and live entries the live one of a port is kept, and a declared one where
/// there is no live one; every entry that is kept is one of them, and each port has one.
pub proof fn live_entries_win(declared: Seq<PortEntry>, active: Seq<PortEntry>, merged: Seq<PortEntry>, port: u16)
    requires
        ports_ascending(merged),
        by_port(merged) == by_port(declared).union_prefer_right(by_port(active)),
    ensures
        by_port(active).contains_key(port) ==> merged.contains(by_port(active)[port]),
        by_port(declared).contains_key(port) && !by_port(active).contains_key(port) ==> merged.contains(
            by_port(declared)[port],
        ),
        forall|i: int| 0 <= i < merged.len() ==> active.contains(#[trigger] merged[i]) || declared.contains(merged[i]),
{
    the_last_entry_of_a_port_counts(merged, 0, port);
    assert forall|i: int| 0 <= i < merged.len() implies active.contains(#[trigger] merged[i]) || declared.contains(
        merged[i],
    ) by {
        let p = merged[i].port;
        assert forall|j: int| i < j < merged.len() implies (#[trigger] merged[j]).port != merged[i].port by {}
        the_last_entry_of_a_port_counts(merged, i, p);
        the_last_entry_of_a_port_counts(active, 0, p);
        the_last_entry_of_a_port_counts(declared, 0, p);
    }
}

/// The site of a forwarded port is that of its host port; it has a name of its own exactly
/// where the project's map has the port's number.
pub proof fn sites_are_of_host_ports(names: Seq<(String, String)>, p: PortMapping, e: PortEntry)
    requires
        site_entry(crate::assoc::pair_map(names), p, e),
    ensures
        e.port == p.host,
        e.keepalive is None,
        e.custom_name is Some <==> exists|i: int|
            0 <= i < names.len() && #[trigger] names[i].0@ == crate::number::decimal_of(p.host as nat),
{
    crate::assoc::pair_map_has(names, crate::number::decimal_of(p.host as nat));
}

/// The sites have the names that the project gives: the last that a port is given counts,
/// and without names there are none.
pub proof fn sites_have_the_names_that_were_given(config: DevcontainerConfig, names: Vec<(String, String)>, i: int)
    ensures
        config.caddy is None ==> forall|port: Seq<char>| !#[trigger] site_names(config).contains_key(port),
        config.caddy == Some(names) && 0 <= i < names@.len() && (forall|j: int|
            i < j < names@.len() ==> #[trigger] names@[j].0@ != names@[i].0@) ==> site_names(config).contains_key(
            names@[i].0@,
        ) && site_names(config)[names@[i].0@] == names@[i].1@,
{
    let s = crate::assoc::pair_texts(names@);
    if config.caddy == Some(names) && 0 <= i < names@.len() && (forall|j: int|
        i < j < names@.len() ==> #[trigger] names@[j].0@ != names@[i].0@) {
        assert forall|j: int| i < j < s.len() implies #[trigger] s[j].0 != s[i].0 by {
            assert(names@[j].0@ != names@[i].0@);
        }
        crate::assoc::assoc_last(s, i);
    }
}

} // verus!
