//! The static facts: the daemon, and what a container on it can reach.
use vstd::prelude::*;

use crate::json::{json_of, null_value, object_value, text_value, Json};
use crate::model::copy_opt;
use crate::text::{join, owned, pad, padded, text_opt, texts};

verus! {

/// Which answers were measured, rather than looked up.
#[derive(Clone, Copy, Debug, PartialEq, Eq, Structural)]
pub struct Probed {
    pub gateway_alias: bool,
    pub reaches_host_loopback: bool,
}

/// What a container can reach of its host.
#[derive(Debug, PartialEq, Eq)]
pub struct HostAccess {
    /// The name of the daemon's flavor, if it is known.
    pub flavor: Option<String>,
    /// The name that containers find the host under.
    pub gateway_alias: Option<String>,
    pub injects_alias: bool,
    pub reaches_host_loopback: bool,
    pub socket_mounts_work: bool,
    pub host_sockets_mount: bool,
    pub squashes_ownership: bool,
    pub probed: Probed,
}

impl HostAccess {
    /// The access with the host's loopback measured.
    pub open spec fn loopback_verified(self, reachable: bool) -> HostAccess {
        HostAccess {
            reaches_host_loopback: reachable,
            probed: Probed { reaches_host_loopback: true, ..self.probed },
            ..self
        }
    }

    /// The access with the host's loopback measured.
    pub fn with_loopback_verified(self, reachable: bool) -> (r: HostAccess)
        ensures
            r == self.loopback_verified(reachable),
    {
        let mut access = self;
        access.reaches_host_loopback = reachable;
        access.probed = Probed {
            gateway_alias: access.probed.gateway_alias,
            reaches_host_loopback: true,
        };
        access
    }

    /// A copy.
    pub fn copy(&self) -> (r: HostAccess)
        ensures
            r == *self,
    {
        HostAccess {
            flavor: copy_opt(&self.flavor),
            gateway_alias: copy_opt(&self.gateway_alias),
            injects_alias: self.injects_alias,
            reaches_host_loopback: self.reaches_host_loopback,
            socket_mounts_work: self.socket_mounts_work,
            host_sockets_mount: self.host_sockets_mount,
            squashes_ownership: self.squashes_ownership,
            probed: self.probed,
        }
    }
}

/// One row of the fact table.
#[derive(Debug, PartialEq, Eq)]
pub struct Fact {
    pub label: String,
    pub value: String,
    /// Where the answer comes from; nothing for the rows about the daemon's
    /// connection.
    pub source: Option<String>,
}

/// What a row says.
#[verifier::ext_equal]
pub struct FactView {
    pub label: Seq<char>,
    pub value: Seq<char>,
    pub source: Option<Seq<char>>,
}

impl View for Fact {
    type V = FactView;

    open spec fn view(&self) -> FactView {
        FactView { label: self.label@, value: self.value@, source: text_opt(self.source) }
    }
}

/// What rows say.
pub open spec fn fact_views(s: Seq<Fact>) -> Seq<FactView> {
    s.map_values(|f: Fact| f@)
}

/// One of two answers.
pub open spec fn either(value: bool, yes: Seq<char>, no: Seq<char>) -> Seq<char> {
    if value {
        yes
    } else {
        no
    }
}

/// One of two answers.
pub fn yes_no<'a>(value: bool, yes: &'a str, no: &'a str) -> (r: &'a str)
    ensures
        r@ == either(value, yes@, no@),
{
    if value {
        yes
    } else {
        no
    }
}

/// A text, or what stands for none.
pub open spec fn or_else(value: Option<Seq<char>>, none: Seq<char>) -> Seq<char> {
    match value {
        Some(s) => s,
        None => none,
    }
}

fn text_or(value: &Option<String>, none: &str) -> (r: String)
    ensures
        r@ == or_else(text_opt(*value), none@),
{
    match value {
        Some(s) => s.clone(),
        None => owned(none),
    }
}

pub open spec fn fact(label: Seq<char>, value: Seq<char>, source: Option<Seq<char>>) -> FactView {
    FactView { label, value, source }
}

fn sourced(label: &str, value: &str, source: &str) -> (r: Fact)
    ensures
        r@ == fact(label@, value@, Some(source@)),
{
    Fact { label: owned(label), value: owned(value), source: Some(owned(source)) }
}

/// The three rows about the daemon's connection.
pub open spec fn daemon_rows(
    flavor: Option<Seq<char>>,
    socket_path: Option<Seq<char>>,
    daemon_version: Option<Seq<char>>,
) -> Seq<FactView> {
    seq![
        fact("socket"@, or_else(socket_path, "n/a"@), None),
        fact("flavor"@, or_else(flavor, "unknown"@), None),
        fact("daemon version"@, or_else(daemon_version, "unknown"@), None),
    ]
}

/// The three rows about the daemon's connection.
pub fn daemon_facts(flavor: &Option<String>, socket_path: &Option<String>, daemon_version: &Option<String>) -> (r: Vec<
    Fact,
>)
    ensures
        fact_views(r@) == daemon_rows(text_opt(*flavor), text_opt(*socket_path), text_opt(*daemon_version)),
{
    let v: Vec<Fact> = vec![
        Fact { label: owned("socket"), value: text_or(socket_path, "n/a"), source: None },
        Fact { label: owned("flavor"), value: text_or(flavor, "unknown"), source: None },
        Fact { label: owned("daemon version"), value: text_or(daemon_version, "unknown"), source: None },
    ];
    assert(fact_views(v@) =~= daemon_rows(
        text_opt(*flavor),
        text_opt(*socket_path),
        text_opt(*daemon_version),
    ));
    v
}

/// The six rows about what a container can reach.
pub open spec fn access_rows(access: HostAccess) -> Seq<FactView> {
    seq![
        fact(
            "host alias"@,
            or_else(text_opt(access.gateway_alias), "none"@),
            Some(either(access.probed.gateway_alias, "probe"@, "table"@)),
        ),
        fact(
            "alias injected"@,
            either(access.injects_alias, "yes (by the daemon)"@, "no"@),
            Some("table"@),
        ),
        fact(
            "host loopback"@,
            either(access.reaches_host_loopback, "reachable"@, "unreachable"@),
            Some(either(access.probed.reaches_host_loopback, "probe"@, "table"@)),
        ),
        fact(
            "docker socket mount"@,
            either(access.socket_mounts_work, "works"@, "does not work"@),
            Some("table"@),
        ),
        fact(
            "host socket mounts"@,
            either(access.host_sockets_mount, "work"@, "do not work"@),
            Some("table"@),
        ),
        fact(
            "ownership"@,
            either(access.squashes_ownership, "squashed"@, "not squashed"@),
            Some("table"@),
        ),
    ]
}

/// The six rows about what a container can reach. Only two of them are ever
/// measured.
pub fn access_facts(access: &HostAccess) -> (r: Vec<Fact>)
    ensures
        fact_views(r@) == access_rows(*access),
{
    let alias = text_or(&access.gateway_alias, "none");
    let v: Vec<Fact> = vec![
        sourced("host alias", alias.as_str(), yes_no(access.probed.gateway_alias, "probe", "table")),
        sourced("alias injected", yes_no(access.injects_alias, "yes (by the daemon)", "no"), "table"),
        sourced(
            "host loopback",
            yes_no(access.reaches_host_loopback, "reachable", "unreachable"),
            yes_no(access.probed.reaches_host_loopback, "probe", "table"),
        ),
        sourced(
            "docker socket mount",
            yes_no(access.socket_mounts_work, "works", "does not work"),
            "table",
        ),
        sourced(
            "host socket mounts",
            yes_no(access.host_sockets_mount, "work", "do not work"),
            "table",
        ),
        sourced("ownership", yes_no(access.squashes_ownership, "squashed", "not squashed"), "table"),
    ];
    assert(fact_views(v@) =~= access_rows(*access));
    v
}

/// All rows: the daemon's, then those of what a container can reach.
pub open spec fn fact_rows(
    access: HostAccess,
    socket_path: Option<Seq<char>>,
    daemon_version: Option<Seq<char>>,
) -> Seq<FactView> {
    daemon_rows(text_opt(access.flavor), socket_path, daemon_version) + access_rows(access)
}

/// All rows: the daemon's, then those of what a container can reach.
pub fn build_facts(access: &HostAccess, socket_path: &Option<String>, daemon_version: &Option<String>) -> (r: Vec<
    Fact,
>)
    ensures
        fact_views(r@) == fact_rows(*access, text_opt(*socket_path), text_opt(*daemon_version)),
{
    let mut facts = daemon_facts(&access.flavor, socket_path, daemon_version);
    let mut more = access_facts(access);
    let ghost a = facts@;
    let ghost b = more@;
    facts.append(&mut more);
    assert(fact_views(facts@) == fact_views(a) + fact_views(b));
    facts
}

/// There are always the same nine rows, under the same labels, whatever the
/// answers.
pub proof fn nine_rows_whatever_the_answers(
    access: HostAccess,
    socket_path: Option<Seq<char>>,
    daemon_version: Option<Seq<char>>,
    other: HostAccess,
    other_socket: Option<Seq<char>>,
    other_version: Option<Seq<char>>,
)
    ensures
        fact_rows(access, socket_path, daemon_version).len() == 9,
        forall|i: int|
            0 <= i < 9 ==> (#[trigger] fact_rows(access, socket_path, daemon_version)[i]).label == fact_rows(
                other,
                other_socket,
                other_version,
            )[i].label,
{
}

/// A row of the table: the label and the value in columns, then the source.
pub open spec fn fact_line(f: FactView) -> Seq<char> {
    match f.source {
        Some(source) => padded(f.label, 21) + padded(f.value, 41) + source,
        None => padded(f.label, 21) + f.value,
    }
}

impl Fact {
    /// The row of the table.
    pub fn render(&self) -> (r: String)
        ensures
            r@ == fact_line(self@),
    {
        let mut out = pad(self.label.as_str(), 21);
        match &self.source {
            Some(source) => {
                let value = pad(self.value.as_str(), 41);
                out.append(value.as_str());
                out.append(source.as_str());
            },
            None => {
                out.append(self.value.as_str());
            },
        }
        out
    }
}

/// An optional text as JSON: null for none.
pub open spec fn json_text_opt(s: Option<Seq<char>>) -> Json {
    match s {
        Some(s) => Json::Text(s),
        None => Json::Null,
    }
}

/// An optional text as JSON: null for none.
pub fn opt_text_value(s: &Option<String>) -> (r: serde_json::Value)
    ensures
        json_of(r) == json_text_opt(text_opt(*s)),
{
    match s {
        Some(s) => text_value(s.clone()),
        None => null_value(),
    }
}

/// A row as JSON.
pub open spec fn fact_json(f: FactView) -> Json {
    Json::Object(
        seq![
            ("label"@, Json::Text(f.label)),
            ("value"@, Json::Text(f.value)),
            ("source"@, json_text_opt(f.source)),
        ],
    )
}

impl Fact {
    /// The row as JSON.
    pub fn to_json(&self) -> (r: serde_json::Value)
        ensures
            json_of(r) == fact_json(self@),
    {
        let members: Vec<(String, serde_json::Value)> = vec![
            (owned("label"), text_value(self.label.clone())),
            (owned("value"), text_value(self.value.clone())),
            (owned("source"), opt_text_value(&self.source)),
        ];
        proof {
            let m = crate::json::members_of(members@);
            assert(m =~= fact_json(self@)->Object_0);
            reveal_strlit("label");
            reveal_strlit("value");
            reveal_strlit("source");
            assert("label"@.len() == 5 && "label"@[0] == 'l');
            assert("value"@.len() == 5 && "value"@[0] == 'v');
            assert("source"@.len() == 6);
        }
        object_value(members)
    }
}

/// The fact table: a head, then a row each.
pub open spec fn fact_table(facts: Seq<FactView>) -> Seq<char> {
    crate::text::joined(
        seq![padded("FACT"@, 21) + padded("VALUE"@, 41) + "SOURCE"@] + facts.map_values(
            |f: FactView| fact_line(f),
        ),
        "\n"@,
    )
}

/// The fact table.
pub fn render_facts_table(facts: &Vec<Fact>) -> (r: String)
    ensures
        r@ == fact_table(fact_views(facts@)),
{
    let ghost rows = fact_views(facts@).map_values(|f: FactView| fact_line(f));
    let mut head = pad("FACT", 21);
    let value = pad("VALUE", 41);
    head.append(value.as_str());
    head.append("SOURCE");
    let ghost first = seq![head@];
    let mut lines: Vec<String> = vec![head];
    assert(texts(lines@) =~= first + rows.take(0));
    let mut i: usize = 0;
    while i < facts.len()
        invariant
            rows == fact_views(facts@).map_values(|f: FactView| fact_line(f)),
            i <= facts@.len(),
            texts(lines@) == first + rows.take(i as int),
        decreases facts@.len() - i,
    {
        let ghost before = texts(lines@);
        let line = facts[i].render();
        lines.push(line);
        i = i + 1;
        proof {
            assert(texts(lines@) == before.push(line@));
            assert(line@ == rows[i - 1]);
            assert(first + rows.take(i as int) == before.push(rows[i - 1]));
        }
    }
    assert(rows.take(rows.len() as int) == rows);
    join(&lines, "\n")
}

/// Measuring the host's loopback changes the answer to that question, and where it comes
/// from, and nothing else.
pub proof fn measuring_changes_one_answer(access: HostAccess, reachable: bool)
    ensures
        ({
            let measured = access.loopback_verified(reachable);
            &&& measured.reaches_host_loopback == reachable
            &&& measured.probed.reaches_host_loopback
            &&& measured.probed.gateway_alias == access.probed.gateway_alias
            &&& measured.flavor == access.flavor
            &&& measured.gateway_alias == access.gateway_alias
            &&& measured.injects_alias == access.injects_alias
            &&& measured.socket_mounts_work == access.socket_mounts_work
            &&& measured.host_sockets_mount == access.host_sockets_mount
            &&& measured.squashes_ownership == access.squashes_ownership
        }),
{
}

/// The rows about the daemon say what is known of it, and otherwise that it is not.
pub proof fn what_the_daemon_rows_say(
    access: HostAccess,
    socket: Option<Seq<char>>,
    version: Option<Seq<char>>,
)
    ensures
        ({
            let rows = fact_rows(access, socket, version);
            &&& rows[0].label == "socket"@ && rows[0].source is None
            &&& rows[0].value == if socket is Some {
                socket->Some_0
            } else {
                "n/a"@
            }
            &&& rows[1].label == "flavor"@ && rows[1].source is None
            &&& access.flavor matches Some(flavor) ==> rows[1].value == flavor@
            &&& access.flavor is None ==> rows[1].value == "unknown"@
            &&& rows[2].label == "daemon version"@ && rows[2].source is None
            &&& rows[2].value == if version is Some {
                version->Some_0
            } else {
                "unknown"@
            }
        }),
{
}

/// The rows about what a container can reach say yes where it can and no where it cannot;
/// only the alias and the loopback can come from a probe, and every other answer is looked
/// up.
pub proof fn what_the_access_rows_say(
    access: HostAccess,
    socket: Option<Seq<char>>,
    version: Option<Seq<char>>,
)
    ensures
        ({
            let rows = fact_rows(access, socket, version);
            &&& rows[3].label == "host alias"@
            &&& access.gateway_alias matches Some(alias) ==> rows[3].value == alias@
            &&& access.gateway_alias is None ==> rows[3].value == "none"@
            &&& rows[3].source == Some(if access.probed.gateway_alias { "probe"@ } else { "table"@ })
            &&& rows[4].label == "alias injected"@ && rows[4].source == Some("table"@)
            &&& access.injects_alias ==> rows[4].value == "yes (by the daemon)"@
            &&& !access.injects_alias ==> rows[4].value == "no"@
            &&& rows[5].label == "host loopback"@
            &&& access.reaches_host_loopback ==> rows[5].value == "reachable"@
            &&& !access.reaches_host_loopback ==> rows[5].value == "unreachable"@
            &&& rows[5].source == Some(if access.probed.reaches_host_loopback { "probe"@ } else { "table"@ })
            &&& rows[6].label == "docker socket mount"@ && rows[6].source == Some("table"@)
            &&& access.socket_mounts_work ==> rows[6].value == "works"@
            &&& !access.socket_mounts_work ==> rows[6].value == "does not work"@
            &&& rows[7].label == "host socket mounts"@ && rows[7].source == Some("table"@)
            &&& access.host_sockets_mount ==> rows[7].value == "work"@
            &&& !access.host_sockets_mount ==> rows[7].value == "do not work"@
            &&& rows[8].label == "ownership"@ && rows[8].source == Some("table"@)
            &&& access.squashes_ownership ==> rows[8].value == "squashed"@
            &&& !access.squashes_ownership ==> rows[8].value == "not squashed"@
        }),
{
}

/// The columns of the table: the label from the first place on, the value from the
/// twenty-second and the source from the sixty-third, where what stands before leaves room.
pub proof fn fact_columns_line_up(f: FactView)
    requires
        f.label.len() <= 21,
        f.value.len() <= 41,
    ensures
        fact_line(f).take(f.label.len() as int) == f.label,
        fact_line(f).subrange(21, 21int + f.value.len()) == f.value,
        f.source matches Some(source) ==> fact_line(f).skip(62) == source,
        f.source is None ==> fact_line(f).len() == 21 + f.value.len(),
{
    assert(fact_line(f).take(f.label.len() as int) =~= f.label);
    assert(fact_line(f).subrange(21, 21int + f.value.len()) =~= f.value);
    if let Some(source) = f.source {
        assert(fact_line(f).skip(62) =~= source);
    }
}

/// The table is its head, and then a line for each row, in their order.
pub proof fn the_table_has_a_line_for_each_row(facts: Seq<FactView>, f: FactView)
    ensures
        fact_table(Seq::empty()) == padded("FACT"@, 21) + padded("VALUE"@, 41) + "SOURCE"@,
        fact_table(facts.push(f)) == fact_table(facts) + "\n"@ + fact_line(f),
{
    let head = seq![padded("FACT"@, 21) + padded("VALUE"@, 41) + "SOURCE"@];
    let line = |f: FactView| fact_line(f);
    let none = Seq::<FactView>::empty();
    assert(head + none.map_values(line) =~= head);
    let rows = head + facts.map_values(line);
    assert(head + facts.push(f).map_values(line) =~= rows.push(fact_line(f)));
    assert(rows.push(fact_line(f)).drop_last() =~= rows);
}

/// A row as JSON has the row's label and value, and its source or null.
pub proof fn a_row_is_told_by_its_members(f: FactView)
    ensures
        crate::json::json_member(fact_json(f), "label"@) == Some(Json::Text(f.label)),
        crate::json::json_member(fact_json(f), "value"@) == Some(Json::Text(f.value)),
        crate::json::json_member(fact_json(f), "source"@) == Some(
            match f.source {
                Some(source) => Json::Text(source),
                None => Json::Null,
            },
        ),
{
    reveal_strlit("label");
    reveal_strlit("value");
    reveal_strlit("source");
    assert("label"@.len() == 5 && "value"@.len() == 5 && "source"@.len() == 6);
    assert("label"@[0] != "value"@[0]);
    let members = fact_json(f)->Object_0;
    crate::status::laws::a_member_is_found(members, 0);
    crate::status::laws::a_member_is_found(members, 1);
    crate::status::laws::a_member_is_found(members, 2);
}

} // verus!
