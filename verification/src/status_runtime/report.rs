//! The whole runtime section, as text and as JSON.
use vstd::prelude::*;

use crate::json::{array_value, json_of, jsons, null_value, object_value, Json};
use crate::status_runtime::checks::{
    check_table, render_checks_table, row_json, row_views, CheckRow, CheckStatus, RowView,
};
use crate::status_runtime::facts::{
    build_facts, fact_json, fact_rows, fact_table, fact_views, json_text_opt, opt_text_value,
    render_facts_table, Fact, FactView, HostAccess,
};
use crate::text::{cat3, join, owned, text_opt, texts};

verus! {

/// The static facts and, where a container is running, the checks made in it.
#[derive(Debug, PartialEq, Eq)]
pub struct RuntimeReport {
    pub socket_path: Option<String>,
    pub daemon_version: Option<String>,
    pub access: HostAccess,
    pub checks: Option<Vec<CheckRow>>,
    pub mount_warning: Option<String>,
}

/// What is said of a flavor without a host alias.
pub open spec fn no_alias_note() -> Seq<char> {
    "This flavor has no host alias, so every integration that calls back to the host is off: the cmux agent relay and the SSH agent relay alike."@
}

/// What is said where no container is running.
pub open spec fn no_container_hint() -> Seq<char> {
    "The live checks need a running container.\n\n  dev up\n\nThen try `dev status` again."@
}

/// What to do about a check, if it failed and something can be done.
pub open spec fn remedy(row: RowView) -> Option<Seq<char>> {
    if row.status is Failed {
        row.remediation
    } else {
        None
    }
}

/// The sections of the report, in order.
pub open spec fn sections(report: RuntimeReport) -> Seq<Seq<char>> {
    let facts = seq![
        fact_table(fact_rows(report.access, text_opt(report.socket_path), text_opt(report.daemon_version))),
    ];
    let alias = if report.access.gateway_alias is None {
        facts.push(no_alias_note())
    } else {
        facts
    };
    let checks = match report.checks {
        Some(rows) => alias.push(check_table(row_views(rows@))) + crate::model::gathered(
            row_views(rows@),
            |r: RowView| remedy(r),
        ),
        None => alias.push(no_container_hint()),
    };
    match report.mount_warning {
        Some(warning) => checks.push(warning@),
        None => checks,
    }
}

/// The documents of the fact rows.
pub open spec fn fact_jsons(rows: Seq<FactView>) -> Seq<Json> {
    rows.map_values(|f: FactView| fact_json(f))
}

/// The documents of the check rows.
pub open spec fn row_jsons(rows: Seq<RowView>) -> Seq<Json> {
    rows.map_values(|r: RowView| row_json(r))
}

/// The report as JSON.
pub open spec fn report_json(report: RuntimeReport) -> Json {
    Json::Object(
        seq![
            ("socket"@, json_text_opt(text_opt(report.socket_path))),
            ("flavor"@, json_text_opt(text_opt(report.access.flavor))),
            ("daemonVersion"@, json_text_opt(text_opt(report.daemon_version))),
            (
                "facts"@,
                Json::Array(
                    fact_jsons(
                        fact_rows(
                            report.access,
                            text_opt(report.socket_path),
                            text_opt(report.daemon_version),
                        ),
                    ),
                ),
            ),
            (
                "checks"@,
                match report.checks {
                    Some(rows) => Json::Array(row_jsons(row_views(rows@))),
                    None => Json::Null,
                },
            ),
            ("mountWarning"@, json_text_opt(text_opt(report.mount_warning))),
        ],
    )
}

/// Push a text.
fn push_section(out: &mut Vec<String>, s: String)
    ensures
        texts(final(out)@) == texts(old(out)@).push(s@),
{
    let ghost before = texts(out@);
    out.push(s);
    assert(texts(out@) == before.push(s@));
}

fn push_remedies(out: &mut Vec<String>, rows: &Vec<CheckRow>)
    ensures
        texts(final(out)@) == texts(old(out)@) + crate::model::gathered(
            row_views(rows@),
            |r: RowView| remedy(r),
        ),
{
    let ghost f = |r: RowView| remedy(r);
    let ghost all = row_views(rows@);
    let ghost before = texts(out@);
    let mut i: usize = 0;
    assert(before + crate::model::gathered(all.take(0), f) == before);
    while i < rows.len()
        invariant
            f == (|r: RowView| remedy(r)),
            all == row_views(rows@),
            i <= rows@.len(),
            texts(out@) == before + crate::model::gathered(all.take(i as int), f),
        decreases rows@.len() - i,
    {
        proof {
            crate::model::gathered_step(all, f, i as int);
            assert(all[i as int] == rows@[i as int]@);
        }
        if rows[i].status == CheckStatus::Failed {
            match &rows[i].remediation {
                Some(what) => {
                    push_section(out, what.clone());
                    assert(before + crate::model::gathered(all.take(i as int), f).push(what@) == (before
                        + crate::model::gathered(all.take(i as int), f)).push(what@));
                },
                None => {},
            }
        }
        i = i + 1;
    }
    assert(all.take(all.len() as int) == all);
}

impl RuntimeReport {
    /// The fact rows.
    pub fn facts(&self) -> (r: Vec<Fact>)
        ensures
            fact_views(r@) == fact_rows(
                self.access,
                text_opt(self.socket_path),
                text_opt(self.daemon_version),
            ),
    {
        build_facts(&self.access, &self.socket_path, &self.daemon_version)
    }

    /// The report as text: the facts, the checks, and what to do about those
    /// that failed.
    pub fn render(&self) -> (r: String)
        ensures
            r@ == "\n"@ + crate::text::joined(sections(*self), "\n\n"@) + "\n"@,
    {
        let facts = self.facts();
        let table = render_facts_table(&facts);
        let ghost first = table@;
        let mut out: Vec<String> = vec![table];
        assert(texts(out@) =~= seq![first]);
        if self.access.gateway_alias.is_none() {
            push_section(
                &mut out,
                owned(
                    "This flavor has no host alias, so every integration that calls back to the host is off: the cmux agent relay and the SSH agent relay alike.",
                ),
            );
        }
        match &self.checks {
            Some(rows) => {
                push_section(&mut out, render_checks_table(rows));
                push_remedies(&mut out, rows);
            },
            None => {
                push_section(
                    &mut out,
                    owned(
                        "The live checks need a running container.\n\n  dev up\n\nThen try `dev status` again.",
                    ),
                );
            },
        }
        match &self.mount_warning {
            Some(warning) => {
                push_section(&mut out, warning.clone());
            },
            None => {},
        }
        let body = join(&out, "\n\n");
        cat3("\n", body.as_str(), "\n")
    }

    fn facts_json(&self) -> (r: serde_json::Value)
        ensures
            json_of(r) == Json::Array(
                fact_jsons(
                    fact_rows(self.access, text_opt(self.socket_path), text_opt(self.daemon_version)),
                ),
            ),
    {
        let facts = self.facts();
        let ghost all = fact_jsons(fact_views(facts@));
        let mut out: Vec<serde_json::Value> = Vec::new();
        let mut i: usize = 0;
        assert(jsons(out@) == all.take(0));
        while i < facts.len()
            invariant
                all == fact_jsons(fact_views(facts@)),
                i <= facts@.len(),
                jsons(out@) == all.take(i as int),
            decreases facts@.len() - i,
        {
            let ghost before = jsons(out@);
            let one = facts[i].to_json();
            out.push(one);
            i = i + 1;
            proof {
                assert(jsons(out@) == before.push(json_of(one)));
                assert(json_of(one) == all[i - 1]);
                assert(all.take(i as int) == before.push(all[i - 1]));
            }
        }
        assert(all.take(all.len() as int) == all);
        array_value(out)
    }

    fn checks_json(&self) -> (r: serde_json::Value)
        ensures
            json_of(r) == match self.checks {
                Some(rows) => Json::Array(row_jsons(row_views(rows@))),
                None => Json::Null,
            },
    {
        match &self.checks {
            None => null_value(),
            Some(rows) => {
                let ghost all = row_jsons(row_views(rows@));
                let mut out: Vec<serde_json::Value> = Vec::new();
                let mut i: usize = 0;
                assert(jsons(out@) == all.take(0));
                while i < rows.len()
                    invariant
                        all == row_jsons(row_views(rows@)),
                        i <= rows@.len(),
                        jsons(out@) == all.take(i as int),
                    decreases rows@.len() - i,
                {
                    let ghost before = jsons(out@);
                    let one = rows[i].to_json();
                    out.push(one);
                    i = i + 1;
                    proof {
                        assert(jsons(out@) == before.push(json_of(one)));
                        assert(json_of(one) == all[i - 1]);
                        assert(all.take(i as int) == before.push(all[i - 1]));
                    }
                }
                assert(all.take(all.len() as int) == all);
                array_value(out)
            },
        }
    }

    /// The report as JSON.
    pub fn to_json(&self) -> (r: serde_json::Value)
        ensures
            json_of(r) == report_json(*self),
    {
        let members: Vec<(String, serde_json::Value)> = vec![
            (owned("socket"), opt_text_value(&self.socket_path)),
            (owned("flavor"), opt_text_value(&self.access.flavor)),
            (owned("daemonVersion"), opt_text_value(&self.daemon_version)),
            (owned("facts"), self.facts_json()),
            (owned("checks"), self.checks_json()),
            (owned("mountWarning"), opt_text_value(&self.mount_warning)),
        ];
        proof {
            assert(crate::json::members_of(members@) =~= report_json(*self)->Object_0);
            reveal_strlit("socket");
            reveal_strlit("flavor");
            reveal_strlit("daemonVersion");
            reveal_strlit("facts");
            reveal_strlit("checks");
            reveal_strlit("mountWarning");
            assert("socket"@.len() == 6 && "socket"@[0] == 's');
            assert("flavor"@.len() == 6 && "flavor"@[0] == 'f');
            assert("daemonVersion"@.len() == 13);
            assert("facts"@.len() == 5);
            assert("checks"@.len() == 6 && "checks"@[0] == 'c');
            assert("mountWarning"@.len() == 12);
        }
        object_value(members)
    }
}

/// Nothing is said about what to do for a check that did not fail.
pub proof fn render_offers_remedies_only_for_failures(rows: Seq<RowView>, what: Seq<char>)
    requires
        crate::model::gathered(rows, |r: RowView| remedy(r)).contains(what),
    ensures
        exists|i: int|
            0 <= i < rows.len() && (#[trigger] rows[i]).status is Failed && rows[i].remediation == Some(what),
{
    let f = |r: RowView| remedy(r);
    crate::model::gathered_holds(rows, f, what);
    let i = choose|i: int| 0 <= i < rows.len() && f(#[trigger] rows[i]) == Some(what);
    assert(rows[i].status is Failed);
}

/// Every remedy for a check that failed is in the report, once the checks were made.
pub proof fn every_failure_has_its_remedy(report: RuntimeReport, i: int)
    requires
        report.checks is Some,
        0 <= i < report.checks->Some_0@.len(),
        report.checks->Some_0@[i]@.status is Failed,
        report.checks->Some_0@[i]@.remediation is Some,
    ensures
        sections(report).contains(report.checks->Some_0@[i]@.remediation->Some_0),
{
    let rows = row_views(report.checks->Some_0@);
    let what = rows[i].remediation->Some_0;
    let f = |r: RowView| remedy(r);
    crate::model::gathered_holds(rows, f, what);
    assert(f(rows[i]) == Some(what));
    let remedies = crate::model::gathered(rows, f);
    let k = choose|k: int| 0 <= k < remedies.len() && remedies[k] == what;
    let facts = seq![
        fact_table(fact_rows(report.access, text_opt(report.socket_path), text_opt(report.daemon_version))),
    ];
    let alias = if report.access.gateway_alias is None {
        facts.push(no_alias_note())
    } else {
        facts
    };
    assert(sections(report)[alias.len() + 1 + k] == what);
}

/// What the report holds: the facts first; a note where there is no alias; then the table
/// of the checks, or how to have them made; and the warning about mounts at the end, where
/// there is one.
pub proof fn what_the_report_holds(report: RuntimeReport)
    ensures
        ({
            let all = sections(report);
            let at = if report.access.gateway_alias is None {
                2int
            } else {
                1int
            };
            &&& all[0] == fact_table(
                fact_rows(report.access, text_opt(report.socket_path), text_opt(report.daemon_version)),
            )
            &&& report.access.gateway_alias is None ==> all[1]
                == "This flavor has no host alias, so every integration that calls back to the host is off: the cmux agent relay and the SSH agent relay alike."@
            &&& report.checks matches Some(rows) ==> all[at] == check_table(row_views(rows@))
            &&& report.checks is None ==> all[at]
                == "The live checks need a running container.\n\n  dev up\n\nThen try `dev status` again."@
            &&& report.checks is None && report.mount_warning is None ==> all.len() == at + 1
            &&& report.mount_warning matches Some(warning) ==> all.last() == warning@
        }),
{
}

/// The report as JSON has the facts and the checks in their order, and null for what is not
/// known or was not made.
pub proof fn the_report_is_told_by_its_members(report: RuntimeReport)
    ensures
        ({
            let document = report_json(report);
            let rows = fact_rows(report.access, text_opt(report.socket_path), text_opt(report.daemon_version));
            &&& crate::json::json_member(document, "socket"@) == Some(
                match report.socket_path {
                    Some(path) => Json::Text(path@),
                    None => Json::Null,
                },
            )
            &&& crate::json::json_member(document, "flavor"@) == Some(
                match report.access.flavor {
                    Some(flavor) => Json::Text(flavor@),
                    None => Json::Null,
                },
            )
            &&& crate::json::json_member(document, "daemonVersion"@) == Some(
                match report.daemon_version {
                    Some(version) => Json::Text(version@),
                    None => Json::Null,
                },
            )
            &&& crate::json::json_member(document, "mountWarning"@) == Some(
                match report.mount_warning {
                    Some(warning) => Json::Text(warning@),
                    None => Json::Null,
                },
            )
            &&& crate::json::json_member(document, "facts"@) matches Some(Json::Array(facts)) && facts.len() == 9
                && forall|i: int| 0 <= i < 9 ==> #[trigger] facts[i] == fact_json(rows[i])
            &&& report.checks is None ==> crate::json::json_member(document, "checks"@) == Some(Json::Null)
            &&& report.checks matches Some(checks) ==> crate::json::json_member(document, "checks"@) == Some(
                Json::Array(Seq::new(checks@.len(), |i: int| row_json(checks@[i]@))),
            )
        }),
{
    reveal_strlit("socket");
    reveal_strlit("flavor");
    reveal_strlit("daemonVersion");
    reveal_strlit("facts");
    reveal_strlit("checks");
    reveal_strlit("mountWarning");
    assert("socket"@.len() == 6 && "flavor"@.len() == 6 && "daemonVersion"@.len() == 13 && "facts"@.len() == 5);
    assert("checks"@.len() == 6 && "mountWarning"@.len() == 12);
    assert("socket"@[0] != "flavor"@[0] && "socket"@[0] != "checks"@[0] && "flavor"@[0] != "checks"@[0]);
    let members = report_json(report)->Object_0;
    crate::status::laws::a_member_is_found(members, 0);
    crate::status::laws::a_member_is_found(members, 1);
    crate::status::laws::a_member_is_found(members, 2);
    crate::status::laws::a_member_is_found(members, 3);
    crate::status::laws::a_member_is_found(members, 4);
    crate::status::laws::a_member_is_found(members, 5);
    if let Some(checks) = report.checks {
        assert(row_jsons(row_views(checks@)) =~= Seq::new(checks@.len(), |i: int| row_json(checks@[i]@)));
    }
}

} // verus!
