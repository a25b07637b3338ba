//! What the report of an effective configuration says, in terms of what it is made of.
use vstd::prelude::*;

use crate::assoc::{assoc, distinct};
use crate::explain::report::{
    all_credits, asks_for_relay, credits, dropped_line, explained, head_text, layer_document, layer_line, layers_of, named,
    notes_text, origin_line, relay_document, relay_layer, relay_text, rows, run_on, run_on_step, ConfigSource,
    ExplainReport, Layer, LayerFile, LayerId, LayerRow, MergedConfig, RelayPermission, ALLOW_RELAY_PROPERTY, RELAY_PROPERTY,
};
use crate::explain::{in_order, resolved};
use crate::json::{json_member, json_of, json_text, Json};
use crate::text::{begins_with, finishes_with, occurs_at, occurs_in, padded};

verus! {

/// The layers of a direct project: the base file below, where it takes part, and the
/// project's own file above it.
pub proof fn layers_of_a_direct_project(
    config_path: String,
    credited: Vec<String>,
    base: LayerFile,
    include_base: bool,
)
    ensures
        ({
            let layers = layers_of(ConfigSource::Direct { config_path, credited }, base, include_base);
            &&& layers.len() == if include_base {
                2nat
            } else {
                1nat
            }
            &&& include_base ==> layers[0].id is Base && layers[0].file == base
            &&& layers.last().id is Project
            &&& layers.last().file.path == config_path
            &&& layers.last().file.present
            &&& layers.last().file.credited == credited
        }),
{
}

/// The layers of a recipe project: the template lowest, then the base file, where it takes
/// part, then the runtime's, and then the recipe's features and its customizations.
pub proof fn layers_of_a_recipe_project(
    recipe_path: String,
    template_name: String,
    template: LayerFile,
    runtime_name: String,
    runtime: LayerFile,
    features_name: String,
    features: Vec<String>,
    customizations: Vec<String>,
    base: LayerFile,
    include_base: bool,
)
    ensures
        ({
            let source = ConfigSource::Recipe {
                recipe_path,
                template_name,
                template,
                runtime_name,
                runtime,
                features_name,
                features,
                customizations,
            };
            let layers = layers_of(source, base, include_base);
            let at = if include_base {
                2int
            } else {
                1int
            };
            &&& layers.len() == at + 3
            &&& layers[0].id == LayerId::GlobalTemplate(template_name) && layers[0].file == template
            &&& include_base ==> layers[1].id is Base && layers[1].file == base
            &&& layers[at].id == LayerId::Runtime(runtime_name) && layers[at].file == runtime
            &&& layers[at + 1].id == LayerId::RecipeFeatures(features_name)
            &&& layers[at + 1].file.path == recipe_path && layers[at + 1].file.credited == features
            &&& layers[at + 2].id is RecipeCustomizations
            &&& layers[at + 2].file.path == recipe_path && layers[at + 2].file.credited == customizations
            &&& layers[at + 1].file.present && layers[at + 2].file.present
        }),
{
}

/// Each layer has its row, with its own id, file and presence.
pub proof fn each_layer_has_its_row(layers: Seq<Layer>, j: int)
    requires
        0 <= j < layers.len(),
    ensures
        rows(layers).len() == layers.len(),
        rows(layers)[j].id == layers[j].id,
        rows(layers)[j].path == layers[j].file.path,
        rows(layers)[j].present == layers[j].file.present,
{
}

/// Every path that a layer is credited with is credited to that layer.
pub proof fn every_path_is_credited_to_its_layer(layers: Seq<Layer>, j: int, k: int)
    requires
        0 <= j < layers.len(),
        0 <= k < layers[j].file.credited@.len(),
    ensures
        all_credits(layers).contains((layers[j].file.credited@[k], layers[j].id)),
    decreases layers.len(),
{
    let rest = layers.drop_last();
    let pair = (layers[j].file.credited@[k], layers[j].id);
    let all = all_credits(layers);
    if j < rest.len() {
        assert(rest[j] == layers[j]);
        every_path_is_credited_to_its_layer(rest, j, k);
        let at = choose|at: int| 0 <= at < all_credits(rest).len() && all_credits(rest)[at] == pair;
        assert(all[at] == pair);
    } else {
        assert(credits(layers.last())[k] == pair);
        assert(all[all_credits(rest).len() + k] == pair);
    }
}

// ---------------------------------------------------------------------------
// The relay
// ---------------------------------------------------------------------------

/// The properties that the relay is decided by.
pub proof fn the_properties_of_the_relay()
    ensures
        RELAY_PROPERTY@ == "sshAgent.relay"@,
        ALLOW_RELAY_PROPERTY@ == "sshAgent.allowRelay"@,
{
}

/// The relay is asked for by `true` under `sshAgent` and `relay`, and by nothing else.
pub proof fn what_asks_for_the_relay(config: Json)
    ensures
        asks_for_relay(config) <==> json_member(config, "sshAgent"@) is Some && json_member(
            json_member(config, "sshAgent"@)->Some_0,
            "relay"@,
        ) == Some(Json::Bool(true)),
{
}

/// The layer that asked for the relay is the one credited with that property.
pub proof fn who_asked_for_the_relay(origins: Seq<(String, LayerId)>, i: int)
    requires
        distinct(named(origins)),
    ensures
        0 <= i < origins.len() && origins[i].0@ == "sshAgent.relay"@ ==> relay_layer(origins) == Some(
            origins[i].1.name(),
        ),
        (forall|j: int| 0 <= j < origins.len() ==> (#[trigger] origins[j]).0@ != "sshAgent.relay"@) ==> relay_layer(
            origins,
        ) is None,
{
    let pairs = named(origins);
    crate::assoc::assoc_keys(pairs);
    if 0 <= i < origins.len() && origins[i].0@ == "sshAgent.relay"@ {
        assert(pairs[i].0 == RELAY_PROPERTY@);
        assert forall|j: int| i < j < pairs.len() implies #[trigger] pairs[j].0 != pairs[i].0 by {}
        crate::assoc::assoc_last(pairs, i);
    }
    if forall|j: int| 0 <= j < origins.len() ==> (#[trigger] origins[j]).0@ != "sshAgent.relay"@ {
        assert forall|j: int| 0 <= j < pairs.len() implies #[trigger] pairs[j].0 != RELAY_PROPERTY@ by {
            assert(origins[j].0@ != "sshAgent.relay"@);
        }
    }
}

/// The relay is said to be on exactly where it is allowed and asked for.
pub proof fn the_relay_takes_both(relay: RelayPermission, requested: bool, layer: Option<Seq<char>>)
    ensures
        ({
            let text = relay_text(relay, requested, layer);
            let document = relay_document(relay, requested, layer);
            &&& relay.allowed && requested ==> finishes_with(text, "\n#   effective      "@ + "on"@ + "\n"@)
            &&& !(relay.allowed && requested) ==> finishes_with(text, "\n#   effective      "@ + "off"@ + "\n"@)
            &&& json_member(document, "effective"@) == Some(Json::Bool(relay.allowed && requested))
            &&& relay.allowed ==> json_member(document, "allowedBy"@) == Some(Json::Text(relay.base@))
            &&& !relay.allowed ==> json_member(document, "allowedBy"@) == Some(Json::Null)
            &&& requested && layer is Some ==> json_member(document, "requestedBy"@) == Some(
                Json::Text(layer->Some_0),
            )
            &&& !requested || layer is None ==> json_member(document, "requestedBy"@) == Some(Json::Null)
        }),
{
    let text = relay_text(relay, requested, layer);
    let tail = "\n#   effective      "@ + (if relay.allowed && requested {
        "on"@
    } else {
        "off"@
    }) + "\n"@;
    assert(text.skip(text.len() - tail.len()) =~= tail);
    reveal_strlit("allowedBy");
    reveal_strlit("requestedBy");
    reveal_strlit("effective");
    assert("allowedBy"@.len() == 9 && "requestedBy"@.len() == 11 && "effective"@.len() == 9);
    assert("allowedBy"@[0] != "effective"@[0]);
    let members = relay_document(relay, requested, layer)->Object_0;
    crate::status::laws::a_member_is_found(members, 0);
    crate::status::laws::a_member_is_found(members, 1);
    crate::status::laws::a_member_is_found(members, 2);
}

/// The lines about the relay say which file allows it, or that it does not, and which layer
/// asks for it, if any does.
pub proof fn the_relay_is_accounted_for(relay: RelayPermission, requested: bool, layer: Option<Seq<char>>)
    ensures
        ({
            let text = relay_text(relay, requested, layer);
            &&& relay.allowed ==> occurs_in(
                relay.base@ + " ("@ + "sshAgent.allowRelay"@ + ")"@ + "\n#   requested by   "@,
                text,
            )
            &&& !relay.allowed ==> occurs_in(
                "not allowed ("@ + relay.base@ + " does not set "@ + "sshAgent.allowRelay"@ + ")"@,
                text,
            )
            &&& !requested ==> occurs_in("\n#   requested by   "@ + "not requested"@, text)
            &&& requested && layer is Some ==> occurs_in("\n#   requested by   "@ + layer->Some_0, text)
            &&& requested && layer is None ==> occurs_in(
                "\n#   requested by   "@ + "requested, layer unrecorded"@,
                text,
            )
        }),
{
    let text = relay_text(relay, requested, layer);
    let head =
        "# ssh agent relay (decided outside the merge; the permission is read from the base file alone):\n#   allowed by     "@;
    let allowed_by = if relay.allowed {
        relay.base@ + " ("@ + ALLOW_RELAY_PROPERTY@ + ")"@
    } else {
        "not allowed ("@ + relay.base@ + " does not set "@ + ALLOW_RELAY_PROPERTY@ + ")"@
    };
    let asked = "\n#   requested by   "@;
    let requested_by = if !requested {
        "not requested"@
    } else {
        match layer {
            Some(name) => name,
            None => "requested, layer unrecorded"@,
        }
    };
    let tail = "\n#   effective      "@ + (if relay.allowed && requested {
        "on"@
    } else {
        "off"@
    }) + "\n"@;
    assert(text =~= head + (allowed_by + asked) + (requested_by + tail));
    assert(text =~= head + allowed_by + (asked + requested_by + tail));
    assert(text =~= (head + allowed_by) + (asked + requested_by) + tail);
    crate::text::laws::parts_of_a_text(text, allowed_by + asked);
    crate::text::laws::parts_of_a_text(text, allowed_by);
    crate::text::laws::parts_of_a_text(text, asked + requested_by);
}

// ---------------------------------------------------------------------------
// As text
// ---------------------------------------------------------------------------

/// The line of a layer names the layer and its file, and says where the file is absent.
pub proof fn what_the_line_of_a_layer_says(layer: LayerRow)
    ensures
        begins_with(layer_line(layer), "#   "@ + layer.id.name()),
        layer.present ==> finishes_with(layer_line(layer), " "@ + layer.path@ + "\n"@),
        !layer.present ==> finishes_with(layer_line(layer), " "@ + layer.path@ + "   (absent)\n"@),
{
    let line = layer_line(layer);
    let name = layer.id.name();
    crate::text::laws::padding_fills_with_spaces(name, 24);
    let start = "#   "@ + name;
    assert(line.take(start.len() as int) =~= start) by {
        assert forall|i: int| 0 <= i < start.len() implies line[i] == start[i] by {
            if i >= "#   "@.len() {
                let k = i - "#   "@.len();
                assert(padded(name, 24)[k] == padded(name, 24).take(name.len() as int)[k]);
            }
        }
    }
    let end = if layer.present {
        "\n"@
    } else {
        "   (absent)\n"@
    };
    let tail = " "@ + layer.path@ + end;
    assert(line.skip(line.len() - tail.len()) =~= tail);
}

/// The line of a value gives the path, the value as JSON and the layer; a path that leads
/// nowhere has no line.
pub proof fn what_the_line_of_a_value_says(config: Json, path: Seq<char>, layer: Seq<char>)
    ensures
        resolved(config, path) matches Some(value) ==> origin_line(config, (path, layer)) == path + " = "@ + json_text(
            value,
        ) + "  <- "@ + layer + "\n"@,
        resolved(config, path) is None ==> origin_line(config, (path, layer)).len() == 0,
{
    reveal_strlit("");
    if let Some(value) = resolved(config, path) {
        let start = path + " = "@ + json_text(value) + "  <- "@;
        assert(start + (layer + "\n"@) =~= start + layer + "\n"@);
    }
}

/// A dropped key is named on its line.
pub proof fn what_the_line_of_a_dropped_key_says(key: Seq<char>)
    ensures
        begins_with(dropped_line(key), "# dropped by selector precedence: "@ + key),
{
    let start = "# dropped by selector precedence: "@ + key;
    assert(dropped_line(key).take(start.len() as int) =~= start);
}

/// Each part is in what the parts make up, in its place.
pub proof fn parts_run_on_in_their_order(parts: Seq<Seq<char>>, i: int)
    requires
        0 <= i < parts.len(),
    ensures
        occurs_at(parts[i], run_on(parts), run_on(parts.take(i)).len() as int),
    decreases parts.len(),
{
    let last = parts.len() - 1;
    run_on_step(parts, last);
    assert(parts.take(last + 1) =~= parts);
    let before = run_on(parts.take(last));
    if i < last {
        let rest = parts.take(last);
        parts_run_on_in_their_order(rest, i);
        assert(rest.take(i) =~= parts.take(i));
        let at = run_on(parts.take(i)).len() as int;
        assert(run_on(parts).subrange(at, at + parts[i].len()) =~= run_on(rest).subrange(at, at + parts[i].len()));
    } else {
        let at = before.len() as int;
        assert(run_on(parts).subrange(at, at + parts[i].len()) =~= parts[i]);
    }
}

/// The report begins with its head and ends with its notes; between them stand the layers
/// from the lowest, the values in the order of their paths, the dropped keys, and the
/// decision on the relay, in this order.
pub proof fn the_parts_of_the_report(report: ExplainReport)
    ensures
        ({
            let head = head_text(report.workspace@, report.kind@, report.runtime_layer@);
            let layers = report.layers_text();
            let values = report.values_text();
            let dropped = report.dropped_text();
            let relay = relay_text(report.relay, report.requested(), relay_layer(report.origins@));
            &&& begins_with(report.text(), head)
            &&& occurs_at(layers, report.text(), head.len() as int)
            &&& occurs_at(values, report.text(), (head.len() + layers.len()) as int)
            &&& occurs_at(dropped, report.text(), (head.len() + layers.len() + values.len()) as int)
            &&& occurs_at(relay, report.text(), (head.len() + layers.len() + values.len() + dropped.len()) as int)
            &&& finishes_with(report.text(), notes_text())
        }),
{
    let head = head_text(report.workspace@, report.kind@, report.runtime_layer@);
    let layers = report.layers_text();
    let values = report.values_text();
    let dropped = report.dropped_text();
    let relay = relay_text(report.relay, report.requested(), relay_layer(report.origins@));
    let notes = notes_text();
    let text = report.text();
    assert(text.take(head.len() as int) =~= head);
    let a = head.len() as int;
    assert(text.subrange(a, a + layers.len()) =~= layers);
    let b = a + layers.len();
    assert(text.subrange(b, b + values.len()) =~= values);
    let c = b + values.len();
    assert(text.subrange(c, c + dropped.len()) =~= dropped);
    let d = c + dropped.len();
    assert(text.subrange(d, d + relay.len()) =~= relay);
    assert(text.skip(text.len() - notes.len()) =~= notes);
}

// ---------------------------------------------------------------------------
// As JSON
// ---------------------------------------------------------------------------

/// A layer as JSON has the layer's name, its file, and whether that is there.
pub proof fn a_layer_is_told_by_its_members(layer: LayerRow)
    ensures
        json_member(layer_document(layer), "id"@) == Some(Json::Text(layer.id.name())),
        json_member(layer_document(layer), "path"@) == Some(Json::Text(layer.path@)),
        json_member(layer_document(layer), "present"@) == Some(Json::Bool(layer.present)),
{
    reveal_strlit("id");
    reveal_strlit("path");
    reveal_strlit("present");
    assert("id"@.len() == 2 && "path"@.len() == 4 && "present"@.len() == 7);
    let members = layer_document(layer)->Object_0;
    crate::status::laws::a_member_is_found(members, 0);
    crate::status::laws::a_member_is_found(members, 1);
    crate::status::laws::a_member_is_found(members, 2);
}

proof fn report_keys_differ()
    ensures
        distinct(
            seq![
                ("workspace"@, 0int),
                ("kind"@, 1int),
                ("runtimeLayer"@, 2int),
                ("layers"@, 3int),
                ("config"@, 4int),
                ("origins"@, 5int),
                ("dropped"@, 6int),
                ("sshAgentRelay"@, 7int),
                ("notes"@, 8int),
            ],
        ),
{
    reveal_strlit("workspace");
    reveal_strlit("kind");
    reveal_strlit("runtimeLayer");
    reveal_strlit("layers");
    reveal_strlit("config");
    reveal_strlit("origins");
    reveal_strlit("dropped");
    reveal_strlit("sshAgentRelay");
    reveal_strlit("notes");
    assert("workspace"@.len() == 9 && "kind"@.len() == 4 && "runtimeLayer"@.len() == 12 && "layers"@.len() == 6);
    assert("config"@.len() == 6 && "origins"@.len() == 7 && "dropped"@.len() == 7 && "sshAgentRelay"@.len() == 13);
    assert("notes"@.len() == 5);
    assert("layers"@[0] != "config"@[0] && "origins"@[0] != "dropped"@[0]);
}

/// The report as JSON has the configuration as it was merged, the layers, the origins and
/// the dropped keys in their order, and the decision on the relay.
pub proof fn the_report_is_told_by_its_members(report: ExplainReport)
    ensures
        ({
            let document = report.document();
            &&& json_member(document, "workspace"@) == Some(Json::Text(report.workspace@))
            &&& json_member(document, "kind"@) == Some(Json::Text(report.kind@))
            &&& json_member(document, "runtimeLayer"@) == Some(Json::Text(report.runtime_layer@))
            &&& json_member(document, "layers"@) == Some(
                Json::Array(Seq::new(report.layers@.len(), |i: int| layer_document(report.layers@[i]))),
            )
            &&& json_member(document, "config"@) == Some(json_of(report.config))
            &&& json_member(document, "origins"@) == Some(report.origins_document())
            &&& json_member(document, "dropped"@) == Some(
                Json::Array(Seq::new(report.dropped@.len(), |i: int| Json::Text(report.dropped@[i]@))),
            )
            &&& json_member(document, "sshAgentRelay"@) == Some(
                relay_document(report.relay, report.requested(), relay_layer(report.origins@)),
            )
            &&& json_member(document, "notes"@) == Some(
                Json::Array(
                    seq![
                        Json::Text("variables-unexpanded"@),
                        Json::Text("duplicates-credited-to-first-contributing-layer"@),
                        Json::Text("cli-port-overrides-apply-after-merge"@),
                    ],
                ),
            )
        }),
{
    report_keys_differ();
    let keys = seq![
        ("workspace"@, 0int),
        ("kind"@, 1int),
        ("runtimeLayer"@, 2int),
        ("layers"@, 3int),
        ("config"@, 4int),
        ("origins"@, 5int),
        ("dropped"@, 6int),
        ("sshAgentRelay"@, 7int),
        ("notes"@, 8int),
    ];
    let members = report.document()->Object_0;
    assert(members.len() == 9);
    assert forall|i: int, j: int| 0 <= i < j < 9 implies (#[trigger] members[i]).0 != (#[trigger] members[j]).0 by {
        assert(members[i].0 == keys[i].0 && members[j].0 == keys[j].0);
    }
    crate::status::laws::a_member_is_found(members, 0);
    crate::status::laws::a_member_is_found(members, 1);
    crate::status::laws::a_member_is_found(members, 2);
    crate::status::laws::a_member_is_found(members, 3);
    crate::status::laws::a_member_is_found(members, 4);
    crate::status::laws::a_member_is_found(members, 5);
    crate::status::laws::a_member_is_found(members, 6);
    crate::status::laws::a_member_is_found(members, 7);
    crate::status::laws::a_member_is_found(members, 8);
    assert(report.layers@.map_values(|l: LayerRow| layer_document(l)) =~= Seq::new(
        report.layers@.len(),
        |i: int| layer_document(report.layers@[i]),
    ));
    assert(report.dropped@.map_values(|s: String| Json::Text(s@)) =~= Seq::new(
        report.dropped@.len(),
        |i: int| Json::Text(report.dropped@[i]@),
    ));
}

/// Every origin is a member under its path, and says its layer.
pub proof fn every_origin_is_told(report: ExplainReport, i: int)
    requires
        report.wf(),
        0 <= i < report.origins@.len(),
    ensures
        json_member(report.origins_document(), report.origins@[i].0@) == Some(
            Json::Text(report.origins@[i].1.name()),
        ),
{
    let pairs = named(report.origins@);
    let ordered = in_order(pairs);
    crate::explain::order_keeps_the_origins(pairs);
    let pair = pairs[i];
    assert(pairs.to_multiset().contains(pair)) by {
        vstd::seq_lib::to_multiset_contains(pairs, pair);
    }
    assert(ordered.contains(pair)) by {
        vstd::seq_lib::to_multiset_contains(ordered, pair);
    }
    let k = choose|k: int| 0 <= k < ordered.len() && ordered[k] == pair;
    let members = report.origins_document()->Object_0;
    assert(members[k] == (pair.0, Json::Text(pair.1)));
    assert forall|j: int| k < j < members.len() implies (#[trigger] members[j]).0 != members[k].0 by {
        assert(ordered[k].0 != ordered[j].0);
    }
    crate::status::laws::a_member_is_found(members, k);
}

/// A report is of the very workspace, runtime and merge that it was made for; it says of
/// what kind the project is, and whether the base file allows the relay.
pub proof fn a_report_is_of_what_it_was_made_for(
    workspace: String,
    runtime_name: String,
    source: ConfigSource,
    base: LayerFile,
    include_base: bool,
    relay_allowed: bool,
    merged: MergedConfig,
    r: ExplainReport,
)
    requires
        explained(workspace, runtime_name, source, base, include_base, relay_allowed, merged, r),
    ensures
        r.workspace == workspace,
        r.runtime_layer == runtime_name,
        source is Direct ==> r.kind@ == "direct"@,
        source is Recipe ==> r.kind@ == "recipe"@,
        r.config == merged.config,
        r.dropped == merged.dropped,
        r.relay.base == base.path,
        r.relay.allowed == relay_allowed,
        r.layers@.len() == layers_of(source, base, include_base).len(),
        forall|j: int|
            0 <= j < r.layers@.len() ==> {
                let layer = layers_of(source, base, include_base)[j];
                let row = #[trigger] r.layers@[j];
                row.id == layer.id && row.path == layer.file.path && row.present == layer.file.present
            },
        r.origins@ == all_credits(layers_of(source, base, include_base)),
{
}

} // verus!
