//! The report of an effective configuration.
use vstd::prelude::*;

pub mod laws;

use crate::assoc::{assoc, distinct, get, pair_texts};
use crate::explain::{in_order, origin_texts, resolve_path, resolved, sorted_origins};
use crate::json::{
    array_value, bool_value, copy_value, json_member, json_of, json_pretty, json_text, jsons, member, members_of,
    null_value, object_value, pretty_text, text_value, value_text, Json,
};
use crate::text::{cat2, cat3, cat4, cat5, owned, pad, padded};

verus! {

/// The property by which a configuration asks for the relay of the SSH agent.
pub const RELAY_PROPERTY: &'static str = "sshAgent.relay";

/// The property by which the base file allows it.
pub const ALLOW_RELAY_PROPERTY: &'static str = "sshAgent.allowRelay";

/// A layer of the configuration. The template, the runtime's layer and the
/// recipe's features come with what they are shown as.
#[derive(Debug, PartialEq, Eq)]
pub enum LayerId {
    Base,
    Project,
    GlobalTemplate(String),
    Runtime(String),
    RecipeFeatures(String),
    RecipeCustomizations,
}

impl LayerId {
    /// What the layer is shown as.
    pub open spec fn name(&self) -> Seq<char> {
        match self {
            LayerId::Base => "base"@,
            LayerId::Project => "project"@,
            LayerId::GlobalTemplate(shown) => shown@,
            LayerId::Runtime(shown) => shown@,
            LayerId::RecipeFeatures(shown) => shown@,
            LayerId::RecipeCustomizations => "recipe-customizations"@,
        }
    }

    /// What the layer is shown as.
    pub fn text(&self) -> (r: String)
        ensures
            r@ == self.name(),
    {
        match self {
            LayerId::Base => owned("base"),
            LayerId::Project => owned("project"),
            LayerId::GlobalTemplate(shown) => shown.clone(),
            LayerId::Runtime(shown) => shown.clone(),
            LayerId::RecipeFeatures(shown) => shown.clone(),
            LayerId::RecipeCustomizations => owned("recipe-customizations"),
        }
    }

    fn copy(&self) -> (r: LayerId)
        ensures
            r == *self,
    {
        match self {
            LayerId::Base => LayerId::Base,
            LayerId::Project => LayerId::Project,
            LayerId::GlobalTemplate(shown) => LayerId::GlobalTemplate(shown.clone()),
            LayerId::Runtime(shown) => LayerId::Runtime(shown.clone()),
            LayerId::RecipeFeatures(shown) => LayerId::RecipeFeatures(shown.clone()),
            LayerId::RecipeCustomizations => LayerId::RecipeCustomizations,
        }
    }
}

/// What the report says of a layer.
#[derive(Debug, PartialEq, Eq)]
pub struct LayerRow {
    pub id: LayerId,
    pub path: String,
    pub present: bool,
}

/// The base file's half of the decision on the relay. It is read from that file
/// alone and never merged.
#[derive(Debug, PartialEq, Eq)]
pub struct RelayPermission {
    pub base: String,
    pub allowed: bool,
}

/// The effective configuration of a workspace, with where each value of it comes
/// from.
pub struct ExplainReport {
    pub workspace: String,
    /// `direct`, or `recipe`.
    pub kind: &'static str,
    pub runtime_layer: String,
    /// The layers, from the one that gives way to every other.
    pub layers: Vec<LayerRow>,
    pub config: serde_json::Value,
    /// The layer that gave the value at each path, no path twice.
    pub origins: Vec<(String, LayerId)>,
    /// The keys that a higher layer's choice of image replaced.
    pub dropped: Vec<String>,
    pub relay: RelayPermission,
}

/// A layer's file, and the paths of the merged configuration whose values came
/// from it.
pub struct LayerFile {
    pub path: String,
    pub present: bool,
    pub credited: Vec<String>,
}

/// Where a workspace's configuration comes from.
pub enum ConfigSource {
    /// A configuration file of its own, with the paths that it is credited with.
    Direct { config_path: String, credited: Vec<String> },
    /// A recipe, with the layers that it names and what they are shown as, and the
    /// paths that its features and its customizations are credited with.
    Recipe {
        recipe_path: String,
        template_name: String,
        template: LayerFile,
        runtime_name: String,
        runtime: LayerFile,
        features_name: String,
        features: Vec<String>,
        customizations: Vec<String>,
    },
}

/// What the merge of the layers came to.
pub struct MergedConfig {
    pub config: serde_json::Value,
    /// The keys that a higher layer's choice of image replaced.
    pub dropped: Vec<String>,
}

/// A layer that takes part in the merge.
pub struct Layer {
    pub id: LayerId,
    pub file: LayerFile,
}

/// The base file as a layer, if it takes part.
pub open spec fn base_layer(base: LayerFile, include_base: bool) -> Seq<Layer> {
    if include_base {
        seq![Layer { id: LayerId::Base, file: base }]
    } else {
        Seq::empty()
    }
}

/// The layers of a workspace, from the one that gives way to every other. A
/// direct project has the base file, if it takes part, and its own; a recipe
/// project has the template, the base file, if it takes part, the runtime's, and
/// the recipe's features and customizations.
pub open spec fn layers_of(source: ConfigSource, base: LayerFile, include_base: bool) -> Seq<Layer> {
    match source {
        ConfigSource::Direct { config_path, credited } => base_layer(base, include_base) + seq![
            Layer { id: LayerId::Project, file: LayerFile { path: config_path, present: true, credited } },
        ],
        ConfigSource::Recipe {
            recipe_path,
            template_name,
            template,
            runtime_name,
            runtime,
            features_name,
            features,
            customizations,
        } => seq![Layer { id: LayerId::GlobalTemplate(template_name), file: template }] + base_layer(
            base,
            include_base,
        ) + seq![
            Layer { id: LayerId::Runtime(runtime_name), file: runtime },
            Layer {
                id: LayerId::RecipeFeatures(features_name),
                file: LayerFile { path: recipe_path, present: true, credited: features },
            },
            Layer {
                id: LayerId::RecipeCustomizations,
                file: LayerFile { path: recipe_path, present: true, credited: customizations },
            },
        ],
    }
}

/// What the report says of layers.
pub open spec fn rows(layers: Seq<Layer>) -> Seq<LayerRow> {
    layers.map_values(|l: Layer| LayerRow { id: l.id, path: l.file.path, present: l.file.present })
}

/// The paths that a layer is credited with, each with the layer.
pub open spec fn credits(layer: Layer) -> Seq<(String, LayerId)> {
    layer.file.credited@.map_values(|path: String| (path, layer.id))
}

/// The paths that the layers are credited with, each with its layer.
pub open spec fn all_credits(layers: Seq<Layer>) -> Seq<(String, LayerId)>
    decreases layers.len(),
{
    if layers.len() == 0 {
        Seq::empty()
    } else {
        all_credits(layers.drop_last()) + credits(layers.last())
    }
}

/// What the report of a workspace says. The base file is named as the one that
/// decides on the relay whether it takes part in the merge or not.
pub open spec fn explained(
    workspace: String,
    runtime_name: String,
    source: ConfigSource,
    base: LayerFile,
    include_base: bool,
    relay_allowed: bool,
    merged: MergedConfig,
    r: ExplainReport,
) -> bool {
    &&& r.workspace == workspace
    &&& r.kind@ == match source {
        ConfigSource::Direct { .. } => "direct"@,
        ConfigSource::Recipe { .. } => "recipe"@,
    }
    &&& r.runtime_layer == runtime_name
    &&& r.layers@ == rows(layers_of(source, base, include_base))
    &&& r.config == merged.config
    &&& r.origins@ == all_credits(layers_of(source, base, include_base))
    &&& r.dropped == merged.dropped
    &&& r.relay.base == base.path
    &&& r.relay.allowed == relay_allowed
}

fn push_base(layers: &mut Vec<Layer>, base: LayerFile, include_base: bool)
    ensures
        final(layers)@ == old(layers)@ + base_layer(base, include_base),
{
    let ghost had = layers@;
    if include_base {
        layers.push(Layer { id: LayerId::Base, file: base });
    }
    assert(layers@ =~= had + base_layer(base, include_base));
}

/// The layers of a direct project.
pub fn direct_layers(config_path: String, credited: Vec<String>, base: LayerFile, include_base: bool) -> (r: Vec<
    Layer,
>)
    ensures
        r@ == layers_of(ConfigSource::Direct { config_path, credited }, base, include_base),
{
    let mut layers: Vec<Layer> = Vec::new();
    push_base(&mut layers, base, include_base);
    let ghost lower = layers@;
    layers.push(
        Layer { id: LayerId::Project, file: LayerFile { path: config_path, present: true, credited } },
    );
    assert(lower =~= base_layer(base, include_base));
    layers
}

/// The layers of a recipe project.
pub fn recipe_layers(
    recipe_path: String,
    template_name: String,
    template: LayerFile,
    runtime_name: String,
    runtime: LayerFile,
    features_name: String,
    features: Vec<String>,
    customizations: Vec<String>,
    base: LayerFile,
    include_base: bool,
) -> (r: Vec<Layer>)
    ensures
        r@ == layers_of(
            ConfigSource::Recipe {
                recipe_path,
                template_name,
                template,
                runtime_name,
                runtime,
                features_name,
                features,
                customizations,
            },
            base,
            include_base,
        ),
{
    let mut layers: Vec<Layer> = Vec::new();
    layers.push(Layer { id: LayerId::GlobalTemplate(template_name), file: template });
    push_base(&mut layers, base, include_base);
    layers.push(Layer { id: LayerId::Runtime(runtime_name), file: runtime });
    layers.push(
        Layer {
            id: LayerId::RecipeFeatures(features_name),
            file: LayerFile { path: recipe_path.clone(), present: true, credited: features },
        },
    );
    layers.push(
        Layer {
            id: LayerId::RecipeCustomizations,
            file: LayerFile { path: recipe_path, present: true, credited: customizations },
        },
    );
    layers
}

fn push_credits(origins: &mut Vec<(String, LayerId)>, id: &LayerId, credited: Vec<String>)
    ensures
        final(origins)@ == old(origins)@ + credited@.map_values(|path: String| (path, *id)),
{
    let ghost had = origins@;
    let ghost all = credited@.map_values(|path: String| (path, *id));
    assert(had + all.take(0) =~= had);
    for path in it: credited.into_iter()
        invariant
            all == it.seq().map_values(|path: String| (path, *id)),
            origins@ == had + all.take(it.index() as int),
    {
        origins.push((path, id.copy()));
        assert(all.take(it.index() + 1) =~= all.take(it.index() as int).push((path, *id)));
    }
    assert(all.take(all.len() as int) =~= all);
}

/// What the report says of layers, and the paths that they are credited with.
fn take_apart(layers: Vec<Layer>) -> (r: (Vec<LayerRow>, Vec<(String, LayerId)>))
    ensures
        r.0@ == rows(layers@),
        r.1@ == all_credits(layers@),
{
    let ghost all = layers@;
    let mut out: Vec<LayerRow> = Vec::new();
    let mut origins: Vec<(String, LayerId)> = Vec::new();
    assert(rows(all.take(0)) =~= out@);
    for layer in it: layers.into_iter()
        invariant
            it.seq() == all,
            out@ == rows(all.take(it.index() as int)),
            origins@ == all_credits(all.take(it.index() as int)),
    {
        proof {
            let upto = all.take(it.index() + 1);
            assert(upto.drop_last() =~= all.take(it.index() as int));
            assert(upto.last() == layer);
            assert(rows(upto) =~= rows(all.take(it.index() as int)).push(
                LayerRow { id: layer.id, path: layer.file.path, present: layer.file.present },
            ));
        }
        push_credits(&mut origins, &layer.id, layer.file.credited);
        out.push(LayerRow { id: layer.id, path: layer.file.path, present: layer.file.present });
    }
    assert(all.take(all.len() as int) =~= all);
    (out, origins)
}

/// The report of a workspace. `relay_allowed` is what the base file says of the
/// relay.
pub fn explain(
    workspace: String,
    runtime_name: String,
    source: ConfigSource,
    base: LayerFile,
    include_base: bool,
    relay_allowed: bool,
    merged: MergedConfig,
) -> (r: ExplainReport)
    ensures
        explained(workspace, runtime_name, source, base, include_base, relay_allowed, merged, r),
{
    let relay = RelayPermission { base: base.path.clone(), allowed: relay_allowed };
    let (kind, taking_part): (&'static str, Vec<Layer>) = match source {
        ConfigSource::Direct { config_path, credited } => (
            "direct",
            direct_layers(config_path, credited, base, include_base),
        ),
        ConfigSource::Recipe {
            recipe_path,
            template_name,
            template,
            runtime_name,
            runtime,
            features_name,
            features,
            customizations,
        } => (
            "recipe",
            recipe_layers(
                recipe_path,
                template_name,
                template,
                runtime_name,
                runtime,
                features_name,
                features,
                customizations,
                base,
                include_base,
            ),
        ),
    };
    let (layers, origins) = take_apart(taking_part);
    ExplainReport {
        workspace,
        kind,
        runtime_layer: runtime_name,
        layers,
        config: merged.config,
        origins,
        dropped: merged.dropped,
        relay,
    }
}

/// Every value is credited to a layer that the report has a row for.
proof fn values_are_credited_to_layers(layers: Seq<Layer>, i: int)
    requires
        0 <= i < all_credits(layers).len(),
    ensures
        exists|j: int| 0 <= j < layers.len() && (#[trigger] layers[j]).id == all_credits(layers)[i].1,
    decreases layers.len(),
{
    let rest = layers.drop_last();
    if i < all_credits(rest).len() {
        values_are_credited_to_layers(rest, i);
        let j = choose|j: int| 0 <= j < rest.len() && (#[trigger] rest[j]).id == all_credits(rest)[i].1;
        assert(layers[j] == rest[j]);
    } else {
        assert(layers[layers.len() - 1] == layers.last());
    }
}

/// Every value of a report is credited to a layer that the report has a row for.
pub proof fn values_are_credited_to_rows(
    workspace: String,
    runtime_name: String,
    source: ConfigSource,
    base: LayerFile,
    include_base: bool,
    relay_allowed: bool,
    merged: MergedConfig,
    report: ExplainReport,
    i: int,
)
    requires
        explained(workspace, runtime_name, source, base, include_base, relay_allowed, merged, report),
        0 <= i < report.origins@.len(),
    ensures
        exists|j: int| 0 <= j < report.layers@.len() && (#[trigger] report.layers@[j]).id == report.origins@[i].1,
{
    let layers = layers_of(source, base, include_base);
    values_are_credited_to_layers(layers, i);
    let j = choose|j: int| 0 <= j < layers.len() && (#[trigger] layers[j]).id == all_credits(layers)[i].1;
    assert(report.layers@[j].id == layers[j].id);
}

/// Where the base file takes no part, no row and no origin names it. Where it takes
/// part, it has a row.
pub proof fn only_a_base_that_takes_part_is_named(
    workspace: String,
    runtime_name: String,
    source: ConfigSource,
    base: LayerFile,
    include_base: bool,
    relay_allowed: bool,
    merged: MergedConfig,
    report: ExplainReport,
)
    requires
        explained(workspace, runtime_name, source, base, include_base, relay_allowed, merged, report),
    ensures
        !include_base ==> forall|i: int|
            0 <= i < report.layers@.len() ==> !((#[trigger] report.layers@[i]).id is Base),
        !include_base ==> forall|i: int|
            0 <= i < report.origins@.len() ==> !((#[trigger] report.origins@[i]).1 is Base),
        include_base ==> exists|i: int|
            0 <= i < report.layers@.len() && (#[trigger] report.layers@[i]) == (LayerRow {
                id: LayerId::Base,
                path: base.path,
                present: base.present,
            }),
{
    let layers = layers_of(source, base, include_base);
    assert(report.layers@ == rows(layers));
    if include_base {
        let at = if source is Direct {
            0int
        } else {
            1int
        };
        assert(layers[at] == (Layer { id: LayerId::Base, file: base }));
        assert(report.layers@[at].id is Base);
    } else {
        assert forall|i: int| 0 <= i < report.layers@.len() implies !((#[trigger] report.layers@[i]).id is Base) by {
            assert(report.layers@[i].id == layers[i].id);
        }
        assert forall|i: int| 0 <= i < report.origins@.len() implies !((#[trigger] report.origins@[i]).1 is Base) by {
            values_are_credited_to_rows(
                workspace,
                runtime_name,
                source,
                base,
                include_base,
                relay_allowed,
                merged,
                report,
                i,
            );
        }
    }
}

/// What the report says of the relay's permission rests on the base file alone:
/// two reports with the same base file say the same of it, whether it takes part
/// in the merge or not and whatever the projects are and set.
pub proof fn the_relay_permission_is_the_base_files(
    first: (String, String, ConfigSource, bool, MergedConfig),
    second: (String, String, ConfigSource, bool, MergedConfig),
    base: LayerFile,
    relay_allowed: bool,
    a: ExplainReport,
    b: ExplainReport,
)
    requires
        explained(first.0, first.1, first.2, base, first.3, relay_allowed, first.4, a),
        explained(second.0, second.1, second.2, base, second.3, relay_allowed, second.4, b),
    ensures
        a.relay == b.relay,
        a.relay.allowed == relay_allowed,
        relay_document(a.relay, a.requested(), relay_layer(a.origins@))->Object_0[0] == relay_document(
            b.relay,
            b.requested(),
            relay_layer(b.origins@),
        )->Object_0[0],
{
}

// ---------------------------------------------------------------------------
// The relay
// ---------------------------------------------------------------------------

/// The configuration asks for the relay.
pub open spec fn asks_for_relay(config: Json) -> bool {
    match json_member(config, "sshAgent"@) {
        Some(settings) => json_member(settings, "relay"@) == Some(Json::Bool(true)),
        None => false,
    }
}

/// The origins, each layer by what it is shown as.
pub open spec fn named(origins: Seq<(String, LayerId)>) -> Seq<(Seq<char>, Seq<char>)> {
    origins.map_values(|o: (String, LayerId)| (o.0@, o.1.name()))
}

/// The layer that asked for the relay, if it is known.
pub open spec fn relay_layer(origins: Seq<(String, LayerId)>) -> Option<Seq<char>> {
    if assoc(named(origins)).contains_key(RELAY_PROPERTY@) {
        Some(assoc(named(origins))[RELAY_PROPERTY@])
    } else {
        None
    }
}

/// The lines about the relay.
pub open spec fn relay_text(relay: RelayPermission, requested: bool, layer: Option<Seq<char>>) -> Seq<char> {
    let allowed_by = if relay.allowed {
        relay.base@ + " ("@ + ALLOW_RELAY_PROPERTY@ + ")"@
    } else {
        "not allowed ("@ + relay.base@ + " does not set "@ + ALLOW_RELAY_PROPERTY@ + ")"@
    };
    let requested_by = if !requested {
        "not requested"@
    } else {
        match layer {
            Some(name) => name,
            None => "requested, layer unrecorded"@,
        }
    };
    "# ssh agent relay (decided outside the merge; the permission is read from the base file alone):\n#   allowed by     "@
        + allowed_by + "\n#   requested by   "@ + requested_by + ("\n#   effective      "@ + (if relay.allowed
        && requested {
        "on"@
    } else {
        "off"@
    }) + "\n"@)
}

// ---------------------------------------------------------------------------
// As text
// ---------------------------------------------------------------------------

/// Texts one after another.
pub open spec fn run_on(parts: Seq<Seq<char>>) -> Seq<char>
    decreases parts.len(),
{
    if parts.len() == 0 {
        Seq::empty()
    } else {
        run_on(parts.drop_last()) + parts.last()
    }
}

proof fn run_on_step(parts: Seq<Seq<char>>, i: int)
    requires
        0 <= i < parts.len(),
    ensures
        run_on(parts.take(i + 1)) == run_on(parts.take(i)) + parts[i],
{
    assert(parts.take(i + 1).drop_last() =~= parts.take(i));
    assert(parts.take(i + 1).last() == parts[i]);
}

/// The line of a layer.
pub open spec fn layer_line(layer: LayerRow) -> Seq<char> {
    "#   "@ + padded(layer.id.name(), 24) + " "@ + layer.path@ + (if layer.present {
        "\n"@
    } else {
        "   (absent)\n"@
    })
}

/// The line of a value. A path that no longer leads anywhere has none.
pub open spec fn origin_line(config: Json, origin: (Seq<char>, Seq<char>)) -> Seq<char> {
    match resolved(config, origin.0) {
        Some(value) => origin.0 + " = "@ + json_text(value) + "  <- "@ + (origin.1 + "\n"@),
        None => ""@,
    }
}

/// The line of a key that was dropped.
pub open spec fn dropped_line(key: Seq<char>) -> Seq<char> {
    "# dropped by selector precedence: "@ + key
        + " (the highest layer's image/build/compose choice wins)\n"@
}

/// The head of the report.
pub open spec fn head_text(workspace: Seq<char>, kind: Seq<char>, runtime_layer: Seq<char>) -> Seq<char> {
    "# effective config for "@ + workspace + " ("@ + kind + (" project, runtime layer: "@ + runtime_layer
        + ")\n# this is the merge `dev up` uses; `dev config list` shows the project file alone\n# layers (lowest to highest priority):\n"@)
}

/// The notes at the report's end.
pub open spec fn notes_text() -> Seq<char> {
    "# notes: ${...} variables are shown unexpanded (substitution happens per consumer at run time);\n#        duplicate array entries stay credited to the first layer that contributed them;\n#        `dev up --ports` applies after this merge.\n"@
}

impl ExplainReport {
    /// No path has two origins.
    pub open spec fn wf(&self) -> bool {
        distinct(named(self.origins@))
    }

    /// The configuration asks for the relay.
    pub open spec fn requested(&self) -> bool {
        asks_for_relay(json_of(self.config))
    }

    /// The origins, each layer by what it is shown as.
    fn named_origins(&self) -> (r: Vec<(String, String)>)
        ensures
            pair_texts(r@) == named(self.origins@),
    {
        let ghost all = named(self.origins@);
        let mut out: Vec<(String, String)> = Vec::new();
        let mut i: usize = 0;
        assert(pair_texts(out@) =~= all.take(0));
        while i < self.origins.len()
            invariant
                all == named(self.origins@),
                i <= self.origins@.len(),
                pair_texts(out@) == all.take(i as int),
            decreases self.origins@.len() - i,
        {
            let ghost before = pair_texts(out@);
            out.push((self.origins[i].0.clone(), self.origins[i].1.text()));
            i = i + 1;
            assert(pair_texts(out@) =~= before.push(all[i - 1]));
            assert(all.take(i as int) =~= before.push(all[i - 1]));
        }
        assert(all.take(all.len() as int) =~= all);
        out
    }

    /// Whether the configuration asks for the relay.
    pub fn relay_requested(&self) -> (r: bool)
        ensures
            r == self.requested(),
    {
        match member(&self.config, "sshAgent") {
            Some(settings) => match member(settings, "relay") {
                Some(value) => match value.as_bool() {
                    Some(b) => b,
                    None => false,
                },
                None => false,
            },
            None => false,
        }
    }

    /// The layer that asked for the relay, if it is known.
    pub fn relay_requested_by(&self) -> (r: Option<String>)
        ensures
            crate::text::text_opt(r) == relay_layer(self.origins@),
    {
        get(&self.named_origins(), RELAY_PROPERTY)
    }

    /// Whether the relay is on: the base file allows it and the configuration asks
    /// for it.
    pub fn relay_effective(&self) -> (r: bool)
        ensures
            r == (self.relay.allowed && self.requested()),
    {
        self.relay.allowed && self.relay_requested()
    }

    /// The lines about the relay.
    pub fn render_relay(&self) -> (r: String)
        ensures
            r@ == relay_text(self.relay, self.requested(), relay_layer(self.origins@)),
    {
        let allowed_by = if self.relay.allowed {
            cat4(self.relay.base.as_str(), " (", ALLOW_RELAY_PROPERTY, ")")
        } else {
            cat5(
                "not allowed (",
                self.relay.base.as_str(),
                " does not set ",
                ALLOW_RELAY_PROPERTY,
                ")",
            )
        };
        let requested_by = if !self.relay_requested() {
            owned("not requested")
        } else {
            match self.relay_requested_by() {
                Some(layer) => layer,
                None => owned("requested, layer unrecorded"),
            }
        };
        let state = if self.relay_effective() {
            "on"
        } else {
            "off"
        };
        let end = cat3("\n#   effective      ", state, "\n");
        cat5(
            "# ssh agent relay (decided outside the merge; the permission is read from the base file alone):\n#   allowed by     ",
            allowed_by.as_str(),
            "\n#   requested by   ",
            requested_by.as_str(),
            end.as_str(),
        )
    }

    /// The lines of the layers.
    pub open spec fn layers_text(&self) -> Seq<char> {
        run_on(self.layers@.map_values(|l: LayerRow| layer_line(l)))
    }

    /// The lines of the values, in the order of their paths.
    pub open spec fn values_text(&self) -> Seq<char> {
        run_on(
            in_order(named(self.origins@)).map_values(
                |o: (Seq<char>, Seq<char>)| origin_line(json_of(self.config), o),
            ),
        )
    }

    /// The lines of the keys that were dropped.
    pub open spec fn dropped_text(&self) -> Seq<char> {
        run_on(self.dropped@.map_values(|key: String| dropped_line(key@)))
    }

    /// The whole report.
    pub open spec fn text(&self) -> Seq<char> {
        head_text(self.workspace@, self.kind@, self.runtime_layer@) + self.layers_text() + self.values_text()
            + self.dropped_text() + relay_text(
            self.relay,
            self.requested(),
            relay_layer(self.origins@),
        ) + notes_text()
    }

    fn render_layers(&self, out: &mut String)
        ensures
            final(out)@ == old(out)@ + self.layers_text(),
    {
        let ghost start = out@;
        let ghost lines = self.layers@.map_values(|l: LayerRow| layer_line(l));
        assert(start + run_on(lines.take(0)) =~= start);
        let mut i: usize = 0;
        while i < self.layers.len()
            invariant
                lines == self.layers@.map_values(|l: LayerRow| layer_line(l)),
                i <= self.layers@.len(),
                out@ == start + run_on(lines.take(i as int)),
            decreases self.layers@.len() - i,
        {
            let layer = &self.layers[i];
            let id = pad(layer.id.text().as_str(), 24);
            let end = if layer.present {
                "\n"
            } else {
                "   (absent)\n"
            };
            let line = cat5("#   ", id.as_str(), " ", layer.path.as_str(), end);
            out.append(line.as_str());
            proof {
                run_on_step(lines, i as int);
                assert(line@ == lines[i as int]);
            }
            i = i + 1;
        }
        assert(lines.take(lines.len() as int) =~= lines);
    }

    fn render_values(&self, out: &mut String)
        ensures
            final(out)@ == old(out)@ + self.values_text(),
    {
        let ghost start = out@;
        let ghost document = json_of(self.config);
        let ghost ordered = in_order(named(self.origins@));
        let ghost lines = ordered.map_values(
            |o: (Seq<char>, Seq<char>)| origin_line(json_of(self.config), o),
        );
        assert(start + run_on(lines.take(0)) =~= start);
        let origins = sorted_origins(&self.named_origins());
        assert(ordered.len() == origins@.len());
        let mut i: usize = 0;
        while i < origins.len()
            invariant
                document == json_of(self.config),
                ordered == origin_texts(origins@),
                lines == ordered.map_values(
                    |o: (Seq<char>, Seq<char>)| origin_line(json_of(self.config), o),
                ),
                lines.len() == origins@.len(),
                i <= origins@.len(),
                out@ == start + run_on(lines.take(i as int)),
            decreases origins@.len() - i,
        {
            proof {
                run_on_step(lines, i as int);
                assert(ordered[i as int] == origins@[i as int]@);
                assert(lines[i as int] == origin_line(document, origins@[i as int]@));
            }
            let path = origins[i].path.as_str();
            match resolve_path(&self.config, path) {
                Some(value) => {
                    let shown = value_text(value);
                    let end = cat2(origins[i].layer.as_str(), "\n");
                    let line = cat5(path, " = ", shown.as_str(), "  <- ", end.as_str());
                    out.append(line.as_str());
                },
                None => {
                    proof {
                        reveal_strlit("");
                        assert(""@ =~= Seq::<char>::empty());
                    }
                },
            }
            i = i + 1;
            assert(out@ =~= start + run_on(lines.take(i as int)));
        }
        assert(lines.take(lines.len() as int) =~= lines);
    }

    fn render_dropped(&self, out: &mut String)
        ensures
            final(out)@ == old(out)@ + self.dropped_text(),
    {
        let ghost start = out@;
        let ghost lines = self.dropped@.map_values(|key: String| dropped_line(key@));
        assert(start + run_on(lines.take(0)) =~= start);
        let mut i: usize = 0;
        while i < self.dropped.len()
            invariant
                lines == self.dropped@.map_values(|key: String| dropped_line(key@)),
                i <= self.dropped@.len(),
                out@ == start + run_on(lines.take(i as int)),
            decreases self.dropped@.len() - i,
        {
            let line = cat3(
                "# dropped by selector precedence: ",
                self.dropped[i].as_str(),
                " (the highest layer's image/build/compose choice wins)\n",
            );
            out.append(line.as_str());
            proof {
                run_on_step(lines, i as int);
                assert(line@ == lines[i as int]);
            }
            i = i + 1;
        }
        assert(lines.take(lines.len() as int) =~= lines);
    }

    /// The report as text.
    pub fn render(&self) -> (r: String)
        ensures
            r@ == self.text(),
    {
        let layer = cat3(
            " project, runtime layer: ",
            self.runtime_layer.as_str(),
            ")\n# this is the merge `dev up` uses; `dev config list` shows the project file alone\n# layers (lowest to highest priority):\n",
        );
        let mut out = cat5(
            "# effective config for ",
            self.workspace.as_str(),
            " (",
            self.kind,
            layer.as_str(),
        );
        self.render_layers(&mut out);
        self.render_values(&mut out);
        self.render_dropped(&mut out);
        let relay = self.render_relay();
        out.append(relay.as_str());
        out.append(
            "# notes: ${...} variables are shown unexpanded (substitution happens per consumer at run time);\n#        duplicate array entries stay credited to the first layer that contributed them;\n#        `dev up --ports` applies after this merge.\n",
        );
        out
    }
}

// ---------------------------------------------------------------------------
// As JSON
// ---------------------------------------------------------------------------

/// A layer as JSON.
pub open spec fn layer_document(layer: LayerRow) -> Json {
    Json::Object(
        seq![
            ("id"@, Json::Text(layer.id.name())),
            ("path"@, Json::Text(layer.path@)),
            ("present"@, Json::Bool(layer.present)),
        ],
    )
}

impl LayerRow {
    /// The layer as JSON.
    pub fn to_json(&self) -> (r: serde_json::Value)
        ensures
            json_of(r) == layer_document(*self),
    {
        let members: Vec<(String, serde_json::Value)> = vec![
            (owned("id"), text_value(self.id.text())),
            (owned("path"), text_value(self.path.clone())),
            (owned("present"), bool_value(self.present)),
        ];
        proof {
            assert(members_of(members@) =~= layer_document(*self)->Object_0);
            reveal_strlit("id");
            reveal_strlit("path");
            reveal_strlit("present");
            assert("id"@.len() == 2);
            assert("path"@.len() == 4);
            assert("present"@.len() == 7);
        }
        object_value(members)
    }
}

/// A text as JSON, or null.
pub open spec fn text_or_null(s: Option<Seq<char>>) -> Json {
    match s {
        Some(text) => Json::Text(text),
        None => Json::Null,
    }
}

/// The decision on the relay as JSON.
pub open spec fn relay_document(relay: RelayPermission, requested: bool, layer: Option<Seq<char>>) -> Json {
    Json::Object(
        seq![
            (
                "allowedBy"@,
                text_or_null(
                    if relay.allowed {
                        Some(relay.base@)
                    } else {
                        None
                    },
                ),
            ),
            (
                "requestedBy"@,
                text_or_null(
                    if requested {
                        layer
                    } else {
                        None
                    },
                ),
            ),
            ("effective"@, Json::Bool(relay.allowed && requested)),
        ],
    )
}

fn text_list(items: &Vec<String>) -> (r: serde_json::Value)
    ensures
        json_of(r) == Json::Array(items@.map_values(|s: String| Json::Text(s@))),
{
    let ghost all = items@.map_values(|s: String| Json::Text(s@));
    let mut out: Vec<serde_json::Value> = Vec::new();
    let mut i: usize = 0;
    while i < items.len()
        invariant
            all == items@.map_values(|s: String| Json::Text(s@)),
            i <= items@.len(),
            jsons(out@) == all.take(i as int),
        decreases items@.len() - i,
    {
        let ghost before = jsons(out@);
        let value = text_value(items[i].clone());
        let ghost document = json_of(value);
        out.push(value);
        i = i + 1;
        assert(jsons(out@) =~= before.push(document));
        assert(all.take(i as int) =~= all.take(i - 1).push(all[i - 1]));
    }
    assert(all.take(all.len() as int) =~= all);
    array_value(out)
}

/// The notes of the report as JSON.
pub open spec fn notes_document() -> Json {
    Json::Array(
        seq![
            Json::Text("variables-unexpanded"@),
            Json::Text("duplicates-credited-to-first-contributing-layer"@),
            Json::Text("cli-port-overrides-apply-after-merge"@),
        ],
    )
}

fn notes_json() -> (r: serde_json::Value)
    ensures
        json_of(r) == notes_document(),
{
    let notes: Vec<serde_json::Value> = vec![
        text_value(owned("variables-unexpanded")),
        text_value(owned("duplicates-credited-to-first-contributing-layer")),
        text_value(owned("cli-port-overrides-apply-after-merge")),
    ];
    assert(jsons(notes@) =~= notes_document()->Array_0);
    array_value(notes)
}

impl ExplainReport {
    /// The layers as JSON.
    pub open spec fn layers_document(&self) -> Json {
        Json::Array(self.layers@.map_values(|l: LayerRow| layer_document(l)))
    }

    /// The origins as JSON: a member for each path, in the order of the paths.
    pub open spec fn origins_document(&self) -> Json {
        Json::Object(
            in_order(named(self.origins@)).map_values(
                |o: (Seq<char>, Seq<char>)| (o.0, Json::Text(o.1)),
            ),
        )
    }

    /// The whole report as JSON.
    pub open spec fn document(&self) -> Json {
        Json::Object(
            seq![
                ("workspace"@, Json::Text(self.workspace@)),
                ("kind"@, Json::Text(self.kind@)),
                ("runtimeLayer"@, Json::Text(self.runtime_layer@)),
                ("layers"@, self.layers_document()),
                ("config"@, json_of(self.config)),
                ("origins"@, self.origins_document()),
                ("dropped"@, Json::Array(self.dropped@.map_values(|s: String| Json::Text(s@)))),
                (
                    "sshAgentRelay"@,
                    relay_document(self.relay, self.requested(), relay_layer(self.origins@)),
                ),
                ("notes"@, notes_document()),
            ],
        )
    }

    fn layers_json(&self) -> (r: serde_json::Value)
        ensures
            json_of(r) == self.layers_document(),
    {
        let ghost all = self.layers@.map_values(|l: LayerRow| layer_document(l));
        let mut out: Vec<serde_json::Value> = Vec::new();
        let mut i: usize = 0;
        while i < self.layers.len()
            invariant
                all == self.layers@.map_values(|l: LayerRow| layer_document(l)),
                i <= self.layers@.len(),
                jsons(out@) == all.take(i as int),
            decreases self.layers@.len() - i,
        {
            let ghost before = jsons(out@);
            let value = self.layers[i].to_json();
            let ghost document = json_of(value);
            out.push(value);
            i = i + 1;
            assert(jsons(out@) =~= before.push(document));
            assert(all.take(i as int) =~= all.take(i - 1).push(all[i - 1]));
        }
        assert(all.take(all.len() as int) =~= all);
        array_value(out)
    }

    fn origins_json(&self) -> (r: serde_json::Value)
        requires
            self.wf(),
        ensures
            json_of(r) == self.origins_document(),
    {
        let ghost ordered = in_order(named(self.origins@));
        let ghost all = ordered.map_values(|o: (Seq<char>, Seq<char>)| (o.0, Json::Text(o.1)));
        let origins = sorted_origins(&self.named_origins());
        assert(ordered.len() == origins@.len());
        let mut out: Vec<(String, serde_json::Value)> = Vec::new();
        let mut i: usize = 0;
        while i < origins.len()
            invariant
                ordered == origin_texts(origins@),
                all == ordered.map_values(|o: (Seq<char>, Seq<char>)| (o.0, Json::Text(o.1))),
                all.len() == origins@.len(),
                i <= origins@.len(),
                members_of(out@) == all.take(i as int),
            decreases origins@.len() - i,
        {
            let ghost before = members_of(out@);
            assert(ordered[i as int] == origins@[i as int]@);
            out.push((origins[i].path.clone(), text_value(origins[i].layer.clone())));
            i = i + 1;
            assert(members_of(out@) =~= before.push(all[i - 1]));
            assert(all.take(i as int) =~= all.take(i - 1).push(all[i - 1]));
        }
        proof {
            assert(all.take(all.len() as int) =~= all);
            crate::explain::order_keeps_the_origins(named(self.origins@));
            assert forall|a: int, b: int| 0 <= a < b < all.len() implies #[trigger] all[a].0 != #[trigger] all[b].0 by {
                assert(ordered[a].0 != ordered[b].0);
            }
        }
        object_value(out)
    }

    fn relay_json(&self) -> (r: serde_json::Value)
        ensures
            json_of(r) == relay_document(self.relay, self.requested(), relay_layer(self.origins@)),
    {
        let requested = self.relay_requested();
        let allowed_by = if self.relay.allowed {
            text_value(self.relay.base.clone())
        } else {
            null_value()
        };
        let requested_by = if requested {
            match self.relay_requested_by() {
                Some(layer) => text_value(layer),
                None => null_value(),
            }
        } else {
            null_value()
        };
        let members: Vec<(String, serde_json::Value)> = vec![
            (owned("allowedBy"), allowed_by),
            (owned("requestedBy"), requested_by),
            (owned("effective"), bool_value(self.relay_effective())),
        ];
        proof {
            assert(members_of(members@) =~= relay_document(
                self.relay,
                self.requested(),
                relay_layer(self.origins@),
            )->Object_0);
            reveal_strlit("allowedBy");
            reveal_strlit("requestedBy");
            reveal_strlit("effective");
            assert("allowedBy"@.len() == 9 && "allowedBy"@[0] == 'a');
            assert("requestedBy"@.len() == 11);
            assert("effective"@.len() == 9 && "effective"@[0] == 'e');
        }
        object_value(members)
    }

    /// The report as JSON.
    pub fn to_json(&self) -> (r: serde_json::Value)
        requires
            self.wf(),
        ensures
            json_of(r) == self.document(),
    {
        let members: Vec<(String, serde_json::Value)> = vec![
            (owned("workspace"), text_value(self.workspace.clone())),
            (owned("kind"), text_value(owned(self.kind))),
            (owned("runtimeLayer"), text_value(self.runtime_layer.clone())),
            (owned("layers"), self.layers_json()),
            (owned("config"), copy_value(&self.config)),
            (owned("origins"), self.origins_json()),
            (owned("dropped"), text_list(&self.dropped)),
            (owned("sshAgentRelay"), self.relay_json()),
            (owned("notes"), notes_json()),
        ];
        proof {
            assert(members_of(members@) =~= self.document()->Object_0);
            reveal_strlit("workspace");
            reveal_strlit("kind");
            reveal_strlit("runtimeLayer");
            reveal_strlit("layers");
            reveal_strlit("config");
            reveal_strlit("origins");
            reveal_strlit("dropped");
            reveal_strlit("sshAgentRelay");
            reveal_strlit("notes");
            assert("workspace"@.len() == 9);
            assert("kind"@.len() == 4);
            assert("runtimeLayer"@.len() == 12);
            assert("layers"@.len() == 6 && "layers"@[0] == 'l');
            assert("config"@.len() == 6 && "config"@[0] == 'c');
            assert("origins"@.len() == 7 && "origins"@[0] == 'o');
            assert("dropped"@.len() == 7 && "dropped"@[0] == 'd');
            assert("sshAgentRelay"@.len() == 13);
            assert("notes"@.len() == 5);
        }
        object_value(members)
    }

    /// The report as the text of a JSON document over several lines.
    pub fn json_report(&self) -> (r: Result<String, String>)
        requires
            self.wf(),
        ensures
            match r {
                Ok(text) => json_pretty(self.document()) == Ok::<Seq<char>, Seq<char>>(text@),
                Err(message) => json_pretty(self.document()) == Err::<Seq<char>, Seq<char>>(message@),
            },
    {
        let value = self.to_json();
        pretty_text(&value)
    }
}

/// The relay's permission is the base file's alone: what the configuration says
/// makes a relay that is not allowed no more effective, whoever asks.
pub proof fn only_the_base_file_allows_the_relay(report: ExplainReport)
    requires
        !report.relay.allowed,
    ensures
        relay_document(report.relay, report.requested(), relay_layer(report.origins@))->Object_0[0].1
            is Null,
        relay_document(report.relay, report.requested(), relay_layer(report.origins@))->Object_0[2].1
            == Json::Bool(false),
{
}

} // verus!
