//! The configuration a container is created with.
use vstd::prelude::*;

use crate::assoc::{distinct_names, pair_map, put_all};
use crate::model::{copy_opt, gathered, DevcontainerConfig, PortMapping};
use crate::text::{text_opt, texts};
use crate::up::host::{feature_entrypoints, feature_mount_strings, feature_mounts, ResolvedFeature};
use crate::up::mounts::{
    bind_views, mount_of, parse_mounts, parse_volumes, substitute_mounts, volume_of, volume_views,
    BindMount, VolumeMount,
};
use crate::up::run_args::{apply_run_args_capabilities, extended, MergedCapabilities, ResolvedRunArgs};

verus! {

/// The workspace mounted into the container.
#[derive(Debug, PartialEq, Eq)]
pub struct WorkspaceMount {
    pub source: String,
    pub target: String,
}

/// The configuration a container is created with. It holds secret values, so it
/// has no textual form.
pub struct ContainerConfig {
    pub image: String,
    pub name: String,
    pub labels: Vec<(String, String)>,
    pub env: Vec<(String, String)>,
    pub mounts: Vec<BindMount>,
    pub volumes: Vec<VolumeMount>,
    pub ports: Vec<PortMapping>,
    pub workspace_mount: WorkspaceMount,
    pub workspace_folder: String,
    pub entrypoint: Option<Vec<String>>,
    pub init: bool,
    pub privileged: bool,
    pub cap_add: Vec<String>,
    pub security_opt: Vec<String>,
    pub userns_mode: Option<String>,
}

/// The mount strings of a container: those of its features, then those of its
/// project, so that a project's mount comes over a feature's.
pub open spec fn all_mounts(features: Seq<ResolvedFeature>, emitted: Seq<Option<String>>) -> Seq<Seq<char>> {
    feature_mounts(features) + gathered(emitted, |m: Option<String>| text_opt(m))
}

/// The mount strings of a container: those of its features, then those of its
/// project.
pub fn mount_strings(features: &Vec<ResolvedFeature>, emitted: &Vec<Option<String>>) -> (r: Vec<String>)
    ensures
        texts(r@) == all_mounts(features@, emitted@),
{
    let mut out = feature_mount_strings(features);
    let mut own = substitute_mounts(emitted);
    let ghost a = out@;
    let ghost b = own@;
    out.append(&mut own);
    assert(texts(out@) == texts(a) + texts(b));
    out
}

/// A copy of a list of ports.
fn copy_ports(ports: &Option<Vec<PortMapping>>) -> (r: Vec<PortMapping>)
    ensures
        r@ == match *ports {
            Some(v) => v@,
            None => Seq::<PortMapping>::empty(),
        },
{
    let mut out: Vec<PortMapping> = Vec::new();
    match ports {
        None => {},
        Some(v) => {
            let mut i: usize = 0;
            while i < v.len()
                invariant
                    i <= v@.len(),
                    out@ == v@.take(i as int),
                decreases v@.len() - i,
            {
                out.push(v[i]);
                i = i + 1;
                assert(v@.take(i as int) == v@.take(i - 1).push(v@[i - 1]));
            }
            assert(v@.take(v@.len() as int) == v@);
        },
    }
    out
}

/// The configuration of a container: what the project declares, what its
/// features contribute, and what its `runArgs` add.
pub fn container_config(
    image: String,
    name: String,
    labels: &Vec<(String, String)>,
    env: Vec<(String, String)>,
    config: &DevcontainerConfig,
    features: &Vec<ResolvedFeature>,
    emitted_mounts: &Vec<Option<String>>,
    volume_strings: &Vec<String>,
    feature_caps: MergedCapabilities,
    run_args: &ResolvedRunArgs,
    workspace_mount: WorkspaceMount,
    workspace_folder: String,
) -> (r: ContainerConfig)
    ensures
        r.image == image,
        r.name == name,
        distinct_names(r.labels@),
        pair_map(r.labels@) == pair_map(labels@),
        r.env == env,
        bind_views(r.mounts@) == gathered(
            all_mounts(features@, emitted_mounts@),
            |s: Seq<char>| mount_of(s),
        ),
        volume_views(r.volumes@) == gathered(texts(volume_strings@), |s: Seq<char>| volume_of(s)),
        r.ports@ == crate::up::ports::forwarded(*config),
        r.workspace_mount == workspace_mount,
        r.workspace_folder == workspace_folder,
        ({
            let entrypoints = gathered(features@, |f: ResolvedFeature| text_opt(f.entrypoint));
            if entrypoints.len() == 0 {
                r.entrypoint is None
            } else {
                r.entrypoint is Some && texts(r.entrypoint->Some_0@) == entrypoints
            }
        }),
        r.init == (feature_caps.init || run_args.init),
        r.privileged == (feature_caps.privileged || run_args.privileged),
        texts(r.cap_add@) == extended(texts(feature_caps.cap_add@), texts(run_args.cap_add@)),
        texts(r.security_opt@) == extended(
            texts(feature_caps.security_opt@),
            texts(run_args.security_opt@),
        ),
        r.userns_mode == run_args.userns_mode,
{
    let mut caps = feature_caps;
    apply_run_args_capabilities(&mut caps, run_args);
    let strings = mount_strings(features, emitted_mounts);
    let mut own_labels: Vec<(String, String)> = Vec::new();
    put_all(&mut own_labels, labels);
    assert(pair_map(own_labels@) =~= pair_map(labels@)) by {
        assert(crate::assoc::pair_texts(Seq::<(String, String)>::empty()).len() == 0);
    }
    let eps = feature_entrypoints(features);
    assert(texts(eps@).len() == eps@.len());
    let entrypoint = if eps.len() == 0 {
        None
    } else {
        Some(eps)
    };
    ContainerConfig {
        image,
        name,
        labels: own_labels,
        env,
        mounts: parse_mounts(&strings),
        volumes: parse_volumes(volume_strings),
        ports: copy_ports(&config.forward_ports),
        workspace_mount,
        workspace_folder,
        entrypoint,
        init: caps.init,
        privileged: caps.privileged,
        cap_add: caps.cap_add,
        security_opt: caps.security_opt,
        userns_mode: copy_opt(&run_args.userns_mode),
    }
}

/// The mounts of a container are those of its features, in their order, and behind them
/// those of its project: one for each entry that gives one.
pub proof fn project_mounts_come_behind_those_of_features(
    features: Seq<ResolvedFeature>,
    emitted: Seq<Option<String>>,
    mount: String,
    feature: ResolvedFeature,
)
    ensures
        all_mounts(features, Seq::empty()) == feature_mounts(features),
        all_mounts(features, emitted.push(Some(mount))) == all_mounts(features, emitted).push(mount@),
        all_mounts(features, emitted.push(None)) == all_mounts(features, emitted),
        all_mounts(Seq::empty(), Seq::empty()) == Seq::<Seq<char>>::empty(),
        feature_mounts(features.push(feature)) == feature_mounts(features) + gathered(
            feature.mounts@,
            |m: (Option<String>, String)| text_opt(m.0),
        ),
{
    let f = |m: Option<String>| text_opt(m);
    let none = Seq::<Option<String>>::empty();
    assert(gathered(none, f) =~= Seq::empty());
    assert(all_mounts(features, none) =~= feature_mounts(features));
    let one = emitted.push(Some(mount));
    assert(one.drop_last() =~= emitted);
    assert(all_mounts(features, one) =~= all_mounts(features, emitted).push(mount@));
    assert(emitted.push(None).drop_last() =~= emitted);
    assert(all_mounts(features, emitted.push(None)) =~= all_mounts(features, emitted));
    assert(all_mounts(Seq::empty(), none) =~= Seq::empty());
    assert(features.push(feature).drop_last() =~= features);
}

} // verus!
