//! Building a project's features on top of an image.
use vstd::prelude::*;

pub mod laws;

use crate::number::{decimal_of, show_unsigned};
use crate::text::{cat2, cat3, cat4, owned, texts};

verus! {

/// A feature, as it is spoken of.
#[derive(Debug, PartialEq, Eq)]
pub struct FeatureName {
    pub id: String,
    pub oci_ref: String,
    pub version: String,
    /// Another feature asked for it.
    pub is_dependency: bool,
}

/// The line of a feature that is to be fetched.
pub open spec fn fetch_line(feature: FeatureName) -> Seq<char> {
    "  Feature: "@ + feature.id@ + " ("@ + (feature.oci_ref@ + ":"@ + feature.version@ + ")"@)
}

/// The lines before features are fetched: how many, and, where more is to be
/// said, which.
pub open spec fn fetch_lines(features: Seq<FeatureName>, verbose: bool) -> Seq<Seq<char>> {
    seq!["Downloading "@ + decimal_of(features.len()) + " feature(s)..."@] + if verbose {
        features.map_values(|f: FeatureName| fetch_line(f))
    } else {
        Seq::empty()
    }
}

/// The lines before features are fetched.
pub fn download_notices(features: &Vec<FeatureName>, verbose: bool) -> (r: Vec<String>)
    ensures
        texts(r@) == fetch_lines(features@, verbose),
{
    let n = show_unsigned(features.len() as u64);
    let first = cat3("Downloading ", n.as_str(), " feature(s)...");
    let ghost start = seq![first@];
    let mut out: Vec<String> = vec![first];
    let ghost lines = features@.map_values(|f: FeatureName| fetch_line(f));
    assert(texts(out@) =~= start + lines.take(0));
    if verbose {
        let mut i: usize = 0;
        while i < features.len()
            invariant
                lines == features@.map_values(|f: FeatureName| fetch_line(f)),
                i <= features@.len(),
                texts(out@) == start + lines.take(i as int),
            decreases features@.len() - i,
        {
            let ghost before = texts(out@);
            let source = cat4(
                features[i].oci_ref.as_str(),
                ":",
                features[i].version.as_str(),
                ")",
            );
            let line = cat4("  Feature: ", features[i].id.as_str(), " (", source.as_str());
            let ghost text = line@;
            out.push(line);
            i = i + 1;
            assert(texts(out@) =~= before.push(text));
            assert(text =~= lines[i - 1]);
            assert(lines.take(i as int) =~= lines.take(i - 1).push(lines[i - 1]));
        }
        assert(lines.take(lines.len() as int) =~= lines);
    }
    assert(texts(out@) =~= fetch_lines(features@, verbose));
    out
}

/// The line of a feature in the order they are installed in.
pub open spec fn install_line(features: Seq<FeatureName>, i: int) -> Seq<char> {
    "  "@ + decimal_of((i + 1) as nat) + ": "@ + (features[i].id@ + if features[i].is_dependency {
        " (dependency)"@
    } else {
        ""@
    })
}

/// The lines about the order that features are installed in, where more is to be
/// said.
pub open spec fn install_lines(features: Seq<FeatureName>, verbose: bool) -> Seq<Seq<char>> {
    if verbose {
        seq!["Feature install order:"@] + Seq::new(features.len(), |i: int| install_line(features, i))
    } else {
        Seq::empty()
    }
}

/// The lines about the order that features are installed in.
pub fn order_notices(features: &Vec<FeatureName>, verbose: bool) -> (r: Vec<String>)
    ensures
        texts(r@) == install_lines(features@, verbose),
{
    let mut out: Vec<String> = Vec::new();
    if !verbose {
        assert(texts(out@) =~= install_lines(features@, verbose));
        return out;
    }
    out.push(owned("Feature install order:"));
    let ghost start = seq!["Feature install order:"@];
    let ghost lines = Seq::new(features@.len(), |i: int| install_line(features@, i));
    assert(texts(out@) =~= start + lines.take(0));
    let mut i: usize = 0;
    while i < features.len()
        invariant
            lines == Seq::new(features@.len(), |i: int| install_line(features@, i)),
            i <= features@.len(),
            texts(out@) == start + lines.take(i as int),
        decreases features@.len() - i,
    {
        let ghost before = texts(out@);
        let mark = if features[i].is_dependency {
            " (dependency)"
        } else {
            ""
        };
        let id = cat2(features[i].id.as_str(), mark);
        i = i + 1;
        let n = show_unsigned(i as u64);
        let line = cat4("  ", n.as_str(), ": ", id.as_str());
        let ghost text = line@;
        out.push(line);
        assert(texts(out@) =~= before.push(text));
        assert(text =~= lines[i - 1]);
        assert(lines.take(i as int) =~= lines.take(i - 1).push(lines[i - 1]));
    }
    assert(lines.take(lines.len() as int) =~= lines);
    out
}

/// What is said of features that others asked for, if there are any.
pub fn dependencies_notice(asked: usize, resolved: usize) -> (r: Option<String>)
    ensures
        resolved <= asked ==> r is None,
        resolved > asked ==> r is Some && r->Some_0@ == "Resolved "@ + decimal_of((resolved - asked) as nat)
            + " transitive dependencies"@,
{
    if resolved <= asked {
        return None;
    }
    let n = show_unsigned((resolved - asked) as u64);
    Some(cat3("Resolved ", n.as_str(), " transitive dependencies"))
}

// ---------------------------------------------------------------------------
// The order of things
// ---------------------------------------------------------------------------

/// What is to be done.
#[derive(Debug, PartialEq, Eq)]
pub enum FeatureAction {
    /// Fetch the features and those they depend on.
    Download,
    /// Hold the features to the lockfile.
    Lock,
    /// Put the features in order and lay them out for the build.
    Stage,
    /// Find out whom containers of the image are run as.
    ResolveUser,
    /// Build the image.
    Build,
    /// Remove what was laid out.
    RemoveStaging,
    /// The image is there.
    Finish,
    Fail(String),
}

/// What came of the last action.
#[derive(Debug, PartialEq, Eq)]
pub enum FeatureEvent {
    Begin,
    Done,
    Failed(String),
}

/// Where it has got to: what was last asked to be done.
#[derive(Debug, PartialEq, Eq)]
pub enum FeatureStage {
    Start,
    Download,
    Lock,
    Stage,
    ResolveUser,
    Build,
    RemoveStaging(Option<String>),
    Ended,
}

/// The event is one that the stage waits for.
pub open spec fn fits(stage: FeatureStage, event: FeatureEvent) -> bool {
    match stage {
        FeatureStage::Start => event is Begin,
        FeatureStage::RemoveStaging(_) => event is Done,
        FeatureStage::Ended => false,
        _ => event is Done || event is Failed,
    }
}

/// What comes next.
pub open spec fn feature_next(stage: FeatureStage, event: FeatureEvent) -> (FeatureStage, FeatureAction) {
    match (stage, event) {
        (FeatureStage::Start, _) => (FeatureStage::Download, FeatureAction::Download),
        (FeatureStage::Build, FeatureEvent::Failed(e)) => (
            FeatureStage::RemoveStaging(Some(e)),
            FeatureAction::RemoveStaging,
        ),
        (_, FeatureEvent::Failed(e)) => (FeatureStage::Ended, FeatureAction::Fail(e)),
        (FeatureStage::Download, _) => (FeatureStage::Lock, FeatureAction::Lock),
        (FeatureStage::Lock, _) => (FeatureStage::Stage, FeatureAction::Stage),
        (FeatureStage::Stage, _) => (FeatureStage::ResolveUser, FeatureAction::ResolveUser),
        (FeatureStage::ResolveUser, _) => (FeatureStage::Build, FeatureAction::Build),
        (FeatureStage::Build, _) => (
            FeatureStage::RemoveStaging(None),
            FeatureAction::RemoveStaging,
        ),
        (FeatureStage::RemoveStaging(Some(e)), _) => (FeatureStage::Ended, FeatureAction::Fail(e)),
        _ => (FeatureStage::Ended, FeatureAction::Finish),
    }
}

/// What is to be done next, given what came of the last action.
pub fn step(stage: FeatureStage, event: FeatureEvent) -> (r: (FeatureStage, FeatureAction))
    requires
        fits(stage, event),
    ensures
        r == feature_next(stage, event),
{
    match (stage, event) {
        (FeatureStage::Start, _) => (FeatureStage::Download, FeatureAction::Download),
        (FeatureStage::Build, FeatureEvent::Failed(e)) => (
            FeatureStage::RemoveStaging(Some(e)),
            FeatureAction::RemoveStaging,
        ),
        (_, FeatureEvent::Failed(e)) => (FeatureStage::Ended, FeatureAction::Fail(e)),
        (FeatureStage::Download, _) => (FeatureStage::Lock, FeatureAction::Lock),
        (FeatureStage::Lock, _) => (FeatureStage::Stage, FeatureAction::Stage),
        (FeatureStage::Stage, _) => (FeatureStage::ResolveUser, FeatureAction::ResolveUser),
        (FeatureStage::ResolveUser, _) => (FeatureStage::Build, FeatureAction::Build),
        (FeatureStage::Build, _) => (
            FeatureStage::RemoveStaging(None),
            FeatureAction::RemoveStaging,
        ),
        (FeatureStage::RemoveStaging(Some(e)), _) => (FeatureStage::Ended, FeatureAction::Fail(e)),
        _ => (FeatureStage::Ended, FeatureAction::Finish),
    }
}

/// The image is there only after a build that did not fail, and what was laid
/// out for a build is removed after it either way.
pub proof fn built_means_built(stage: FeatureStage, event: FeatureEvent)
    requires
        fits(stage, event),
    ensures
        feature_next(stage, event).1 is Finish ==> stage == FeatureStage::RemoveStaging(None::<String>),
        feature_next(stage, event).0 == FeatureStage::RemoveStaging(None::<String>) ==> stage is Build
            && event is Done,
        stage is Build ==> feature_next(stage, event).1 is RemoveStaging,
{
}

/// The features are held to the lockfile before anything is laid out or built.
pub proof fn locked_before_built(stage: FeatureStage, event: FeatureEvent)
    requires
        fits(stage, event),
    ensures
        feature_next(stage, event).1 is Stage ==> stage is Lock && event is Done,
        feature_next(stage, event).1 is Build ==> stage is ResolveUser,
        feature_next(stage, event).0 is ResolveUser ==> stage is Stage,
{
}

} // verus!
