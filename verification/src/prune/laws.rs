//! What holds of every sweep.
use vstd::prelude::*;

use crate::prune::{
    all_tags, byte_len, dangling_id, dangling_ids, derived_suffix, fate_of, in_order, local_name,
    longer_first, tags_with, untagged, Fate, ImageInfo, KeepSet, SweepPlan,
};
use crate::text::{begins_with, finishes_with};

verus! {

/// Every tag that a sweep removes is a `:latest` tag that `dev` gave to a
/// feature image of this workspace, and names neither a current image nor one
/// that a container is made of.
pub proof fn only_superseded_tags_are_swept(
    images: Seq<ImageInfo>,
    current: Seq<Seq<char>>,
    in_use: Seq<Seq<char>>,
    folder_image: Seq<char>,
    tag: Seq<char>,
)
    requires
        tags_with(all_tags(images), Fate::Stale, current, in_use, folder_image).contains(tag),
    ensures
        all_tags(images).contains(tag),
        finishes_with(tag, ":latest"@),
        ({
            let name = local_name(untagged(tag));
            let prefix = folder_image + "-features-"@;
            &&& begins_with(name, prefix)
            &&& derived_suffix(name.skip(prefix.len() as int))
            &&& !current.contains(name)
            &&& !in_use.contains(name)
        }),
{
    tags_have_their_fate(all_tags(images), Fate::Stale, current, in_use, folder_image, tag);
}

/// A tag is listed under its fate, and only there.
pub proof fn tags_have_their_fate(
    tags: Seq<Seq<char>>,
    fate: Fate,
    current: Seq<Seq<char>>,
    in_use: Seq<Seq<char>>,
    folder_image: Seq<char>,
    tag: Seq<char>,
)
    ensures
        tags_with(tags, fate, current, in_use, folder_image).contains(tag) <==> tags.contains(tag)
            && fate_of(tag, current, in_use, folder_image) == fate,
{
    let f = |t: Seq<char>|
        if fate_of(t, current, in_use, folder_image) == fate {
            Some(t)
        } else {
            None
        };
    crate::model::gathered_holds(tags, f, tag);
    if tags.contains(tag) && fate_of(tag, current, in_use, folder_image) == fate {
        let i = choose|i: int| 0 <= i < tags.len() && tags[i] == tag;
        assert(f(tags[i]) == Some(tag));
    }
}

/// No tag is both removed and kept.
pub proof fn removed_and_kept_are_disjoint(
    tags: Seq<Seq<char>>,
    current: Seq<Seq<char>>,
    in_use: Seq<Seq<char>>,
    folder_image: Seq<char>,
    tag: Seq<char>,
)
    requires
        tags_with(tags, Fate::Stale, current, in_use, folder_image).contains(tag),
    ensures
        !tags_with(tags, Fate::Current, current, in_use, folder_image).contains(tag),
        !tags_with(tags, Fate::InUse, current, in_use, folder_image).contains(tag),
{
    tags_have_their_fate(tags, Fate::Stale, current, in_use, folder_image, tag);
    tags_have_their_fate(tags, Fate::Current, current, in_use, folder_image, tag);
    tags_have_their_fate(tags, Fate::InUse, current, in_use, folder_image, tag);
}

/// An image is removed by its id only if it carries the workspace's label, has
/// no name of its own, and no container is made of it.
pub proof fn only_labelled_leftovers_are_swept(
    images: Seq<ImageInfo>,
    in_use: Seq<Seq<char>>,
    folder_image: Seq<char>,
    workspace_label: Seq<char>,
    id: Seq<char>,
)
    requires
        dangling_ids(images, in_use, folder_image, workspace_label).contains(id),
    ensures
        !in_use.contains(id),
        exists|i: int|
            {
                &&& 0 <= i < images.len()
                &&& (#[trigger] images[i]).id@ == id
                &&& crate::assoc::pair_map(images[i].labels@).contains_key(workspace_label)
                &&& crate::assoc::pair_map(images[i].labels@)[workspace_label] == folder_image
                &&& forall|k: int|
                    0 <= k < images[i].repo_tags@.len() ==> (#[trigger] images[i].repo_tags@[k])@
                        == "<none>:<none>"@
            },
{
    let d = |i: ImageInfo| dangling_id(i, in_use, folder_image, workspace_label);
    crate::model::gathered_holds(images, d, id);
    let i = choose|i: int| 0 <= i < images.len() && d(#[trigger] images[i]) == Some(id);
    assert(images[i].id@ == id);
}

/// The bytes of two texts put together are the bytes of both.
pub proof fn byte_len_adds(a: Seq<char>, b: Seq<char>)
    ensures
        byte_len(a + b) == byte_len(a) + byte_len(b),
    decreases a.len(),
{
    if a.len() == 0 {
        assert(a + b == b);
    } else {
        byte_len_adds(a.drop_first(), b);
        assert((a + b).drop_first() == a.drop_first() + b);
    }
}

/// A layered image is removed before the image it is built on.
pub proof fn layered_images_go_first(stale: Seq<Seq<char>>, name: Seq<char>, child: int, parent: int)
    requires
        in_order(stale, |a: Seq<char>, b: Seq<char>| longer_first(a, b)),
        0 <= child < stale.len(),
        0 <= parent < stale.len(),
        stale[child] == name + "-uid"@ + ":latest"@,
        stale[parent] == name + ":latest"@,
    ensures
        child < parent,
{
    byte_len_adds(name, "-uid"@);
    byte_len_adds(name + "-uid"@, ":latest"@);
    byte_len_adds(name, ":latest"@);
    reveal_strlit("-uid");
    assert("-uid"@.len() == 4);
    assert(byte_len("-uid"@) > 0) by {
        assert(vstd::utf8::encode_utf8("-uid"@).len() >= vstd::utf8::encode_scalar("-uid"@[0] as u32).len());
    }
    let le = |a: Seq<char>, b: Seq<char>| longer_first(a, b);
    if parent < child {
        assert(le(stale[parent], stale[child]));
    }
}

// ---------------------------------------------------------------------------
// Names, written out
// ---------------------------------------------------------------------------

/// A digest: twelve characters, each one of the sixteen digits.
pub open spec fn is_digest(d: Seq<char>) -> bool {
    d.len() == 12 && forall|i: int|
        0 <= i < d.len() ==> seq![
            '0', '1', '2', '3', '4', '5', '6', '7', '8', '9', 'a', 'b', 'c', 'd', 'e', 'f',
        ].contains(#[trigger] d[i])
}

/// The name of a feature image of the workspace, by its digest.
pub open spec fn feature_name(folder_image: Seq<char>, digest: Seq<char>, uid: bool) -> Seq<char> {
    folder_image + "-features-"@ + digest + (if uid {
        "-uid"@
    } else {
        Seq::empty()
    })
}

/// A tag under a name: with the local registry in front of it or not.
pub open spec fn latest_tag(name: Seq<char>, local: bool) -> Seq<char> {
    (if local {
        "localhost/"@
    } else {
        Seq::empty()
    }) + name + ":latest"@
}

proof fn sixteen_digits(c: char)
    ensures
        seq![
            '0', '1', '2', '3', '4', '5', '6', '7', '8', '9', 'a', 'b', 'c', 'd', 'e', 'f',
        ].contains(c) <==> crate::prune::hex_digit(c),
{
    let all = seq!['0', '1', '2', '3', '4', '5', '6', '7', '8', '9', 'a', 'b', 'c', 'd', 'e', 'f'];
    if crate::prune::hex_digit(c) {
        let k = if '0' <= c <= '9' {
            c as int - '0' as int
        } else {
            10 + (c as int - 'a' as int)
        };
        assert(all[k] == c);
    }
    if all.contains(c) {
        let k = choose|k: int| 0 <= k < all.len() && all[k] == c;
        assert(all[k] == c);
    }
}

proof fn digests_are_hex(d: Seq<char>)
    ensures
        is_digest(d) <==> crate::prune::twelve_hex(d),
{
    assert forall|i: int| 0 <= i < d.len() implies (seq![
        '0', '1', '2', '3', '4', '5', '6', '7', '8', '9', 'a', 'b', 'c', 'd', 'e', 'f',
    ].contains(#[trigger] d[i]) <==> crate::prune::hex_digit(d[i])) by {
        sixteen_digits(d[i]);
    }
    if is_digest(d) {
        assert forall|i: int| 0 <= i < 12 implies crate::prune::hex_digit(#[trigger] d[i]) by {
            sixteen_digits(d[i]);
        }
    }
    if crate::prune::twelve_hex(d) {
        assert forall|i: int| 0 <= i < d.len() implies seq![
            '0', '1', '2', '3', '4', '5', '6', '7', '8', '9', 'a', 'b', 'c', 'd', 'e', 'f',
        ].contains(#[trigger] d[i]) by {
            sixteen_digits(d[i]);
        }
    }
}

/// The local registry is taken off a name once, and other names are left alone.
pub proof fn the_local_registry_is_taken_off(name: Seq<char>)
    ensures
        local_name("localhost/"@ + name) == name,
        local_name(name) == name || name == "localhost/"@ + local_name(name),
        (name.len() < 10 || exists|i: int| 0 <= i < 10 && #[trigger] name[i] != "localhost/"@[i]) ==> local_name(name)
            == name,
{
    reveal_strlit("localhost/");
    assert("localhost/"@.len() == 10);
    let full = "localhost/"@ + name;
    assert(full.take(10) =~= "localhost/"@);
    assert(full.skip(10) =~= name);
    if begins_with(name, "localhost/"@) {
        assert(name =~= "localhost/"@ + name.skip(10));
        assert forall|i: int| 0 <= i < 10 implies #[trigger] name[i] == "localhost/"@[i] by {
            assert(name.take(10)[i] == name[i]);
        }
    }
}

/// An implied tag is taken off a reference once, and other references are left
/// alone.
pub proof fn an_implied_tag_is_taken_off(name: Seq<char>)
    ensures
        untagged(name + ":latest"@) == name,
        untagged(name) == name || name == untagged(name) + ":latest"@,
        name.len() < 7 || name.subrange(name.len() - 7, name.len() as int) != ":latest"@ ==> untagged(name) == name,
{
    reveal_strlit(":latest");
    assert(":latest"@.len() == 7);
    let full = name + ":latest"@;
    assert(full.skip(name.len() as int) =~= ":latest"@);
    assert(full.take(name.len() as int) =~= name);
    if finishes_with(name, ":latest"@) {
        assert(name =~= name.take(name.len() - 7) + ":latest"@);
        assert(name.subrange(name.len() - 7, name.len() as int) =~= name.skip(name.len() - 7));
    }
}

/// What follows `-features-` in a name that `dev` gives is a digest, or a digest
/// with `-uid` behind it; and every such text is one.
pub proof fn feature_suffixes_are_digests(rest: Seq<char>)
    ensures
        derived_suffix(rest) <==> is_digest(rest) || exists|d: Seq<char>|
            #[trigger] is_digest(d) && rest == d + "-uid"@,
{
    reveal_strlit("-uid");
    assert("-uid"@.len() == 4);
    digests_are_hex(rest);
    if finishes_with(rest, "-uid"@) {
        let d = rest.take(rest.len() - 4);
        digests_are_hex(d);
        assert(rest =~= d + "-uid"@);
        assert(rest.skip(rest.len() - 4)[0] == '-');
        assert(rest[rest.len() - 4] == '-');
        if is_digest(rest) {
            sixteen_digits(rest[rest.len() - 4]);
        }
    }
    if exists|d: Seq<char>| #[trigger] is_digest(d) && rest == d + "-uid"@ {
        let d = choose|d: Seq<char>| #[trigger] is_digest(d) && rest == d + "-uid"@;
        assert(rest.skip(rest.len() - 4) =~= "-uid"@);
        assert(rest.take(rest.len() - 4) =~= d);
        digests_are_hex(d);
    }
}

proof fn digests_are_suffixes(d: Seq<char>)
    requires
        is_digest(d),
    ensures
        derived_suffix(d),
        derived_suffix(d + "-uid"@),
{
    feature_suffixes_are_digests(d);
    feature_suffixes_are_digests(d + "-uid"@);
}

/// What becomes of a tag of the workspace's own feature images: it stays if its
/// name is current or a container is made of it, else it goes.
pub proof fn every_feature_tag_has_its_fate(
    current: Seq<Seq<char>>,
    in_use: Seq<Seq<char>>,
    folder_image: Seq<char>,
    digest: Seq<char>,
    uid: bool,
    local: bool,
)
    requires
        is_digest(digest),
        !begins_with(folder_image, "localhost/"@),
    ensures
        ({
            let name = feature_name(folder_image, digest, uid);
            fate_of(latest_tag(name, local), current, in_use, folder_image) == if current.contains(name) {
                Fate::Current
            } else if in_use.contains(name) {
                Fate::InUse
            } else {
                Fate::Stale
            }
        }),
{
    reveal_strlit("localhost/");
    reveal_strlit("-features-");
    reveal_strlit("-uid");
    assert("localhost/"@.len() == 10);
    assert("-features-"@.len() == 10);
    let name = feature_name(folder_image, digest, uid);
    let tag = latest_tag(name, local);
    let prefix = folder_image + "-features-"@;
    let tail = if uid {
        digest + "-uid"@
    } else {
        digest
    };
    digests_are_suffixes(digest);
    assert(name =~= prefix + tail);
    assert(name.take(prefix.len() as int) =~= prefix);
    assert(name.skip(prefix.len() as int) =~= tail);
    if folder_image.len() >= 10 {
        assert(folder_image.take(10) =~= name.take(10));
    } else {
        assert(name[folder_image.len() as int] == '-');
        assert("localhost/"@[folder_image.len() as int] != '-');
        assert(name.take(10)[folder_image.len() as int] == '-');
    }
    assert(!begins_with(name, "localhost/"@));
    the_local_registry_is_taken_off(name);
    if local {
        assert(tag =~= ("localhost/"@ + name) + ":latest"@);
        an_implied_tag_is_taken_off("localhost/"@ + name);
    } else {
        assert(tag =~= name + ":latest"@);
        an_implied_tag_is_taken_off(name);
    }
    reveal_strlit(":latest");
    assert(tag.skip(tag.len() - 7) =~= ":latest"@);
}

/// A tag that is none of the workspace's feature images is left alone: it has to
/// end in `:latest`, and be the folder's image, `-features-` and a digest, with
/// `-uid` behind it or not.
pub proof fn other_tags_are_left_alone(
    tag: Seq<char>,
    current: Seq<Seq<char>>,
    in_use: Seq<Seq<char>>,
    folder_image: Seq<char>,
)
    requires
        !(fate_of(tag, current, in_use, folder_image) is Foreign),
    ensures
        exists|d: Seq<char>, uid: bool, local: bool|
            is_digest(d) && tag == #[trigger] latest_tag(feature_name(folder_image, d, uid), local),
{
    reveal_strlit(":latest");
    reveal_strlit("-uid");
    assert(":latest"@.len() == 7);
    let bare = untagged(tag);
    let name = local_name(bare);
    let prefix = folder_image + "-features-"@;
    let rest = name.skip(prefix.len() as int);
    an_implied_tag_is_taken_off(tag);
    assert(tag =~= bare + ":latest"@);
    the_local_registry_is_taken_off(bare);
    feature_suffixes_are_digests(rest);
    assert(name =~= prefix + rest);
    let local = bare != name;
    let uid = !is_digest(rest);
    let d = if is_digest(rest) {
        rest
    } else {
        choose|d: Seq<char>| #[trigger] is_digest(d) && rest == d + "-uid"@
    };
    assert(feature_name(folder_image, d, uid) =~= name);
    assert(latest_tag(feature_name(folder_image, d, uid), local) =~= tag);
}

/// The tags of a listing are the tags of its images.
pub proof fn tags_of_every_image(images: Seq<ImageInfo>, tag: Seq<char>)
    ensures
        all_tags(images).contains(tag) <==> exists|i: int, k: int|
            0 <= i < images.len() && 0 <= k < images[i].repo_tags@.len() && (#[trigger] images[i].repo_tags@[k])@
                == tag,
    decreases images.len(),
{
    if images.len() > 0 {
        let rest = images.drop_last();
        tags_of_every_image(rest, tag);
        let last = crate::text::texts(images.last().repo_tags@);
        let before = all_tags(rest);
        let all = all_tags(images);
        assert(all == before + last);
        if all.contains(tag) {
            let j = choose|j: int| 0 <= j < all.len() && all[j] == tag;
            if j < before.len() {
                assert(before[j] == tag);
                let (i, k) = choose|i: int, k: int|
                    0 <= i < rest.len() && 0 <= k < rest[i].repo_tags@.len() && (#[trigger] rest[i].repo_tags@[k])@
                        == tag;
                assert(images[i].repo_tags@[k]@ == tag);
            } else {
                assert(images[images.len() - 1].repo_tags@[j - before.len()]@ == tag);
            }
        }
        if exists|i: int, k: int|
            0 <= i < images.len() && 0 <= k < images[i].repo_tags@.len() && (#[trigger] images[i].repo_tags@[k])@
                == tag {
            let (i, k) = choose|i: int, k: int|
                0 <= i < images.len() && 0 <= k < images[i].repo_tags@.len() && (
                #[trigger] images[i].repo_tags@[k])@ == tag;
            if i < rest.len() {
                assert(rest[i].repo_tags@[k]@ == tag);
                let j = choose|j: int| 0 <= j < before.len() && before[j] == tag;
                assert(all[j] == tag);
            } else {
                assert(last[k] == tag);
                assert(all[before.len() + k] == tag);
            }
        }
    }
}

/// Every superseded feature image is swept, and every other one reported as kept:
/// for each digest, with `-uid` behind it or not and under the local registry or
/// not, a listed tag is among the plan's stale tags unless its name is current or
/// in use, and then is among the tags that are kept for that reason.
pub proof fn every_listed_feature_tag_is_planned_for(
    images: Seq<ImageInfo>,
    keep: KeepSet,
    folder_image: Seq<char>,
    plan: SweepPlan,
    digest: Seq<char>,
    uid: bool,
    local: bool,
    i: int,
    k: int,
)
    requires
        ({
            let current = crate::text::texts(keep.current@);
            let in_use = crate::text::texts(keep.in_use@);
            let tags = all_tags(images);
            &&& crate::text::texts(plan.stale@).to_multiset() == tags_with(
                tags,
                Fate::Stale,
                current,
                in_use,
                folder_image,
            ).to_multiset()
            &&& crate::text::texts(plan.kept_current@).to_multiset() == tags_with(
                tags,
                Fate::Current,
                current,
                in_use,
                folder_image,
            ).to_multiset()
            &&& crate::text::texts(plan.kept_in_use@).to_multiset() == tags_with(
                tags,
                Fate::InUse,
                current,
                in_use,
                folder_image,
            ).to_multiset()
        }),
        is_digest(digest),
        !begins_with(folder_image, "localhost/"@),
        0 <= i < images.len(),
        0 <= k < images[i].repo_tags@.len(),
        images[i].repo_tags@[k]@ == latest_tag(feature_name(folder_image, digest, uid), local),
    ensures
        ({
            let tag = images[i].repo_tags@[k]@;
            let name = feature_name(folder_image, digest, uid);
            if crate::text::texts(keep.current@).contains(name) {
                crate::text::texts(plan.kept_current@).contains(tag)
            } else if crate::text::texts(keep.in_use@).contains(name) {
                crate::text::texts(plan.kept_in_use@).contains(tag)
            } else {
                crate::text::texts(plan.stale@).contains(tag)
            }
        }),
{
    broadcast use vstd::seq_lib::group_to_multiset_ensures;

    let current = crate::text::texts(keep.current@);
    let in_use = crate::text::texts(keep.in_use@);
    let tag = images[i].repo_tags@[k]@;
    let tags = all_tags(images);
    tags_of_every_image(images, tag);
    every_feature_tag_has_its_fate(current, in_use, folder_image, digest, uid, local);
    let fate = fate_of(tag, current, in_use, folder_image);
    tags_have_their_fate(tags, fate, current, in_use, folder_image, tag);
    let listed = tags_with(tags, fate, current, in_use, folder_image);
    assert(listed.to_multiset().count(tag) > 0);
    assert(crate::text::texts(plan.stale@).contains(tag) <==> crate::text::texts(plan.stale@).to_multiset().count(tag)
        > 0);
    assert(crate::text::texts(plan.kept_current@).contains(tag) <==> crate::text::texts(
        plan.kept_current@,
    ).to_multiset().count(tag) > 0);
    assert(crate::text::texts(plan.kept_in_use@).contains(tag) <==> crate::text::texts(
        plan.kept_in_use@,
    ).to_multiset().count(tag) > 0);
}

/// Every image that was built for the workspace, has no name of its own and is in
/// no container is swept by its id: its label is the folder's image, and no later
/// entry of its labels says otherwise.
pub proof fn every_leftover_is_swept(
    images: Seq<ImageInfo>,
    in_use: Seq<Seq<char>>,
    folder_image: Seq<char>,
    workspace_label: Seq<char>,
    i: int,
    k: int,
)
    requires
        0 <= i < images.len(),
        forall|j: int|
            0 <= j < images[i].repo_tags@.len() ==> (#[trigger] images[i].repo_tags@[j])@ == "<none>:<none>"@,
        0 <= k < images[i].labels@.len(),
        images[i].labels@[k].0@ == workspace_label,
        images[i].labels@[k].1@ == folder_image,
        forall|j: int| k < j < images[i].labels@.len() ==> (#[trigger] images[i].labels@[j]).0@ != workspace_label,
        !in_use.contains(images[i].id@),
    ensures
        dangling_ids(images, in_use, folder_image, workspace_label).contains(images[i].id@),
{
    let pairs = crate::assoc::pair_texts(images[i].labels@);
    assert(pairs[k] == (workspace_label, folder_image));
    assert forall|j: int| k < j < pairs.len() implies #[trigger] pairs[j].0 != pairs[k].0 by {
        assert(pairs[j].0 == images[i].labels@[j].0@);
    }
    crate::assoc::assoc_last(pairs, k);
    let d = |image: ImageInfo| dangling_id(image, in_use, folder_image, workspace_label);
    assert(d(images[i]) == Some(images[i].id@));
    crate::model::gathered_holds(images, d, images[i].id@);
}

/// An image that has a name, or whose labels name no workspace or another one, is
/// never swept by its id.
pub proof fn named_and_foreign_images_stay(
    image: ImageInfo,
    in_use: Seq<Seq<char>>,
    folder_image: Seq<char>,
    workspace_label: Seq<char>,
)
    ensures
        (exists|j: int|
            0 <= j < image.repo_tags@.len() && (#[trigger] image.repo_tags@[j])@ != "<none>:<none>"@)
            ==> dangling_id(image, in_use, folder_image, workspace_label) is None,
        in_use.contains(image.id@) ==> dangling_id(image, in_use, folder_image, workspace_label) is None,
        (forall|j: int|
            0 <= j < image.labels@.len() ==> (#[trigger] image.labels@[j]).0@ != workspace_label || image.labels@[j].1@
                != folder_image) ==> dangling_id(image, in_use, folder_image, workspace_label) is None,
{
    if dangling_id(image, in_use, folder_image, workspace_label) is Some {
        let pairs = crate::assoc::pair_texts(image.labels@);
        if forall|j: int|
            0 <= j < image.labels@.len() ==> (#[trigger] image.labels@[j]).0@ != workspace_label || image.labels@[j].1@
                != folder_image {
            crate::assoc::assoc_holds_a_pair(pairs, workspace_label);
            let j = choose|j: int|
                0 <= j < pairs.len() && #[trigger] pairs[j] == (
                    workspace_label,
                    crate::assoc::assoc(pairs)[workspace_label],
                );
            assert(image.labels@[j].0@ == pairs[j].0);
        }
    }
}

/// A plan has something to remove exactly where it lists a superseded tag or a leftover.
pub proof fn a_plan_with_something_to_remove(plan: SweepPlan, image: String)
    ensures
        plan.stale@.contains(image) ==> !crate::prune::idle(plan),
        plan.dangling@.contains(image) ==> !crate::prune::idle(plan),
        !crate::prune::idle(plan) ==> (exists|listed: String| #[trigger] plan.stale@.contains(listed)) || (exists|
            listed: String,
        | #[trigger]
            plan.dangling@.contains(listed)),
{
    if plan.stale@.len() > 0 {
        assert(plan.stale@.contains(plan.stale@[0]));
    }
    if plan.dangling@.len() > 0 {
        assert(plan.dangling@.contains(plan.dangling@[0]));
    }
}

/// A dry run has a line for each text, in order, and no other.
pub proof fn a_line_for_each_text(before: Seq<char>, s: Seq<Seq<char>>, behind: Seq<char>)
    ensures
        crate::prune::wrapped(before, s, behind).len() == s.len(),
        forall|i: int|
            0 <= i < s.len() ==> #[trigger] crate::prune::wrapped(before, s, behind)[i] == before + s[i] + behind,
{
}

/// A pair of names holds both of them and nothing else.
pub proof fn a_pair_holds_both_names(names: (String, String), s: Seq<char>)
    ensures
        crate::prune::family_holds(Some(names), names.0@),
        crate::prune::family_holds(Some(names), names.1@),
        crate::prune::family_holds(Some(names), s) ==> s == names.0@ || s == names.1@,
        !crate::prune::family_holds(None, s),
{
}

} // verus!
