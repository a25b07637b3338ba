//! `dev prune`: removing a workspace's superseded images.
use vstd::prelude::*;

pub mod laws;

use crate::assoc::get;
use crate::model::{copy_texts, gathered, gathered_step};
use crate::order::{sorted, text_le, Ranked};
use crate::text::{
    begins_with, cat2, cat3, cat4, chars_of, finishes_with, holds_text, join, owned, same,
    strip_prefix, strip_suffix, texts,
};

verus! {

/// An image as a runtime lists it.
#[derive(Debug, PartialEq, Eq)]
pub struct ImageInfo {
    pub id: String,
    pub repo_tags: Vec<String>,
    pub labels: Vec<(String, String)>,
}

/// The images that stay.
#[derive(Debug, PartialEq, Eq)]
pub struct KeepSet {
    /// The names of the current images.
    pub current: Vec<String>,
    /// The names or ids of the images that a container is made of.
    pub in_use: Vec<String>,
}

// ---------------------------------------------------------------------------
// Names
// ---------------------------------------------------------------------------

/// A name without the local registry in front of it.
pub open spec fn local_name(name: Seq<char>) -> Seq<char> {
    if begins_with(name, "localhost/"@) {
        name.skip("localhost/"@.len() as int)
    } else {
        name
    }
}

/// A name without the local registry in front of it.
pub fn strip_local_registry(name: &str) -> (r: String)
    ensures
        r@ == local_name(name@),
{
    match strip_prefix(name, "localhost/") {
        Some(rest) => rest,
        None => owned(name),
    }
}

/// A reference without an implied tag.
pub open spec fn untagged(tag: Seq<char>) -> Seq<char> {
    if finishes_with(tag, ":latest"@) {
        tag.take(tag.len() - ":latest"@.len())
    } else {
        tag
    }
}

/// A reference as `dev` names it: without the local registry and without an
/// implied tag.
pub fn bare_tag(tag: &str) -> (r: String)
    ensures
        r@ == local_name(untagged(tag@)),
{
    match strip_suffix(tag, ":latest") {
        Some(name) => strip_local_registry(name.as_str()),
        None => strip_local_registry(tag),
    }
}

/// A lower-case hexadecimal digit.
pub open spec fn hex_digit(c: char) -> bool {
    '0' <= c <= '9' || 'a' <= c <= 'f'
}

/// Twelve lower-case hexadecimal digits.
pub open spec fn twelve_hex(s: Seq<char>) -> bool {
    s.len() == 12 && forall|i: int| 0 <= i < 12 ==> hex_digit(#[trigger] s[i])
}

/// What follows `-features-` in a name that `dev` gives: a digest, with `-uid`
/// behind it or not.
pub open spec fn derived_suffix(rest: Seq<char>) -> bool {
    if finishes_with(rest, "-uid"@) {
        twelve_hex(rest.take(rest.len() - "-uid"@.len()))
    } else {
        twelve_hex(rest)
    }
}

/// Whether this is what follows `-features-` in a name that `dev` gives.
pub fn is_derived_feature_suffix(rest: &str) -> (r: bool)
    ensures
        r == derived_suffix(rest@),
{
    let digest = match strip_suffix(rest, "-uid") {
        Some(digest) => digest,
        None => owned(rest),
    };
    let v = chars_of(digest.as_str());
    if v.len() != 12 {
        return false;
    }
    let mut i: usize = 0;
    while i < 12
        invariant
            derived_suffix(rest@) == twelve_hex(v@),
            v@.len() == 12,
            i <= 12,
            forall|j: int| 0 <= j < i ==> hex_digit(#[trigger] v@[j]),
        decreases 12 - i,
    {
        let c = v[i];
        if !(('0' <= c && c <= '9') || ('a' <= c && c <= 'f')) {
            return false;
        }
        i = i + 1;
    }
    true
}

// ---------------------------------------------------------------------------
// The plan
// ---------------------------------------------------------------------------

/// The name behind a tag, if it is one that `dev` gives to a feature image of
/// the workspace.
pub open spec fn family_name(tag: Seq<char>, folder_image: Seq<char>) -> Option<Seq<char>> {
    let name = local_name(untagged(tag));
    let prefix = folder_image + "-features-"@;
    if finishes_with(tag, ":latest"@) && begins_with(name, prefix) && derived_suffix(
        name.skip(prefix.len() as int),
    ) {
        Some(name)
    } else {
        None
    }
}

/// What becomes of a tag.
#[derive(Clone, Copy, Debug, PartialEq, Eq, Structural)]
pub enum Fate {
    /// It is none of the workspace's.
    Foreign,
    Current,
    InUse,
    Stale,
}

/// What becomes of a tag: a name of the workspace's is stale unless it is
/// current or in use.
pub open spec fn fate_of(tag: Seq<char>, current: Seq<Seq<char>>, in_use: Seq<Seq<char>>, folder_image: Seq<char>) -> Fate {
    match family_name(tag, folder_image) {
        None => Fate::Foreign,
        Some(name) => if current.contains(name) {
            Fate::Current
        } else if in_use.contains(name) {
            Fate::InUse
        } else {
            Fate::Stale
        },
    }
}

fn fate(tag: &str, keep: &KeepSet, folder_image: &str, prefix: &str) -> (r: Fate)
    requires
        prefix@ == folder_image@ + "-features-"@,
    ensures
        r == fate_of(tag@, texts(keep.current@), texts(keep.in_use@), folder_image@),
{
    let name = match strip_suffix(tag, ":latest") {
        Some(name) => strip_local_registry(name.as_str()),
        None => {
            return Fate::Foreign;
        },
    };
    let rest = match strip_prefix(name.as_str(), prefix) {
        Some(rest) => rest,
        None => {
            return Fate::Foreign;
        },
    };
    if !is_derived_feature_suffix(rest.as_str()) {
        return Fate::Foreign;
    }
    if holds_text(&keep.current, name.as_str()) {
        Fate::Current
    } else if holds_text(&keep.in_use, name.as_str()) {
        Fate::InUse
    } else {
        Fate::Stale
    }
}

/// All tags of all images, in order.
pub open spec fn all_tags(images: Seq<ImageInfo>) -> Seq<Seq<char>>
    decreases images.len(),
{
    if images.len() == 0 {
        Seq::empty()
    } else {
        all_tags(images.drop_last()) + texts(images.last().repo_tags@)
    }
}

/// The tags with this fate, in order.
pub open spec fn tags_with(
    tags: Seq<Seq<char>>,
    fate: Fate,
    current: Seq<Seq<char>>,
    in_use: Seq<Seq<char>>,
    folder_image: Seq<char>,
) -> Seq<Seq<char>> {
    gathered(
        tags,
        |t: Seq<char>|
            if fate_of(t, current, in_use, folder_image) == fate {
                Some(t)
            } else {
                None
            },
    )
}

/// The id of an image that nothing names any more, if it was built for the
/// workspace and no container is made of it.
pub open spec fn dangling_id(
    image: ImageInfo,
    in_use: Seq<Seq<char>>,
    folder_image: Seq<char>,
    workspace_label: Seq<char>,
) -> Option<Seq<char>> {
    let labels = crate::assoc::pair_map(image.labels@);
    if (forall|i: int|
        0 <= i < image.repo_tags@.len() ==> (#[trigger] image.repo_tags@[i])@ == "<none>:<none>"@)
        && labels.contains_key(workspace_label) && labels[workspace_label] == folder_image
        && !in_use.contains(image.id@) {
        Some(image.id@)
    } else {
        None
    }
}

/// The ids of the workspace's images that nothing names any more, in order.
pub open spec fn dangling_ids(
    images: Seq<ImageInfo>,
    in_use: Seq<Seq<char>>,
    folder_image: Seq<char>,
    workspace_label: Seq<char>,
) -> Seq<Seq<char>> {
    gathered(images, |i: ImageInfo| dangling_id(i, in_use, folder_image, workspace_label))
}

fn is_dangling(image: &ImageInfo, keep: &KeepSet, folder_image: &str, workspace_label: &str) -> (r: bool)
    ensures
        r == (dangling_id(*image, texts(keep.in_use@), folder_image@, workspace_label@) is Some),
{
    let mut i: usize = 0;
    while i < image.repo_tags.len()
        invariant
            i <= image.repo_tags@.len(),
            forall|j: int| 0 <= j < i ==> (#[trigger] image.repo_tags@[j])@ == "<none>:<none>"@,
        decreases image.repo_tags@.len() - i,
    {
        if !same(image.repo_tags[i].as_str(), "<none>:<none>") {
            return false;
        }
        i = i + 1;
    }
    match get(&image.labels, workspace_label) {
        Some(value) => same(value.as_str(), folder_image) && !holds_text(
            &keep.in_use,
            image.id.as_str(),
        ),
        None => false,
    }
}

/// What one pass would do.
#[derive(Debug, PartialEq, Eq)]
pub struct SweepPlan {
    /// The superseded tags, a layered image before the one it is built on.
    pub stale: Vec<String>,
    /// The ids of the workspace's images that nothing names any more.
    pub dangling: Vec<String>,
    /// The tags of the current images.
    pub kept_current: Vec<String>,
    /// The tags that stay only because a container is made of their image.
    pub kept_in_use: Vec<String>,
}

/// The length of a text in UTF-8.
pub open spec fn byte_len(s: Seq<char>) -> nat {
    vstd::utf8::encode_utf8(s).len()
}

/// Longer texts come first, texts of one length in character order.
pub open spec fn longer_first(a: Seq<char>, b: Seq<char>) -> bool {
    byte_len(a) > byte_len(b) || (byte_len(a) == byte_len(b) && text_le(a, b))
}

/// A tag, ranked by its length.
pub struct ByLength {
    pub tag: String,
}

impl Ranked for ByLength {
    open spec fn rank_le(a: Self, b: Self) -> bool {
        longer_first(a.tag@, b.tag@)
    }

    proof fn rank_total(a: Self, b: Self) {
        crate::order::text_total(a.tag@, b.tag@);
    }

    proof fn rank_transitive(a: Self, b: Self, c: Self) {
        if byte_len(a.tag@) == byte_len(b.tag@) && byte_len(b.tag@) == byte_len(c.tag@) {
            crate::order::text_transitive(a.tag@, b.tag@, c.tag@);
        }
    }

    fn may_precede(&self, other: &Self) -> (r: bool) {
        let a: usize = self.tag.as_str().as_bytes().len();
        let b: usize = other.tag.as_str().as_bytes().len();
        if a != b {
            return a > b;
        }
        self.tag.may_precede(&other.tag)
    }
}

/// Each text may stand before every later one.
pub open spec fn in_order(s: Seq<Seq<char>>, le: spec_fn(Seq<char>, Seq<char>) -> bool) -> bool {
    forall|i: int, j: int| 0 <= i < j < s.len() ==> le(#[trigger] s[i], #[trigger] s[j])
}

/// Lists of the same values give lists of the same images of them.
proof fn mapped_multiset<A, B>(a: Seq<A>, b: Seq<A>, f: spec_fn(A) -> B)
    requires
        a.to_multiset() == b.to_multiset(),
    ensures
        a.map_values(f).to_multiset() == b.map_values(f).to_multiset(),
    decreases a.len(),
{
    broadcast use vstd::seq_lib::group_to_multiset_ensures;

    assert(a.len() == a.to_multiset().len());
    assert(b.len() == b.to_multiset().len());
    if a.len() == 0 {
        assert(a.map_values(f) =~= b.map_values(f));
    } else {
        let x = a.last();
        let a1 = a.drop_last();
        assert(a1.push(x) == a);
        assert(a.contains(a[a.len() - 1]));
        assert(a.to_multiset().count(x) > 0);
        assert(b.contains(x));
        let j = choose|j: int| 0 <= j < b.len() && b[j] == x;
        let b1 = b.remove(j);
        vstd::seq_lib::to_multiset_remove(b, j);
        assert(a1.to_multiset() =~= a.to_multiset().remove(x));
        mapped_multiset(a1, b1, f);
        assert(a.map_values(f) == a1.map_values(f).push(f(x)));
        let fb = b.map_values(f);
        assert(fb.remove(j) == b1.map_values(f));
        vstd::seq_lib::to_multiset_remove(fb, j);
        assert(fb.contains(fb[j]));
        assert(fb.to_multiset().count(f(x)) > 0);
        assert(fb.to_multiset().remove(f(x)).insert(f(x)) =~= fb.to_multiset());
    }
}

/// The texts in character order.
fn alphabetical(v: Vec<String>) -> (r: Vec<String>)
    ensures
        texts(r@).to_multiset() == texts(v@).to_multiset(),
        in_order(texts(r@), |a: Seq<char>, b: Seq<char>| text_le(a, b)),
{
    let r = sorted(v);
    proof {
        mapped_multiset(r@, v@, |s: String| s@);
        let le = |a: Seq<char>, b: Seq<char>| text_le(a, b);
        assert forall|i: int, j: int| 0 <= i < j < texts(r@).len() implies le(
            #[trigger] texts(r@)[i],
            #[trigger] texts(r@)[j],
        ) by {
            assert(String::rank_le(r@[i], r@[j]));
        }
    }
    r
}

/// The texts, longer ones first.
fn longest_first(v: Vec<String>) -> (r: Vec<String>)
    ensures
        texts(r@).to_multiset() == texts(v@).to_multiset(),
        in_order(texts(r@), |a: Seq<char>, b: Seq<char>| longer_first(a, b)),
{
    let ghost f = |t: ByLength| t.tag@;
    let ghost all = texts(v@);
    let mut ranked: Vec<ByLength> = Vec::new();
    for tag in it: v.into_iter()
        invariant
            f == (|t: ByLength| t.tag@),
            all == texts(it.seq()),
            ranked@.map_values(f) == all.take(it.index() as int),
    {
        let ghost before = ranked@.map_values(f);
        let ghost i = it.index() as int;
        assert(tag@ == all[i]);
        ranked.push(ByLength { tag });
        assert(ranked@.map_values(f) == before.push(all[i]));
        assert(all.take(i + 1) == all.take(i).push(all[i]));
    }
    assert(all.take(all.len() as int) == all);
    let ghost unsorted = ranked@;
    let ordered = sorted(ranked);
    let ghost done = ordered@;
    proof {
        mapped_multiset(done, unsorted, f);
    }
    let mut out: Vec<String> = Vec::new();
    for ranked_tag in it: ordered.into_iter()
        invariant
            f == (|t: ByLength| t.tag@),
            it.seq() == done,
            texts(out@) == done.map_values(f).take(it.index() as int),
    {
        let ghost before = texts(out@);
        let ghost i = it.index() as int;
        assert(ranked_tag.tag@ == done.map_values(f)[i]);
        out.push(ranked_tag.tag);
        assert(texts(out@) == before.push(done.map_values(f)[i]));
        assert(done.map_values(f).take(i + 1) == done.map_values(f).take(i).push(done.map_values(f)[i]));
    }
    proof {
        assert(done.map_values(f).take(done.len() as int) == done.map_values(f));
        let le = |a: Seq<char>, b: Seq<char>| longer_first(a, b);
        assert forall|i: int, j: int| 0 <= i < j < texts(out@).len() implies le(
            #[trigger] texts(out@)[i],
            #[trigger] texts(out@)[j],
        ) by {
            assert(texts(out@)[i] == done[i].tag@);
            assert(texts(out@)[j] == done[j].tag@);
            assert(ByLength::rank_le(done[i], done[j]));
        }
    }
    out
}

/// Push a copy of a tag.
fn push_tag(out: &mut Vec<String>, tag: &String)
    ensures
        texts(final(out)@) == texts(old(out)@).push(tag@),
{
    let ghost before = texts(out@);
    out.push(tag.clone());
    assert(texts(out@) == before.push(tag@));
}

/// A tag adds to the tags of its fate and to no others.
proof fn tags_with_step(
    tags: Seq<Seq<char>>,
    tag: Seq<char>,
    fate: Fate,
    current: Seq<Seq<char>>,
    in_use: Seq<Seq<char>>,
    folder_image: Seq<char>,
)
    ensures
        tags_with(tags.push(tag), fate, current, in_use, folder_image) == if fate_of(
            tag,
            current,
            in_use,
            folder_image,
        ) == fate {
            tags_with(tags, fate, current, in_use, folder_image).push(tag)
        } else {
            tags_with(tags, fate, current, in_use, folder_image)
        },
{
    assert(tags.push(tag).drop_last() == tags);
    assert(tags.push(tag).last() == tag);
}

/// What a pass over these images would do: remove the stale tags, layered
/// images before the ones they are built on, and the workspace's images that
/// nothing names any more; keep the rest.
pub fn sweep_plan(images: &Vec<ImageInfo>, keep: &KeepSet, folder_image: &str, workspace_label: &str) -> (r: SweepPlan)
    ensures
        ({
            let current = texts(keep.current@);
            let in_use = texts(keep.in_use@);
            let tags = all_tags(images@);
            &&& texts(r.stale@).to_multiset() == tags_with(
                tags,
                Fate::Stale,
                current,
                in_use,
                folder_image@,
            ).to_multiset()
            &&& in_order(texts(r.stale@), |a: Seq<char>, b: Seq<char>| longer_first(a, b))
            &&& texts(r.kept_current@).to_multiset() == tags_with(
                tags,
                Fate::Current,
                current,
                in_use,
                folder_image@,
            ).to_multiset()
            &&& in_order(texts(r.kept_current@), |a: Seq<char>, b: Seq<char>| text_le(a, b))
            &&& texts(r.kept_in_use@).to_multiset() == tags_with(
                tags,
                Fate::InUse,
                current,
                in_use,
                folder_image@,
            ).to_multiset()
            &&& in_order(texts(r.kept_in_use@), |a: Seq<char>, b: Seq<char>| text_le(a, b))
            &&& texts(r.dangling@) == dangling_ids(images@, in_use, folder_image@, workspace_label@)
        }),
{
    let prefix = cat2(folder_image, "-features-");
    let ghost current = texts(keep.current@);
    let ghost in_use = texts(keep.in_use@);
    let ghost d = |i: ImageInfo| dangling_id(i, in_use, folder_image@, workspace_label@);
    let mut stale: Vec<String> = Vec::new();
    let mut kept_current: Vec<String> = Vec::new();
    let mut kept_in_use: Vec<String> = Vec::new();
    let mut dangling: Vec<String> = Vec::new();
    let mut i: usize = 0;
    proof {
        assert(all_tags(images@.take(0)) == Seq::<Seq<char>>::empty());
        assert(texts(stale@) == Seq::<Seq<char>>::empty());
        assert(texts(kept_current@) == Seq::<Seq<char>>::empty());
        assert(texts(kept_in_use@) == Seq::<Seq<char>>::empty());
        assert(texts(dangling@) == gathered(images@.take(0), d));
    }
    while i < images.len()
        invariant
            prefix@ == folder_image@ + "-features-"@,
            current == texts(keep.current@),
            in_use == texts(keep.in_use@),
            d == (|i: ImageInfo| dangling_id(i, in_use, folder_image@, workspace_label@)),
            i <= images@.len(),
            texts(stale@) == tags_with(
                all_tags(images@.take(i as int)),
                Fate::Stale,
                current,
                in_use,
                folder_image@,
            ),
            texts(kept_current@) == tags_with(
                all_tags(images@.take(i as int)),
                Fate::Current,
                current,
                in_use,
                folder_image@,
            ),
            texts(kept_in_use@) == tags_with(
                all_tags(images@.take(i as int)),
                Fate::InUse,
                current,
                in_use,
                folder_image@,
            ),
            texts(dangling@) == gathered(images@.take(i as int), d),
        decreases images@.len() - i,
    {
        let tags = &images[i].repo_tags;
        let ghost before = all_tags(images@.take(i as int));
        let mut k: usize = 0;
        assert(before + texts(tags@).take(0) == before);
        while k < tags.len()
            invariant
                prefix@ == folder_image@ + "-features-"@,
                current == texts(keep.current@),
                in_use == texts(keep.in_use@),
                k <= tags@.len(),
                texts(stale@) == tags_with(
                    before + texts(tags@).take(k as int),
                    Fate::Stale,
                    current,
                    in_use,
                    folder_image@,
                ),
                texts(kept_current@) == tags_with(
                    before + texts(tags@).take(k as int),
                    Fate::Current,
                    current,
                    in_use,
                    folder_image@,
                ),
                texts(kept_in_use@) == tags_with(
                    before + texts(tags@).take(k as int),
                    Fate::InUse,
                    current,
                    in_use,
                    folder_image@,
                ),
            decreases tags@.len() - k,
        {
            proof {
                let so_far = before + texts(tags@).take(k as int);
                let tag = tags@[k as int]@;
                assert(before + texts(tags@).take(k + 1) == so_far.push(tag));
                tags_with_step(so_far, tag, Fate::Stale, current, in_use, folder_image@);
                tags_with_step(so_far, tag, Fate::Current, current, in_use, folder_image@);
                tags_with_step(so_far, tag, Fate::InUse, current, in_use, folder_image@);
            }
            match fate(tags[k].as_str(), keep, folder_image, prefix.as_str()) {
                Fate::Foreign => {},
                Fate::Current => {
                    push_tag(&mut kept_current, &tags[k]);
                },
                Fate::InUse => {
                    push_tag(&mut kept_in_use, &tags[k]);
                },
                Fate::Stale => {
                    push_tag(&mut stale, &tags[k]);
                },
            }
            k = k + 1;
        }
        proof {
            assert(texts(tags@).take(tags@.len() as int) == texts(tags@));
            assert(images@.take(i + 1).drop_last() == images@.take(i as int));
            assert(images@.take(i + 1).last() == images@[i as int]);
            gathered_step(images@, d, i as int);
        }
        if is_dangling(&images[i], keep, folder_image, workspace_label) {
            push_tag(&mut dangling, &images[i].id);
        }
        i = i + 1;
    }
    assert(images@.take(images@.len() as int) == images@);
    SweepPlan {
        stale: longest_first(stale),
        dangling,
        kept_current: alphabetical(kept_current),
        kept_in_use: alphabetical(kept_in_use),
    }
}

/// The images that stay: the workspace's own, those of its current
/// configurations, and those that a container is made of.
pub fn keep_set(
    folder_image: String,
    folder_uid_image: String,
    families: &Vec<Option<(String, String)>>,
    container_images: &Vec<String>,
) -> (r: KeepSet)
    ensures
        forall|s: Seq<char>|
            texts(r.current@).contains(s) <==> s == folder_image@ || s == folder_uid_image@ || exists|i: int|
                0 <= i < families@.len() && #[trigger] family_holds(families@[i], s),
        texts(r.in_use@) == texts(container_images@).map_values(|s: Seq<char>| local_name(untagged(s))),
{
    let ghost (a, b) = (folder_image@, folder_uid_image@);
    let mut current: Vec<String> = Vec::new();
    current.push(folder_image);
    current.push(folder_uid_image);
    proof {
        assert(texts(current@) =~= seq![a, b]);
        assert(texts(current@)[0] == a);
        assert(texts(current@)[1] == b);
        assert forall|s: Seq<char>| texts(current@).contains(s) <==> s == a || s == b by {}
    }
    let mut i: usize = 0;
    while i < families.len()
        invariant
            i <= families@.len(),
            forall|s: Seq<char>|
                texts(current@).contains(s) <==> s == a || s == b || exists|j: int|
                    0 <= j < i && #[trigger] family_holds(families@[j], s),
        decreases families@.len() - i,
    {
        let ghost before = texts(current@);
        match &families[i] {
            Some((tag, uid_tag)) => {
                push_tag(&mut current, uid_tag);
                push_tag(&mut current, tag);
                proof {
                    let now = texts(current@);
                    assert(now == before.push(uid_tag@).push(tag@));
                    assert forall|s: Seq<char>| now.contains(s) <==> before.contains(s) || family_holds(
                        families@[i as int],
                        s,
                    ) by {
                        if before.contains(s) {
                            let j = choose|j: int| 0 <= j < before.len() && before[j] == s;
                            assert(now[j] == s);
                        }
                        assert(now[before.len() as int] == uid_tag@);
                        assert(now[before.len() as int + 1] == tag@);
                    }
                }
            },
            None => {},
        }
        proof {
            let now = texts(current@);
            assert forall|s: Seq<char>| now.contains(s) <==> s == a || s == b || exists|j: int|
                0 <= j < i + 1 && #[trigger] family_holds(families@[j], s) by {
                if family_holds(families@[i as int], s) {
                    assert(now.contains(s));
                }
            }
        }
        i = i + 1;
    }
    let ghost all = texts(container_images@).map_values(|s: Seq<char>| local_name(untagged(s)));
    let mut in_use: Vec<String> = Vec::new();
    let mut k: usize = 0;
    assert(texts(in_use@) == all.take(0));
    while k < container_images.len()
        invariant
            all == texts(container_images@).map_values(|s: Seq<char>| local_name(untagged(s))),
            k <= container_images@.len(),
            texts(in_use@) == all.take(k as int),
        decreases container_images@.len() - k,
    {
        let bare = bare_tag(container_images[k].as_str());
        push_tag(&mut in_use, &bare);
        k = k + 1;
        assert(all.take(k as int) == all.take(k - 1).push(all[k - 1]));
    }
    assert(all.take(all.len() as int) == all);
    KeepSet { current, in_use }
}

/// One of the two names of a configuration's image.
pub open spec fn family_holds(family: Option<(String, String)>, s: Seq<char>) -> bool {
    family matches Some(names) && (s == names.0@ || s == names.1@)
}

/// The filter that selects the containers of the workspace's Compose project.
pub fn compose_project_filter(folder_image: &str) -> (r: String)
    ensures
        r@ == "com.docker.compose.project="@ + folder_image@,
{
    cat2("com.docker.compose.project=", folder_image)
}

/// What is said when the current images cannot be determined.
pub fn unknown_family(e: &str, folder_image: &str) -> (r: String)
    ensures
        r@ == "cannot determine the current image family, so nothing will be removed: "@ + e@
            + "\nTo clean up manually: docker image ls --filter 'reference="@ + folder_image@ + "-features-*'"@,
{
    crate::text::cat5(
        "cannot determine the current image family, so nothing will be removed: ",
        e,
        "\nTo clean up manually: docker image ls --filter 'reference=",
        folder_image,
        "-features-*'",
    )
}

// ---------------------------------------------------------------------------
// The sweep
// ---------------------------------------------------------------------------

/// Refuse the Apple runtime.
pub fn reject_unsupported_runtime(runtime_name: &str) -> (r: Result<(), String>)
    ensures
        r is Err <==> runtime_name@ == "apple"@,
        r matches Err(e) ==> e@ == "Image pruning is not yet supported for Apple Containers"@,
{
    if same(runtime_name, "apple") {
        return Err(owned("Image pruning is not yet supported for Apple Containers"));
    }
    Ok(())
}

/// The plan removes nothing.
pub open spec fn idle(plan: SweepPlan) -> bool {
    plan.stale@.len() == 0 && plan.dangling@.len() == 0
}

/// The lines of a dry run: each text between two others.
pub open spec fn wrapped(before: Seq<char>, s: Seq<Seq<char>>, after: Seq<char>) -> Seq<Seq<char>> {
    s.map_values(|t: Seq<char>| before + t + after)
}

fn push_wrapped(out: &mut Vec<String>, before: &str, v: &Vec<String>, after: &str)
    ensures
        texts(final(out)@) == texts(old(out)@) + wrapped(before@, texts(v@), after@),
{
    let ghost had = texts(out@);
    let ghost all = wrapped(before@, texts(v@), after@);
    let mut i: usize = 0;
    assert(had + all.take(0) == had);
    while i < v.len()
        invariant
            all == wrapped(before@, texts(v@), after@),
            i <= v@.len(),
            texts(out@) == had + all.take(i as int),
        decreases v@.len() - i,
    {
        let ghost so_far = texts(out@);
        let line = cat3(before, v[i].as_str(), after);
        out.push(line);
        i = i + 1;
        proof {
            assert(texts(out@) == so_far.push(line@));
            assert(line@ == all[i - 1]);
            assert(had + all.take(i as int) == so_far.push(all[i - 1]));
        }
    }
    assert(all.take(all.len() as int) == all);
}

/// What a dry run says: what would be removed, and what stays and why.
pub fn dry_run_report(plan: &SweepPlan) -> (r: Vec<String>)
    ensures
        texts(r@) == wrapped("would remove "@, texts(plan.stale@), ""@) + wrapped(
            "would remove "@,
            texts(plan.dangling@),
            " (dangling)"@,
        ) + wrapped("keeping "@, texts(plan.kept_current@), " (current)"@) + wrapped(
            "keeping "@,
            texts(plan.kept_in_use@),
            " (in use by a container)"@,
        ),
{
    let mut out: Vec<String> = Vec::new();
    assert(texts(out@) + wrapped("would remove "@, texts(plan.stale@), ""@) == wrapped(
        "would remove "@,
        texts(plan.stale@),
        ""@,
    ));
    push_wrapped(&mut out, "would remove ", &plan.stale, "");
    push_wrapped(&mut out, "would remove ", &plan.dangling, " (dangling)");
    push_wrapped(&mut out, "keeping ", &plan.kept_current, " (current)");
    push_wrapped(&mut out, "keeping ", &plan.kept_in_use, " (in use by a container)");
    out
}

/// What is to be done with a plan.
#[derive(Debug, PartialEq, Eq)]
pub enum SweepStep {
    /// Say this; nothing is removed.
    Say(Vec<String>),
    /// Remove what the plan lists.
    Remove,
}

/// A plan that removes nothing says so, a dry run says what it would do, and
/// else the plan is carried out.
pub fn sweep_step(plan: &SweepPlan, dry_run: bool) -> (r: SweepStep)
    ensures
        idle(*plan) ==> (r matches SweepStep::Say(lines) && texts(lines@)
            == seq!["No superseded feature images for this workspace."@]),
        !idle(*plan) && dry_run ==> (r matches SweepStep::Say(lines) && texts(lines@) == wrapped(
            "would remove "@,
            texts(plan.stale@),
            ""@,
        ) + wrapped("would remove "@, texts(plan.dangling@), " (dangling)"@) + wrapped(
            "keeping "@,
            texts(plan.kept_current@),
            " (current)"@,
        ) + wrapped("keeping "@, texts(plan.kept_in_use@), " (in use by a container)"@)),
        !idle(*plan) && !dry_run ==> r is Remove,
{
    if plan.stale.len() == 0 && plan.dangling.len() == 0 {
        let lines: Vec<String> = vec![owned("No superseded feature images for this workspace.")];
        assert(texts(lines@) =~= seq!["No superseded feature images for this workspace."@]);
        return SweepStep::Say(lines);
    }
    if dry_run {
        return SweepStep::Say(dry_run_report(plan));
    }
    SweepStep::Remove
}

/// The removals of a plan, one after the other.
pub struct Sweep {
    references: Vec<String>,
    at: usize,
    failures: Vec<String>,
}

impl Sweep {
    /// What is still to be removed, the next one first.
    pub closed spec fn rest(&self) -> Seq<Seq<char>> {
        texts(self.references@).skip(self.at as int)
    }

    /// What failed so far.
    pub closed spec fn failed(&self) -> Seq<Seq<char>> {
        texts(self.failures@)
    }

    pub closed spec fn wf(&self) -> bool {
        self.at <= self.references@.len()
    }

    /// Everything that the plan removes is still to be removed: the stale tags,
    /// then the images that nothing names.
    pub fn new(plan: &SweepPlan) -> (r: Self)
        ensures
            r.wf(),
            r.rest() == texts(plan.stale@) + texts(plan.dangling@),
            r.failed() == Seq::<Seq<char>>::empty(),
    {
        let mut references = copy_texts(&plan.stale);
        let mut more = copy_texts(&plan.dangling);
        references.append(&mut more);
        let failures: Vec<String> = Vec::new();
        proof {
            assert(texts(references@) == texts(plan.stale@) + texts(plan.dangling@));
            assert(texts(references@).skip(0) == texts(references@));
            assert(texts(failures@) == Seq::<Seq<char>>::empty());
        }
        Sweep { references, at: 0, failures }
    }

    /// What to remove next, if anything is left.
    pub fn next(&self) -> (r: Option<String>)
        requires
            self.wf(),
        ensures
            r is None <==> self.rest().len() == 0,
            r matches Some(reference) ==> reference@ == self.rest()[0],
    {
        if self.at < self.references.len() {
            Some(self.references[self.at].clone())
        } else {
            None
        }
    }

    /// Take what came of a removal. A failure is kept for the end and does not
    /// stop the sweep.
    pub fn removed(&mut self, error: &Option<String>) -> (r: Option<String>)
        requires
            old(self).wf(),
            old(self).rest().len() > 0,
        ensures
            final(self).wf(),
            final(self).rest() == old(self).rest().drop_first(),
            match *error {
                None => {
                    &&& final(self).failed() == old(self).failed()
                    &&& r is Some && r->Some_0@ == "removed "@ + old(self).rest()[0]
                },
                Some(e) => {
                    &&& r is None
                    &&& final(self).failed() == old(self).failed().push(
                        "remove_image "@ + old(self).rest()[0] + " failed: "@ + e@,
                    )
                },
            },
    {
        let ghost before = self.rest();
        let reference = self.references[self.at].clone();
        assert(self.at < self.references.len());
        self.at = self.at + 1;
        assert(self.rest() == before.drop_first());
        match error {
            None => Some(cat2("removed ", reference.as_str())),
            Some(e) => {
                let said = cat4("remove_image ", reference.as_str(), " failed: ", e.as_str());
                let ghost had = texts(self.failures@);
                self.failures.push(said);
                assert(texts(self.failures@) == had.push(said@));
                None
            },
        }
    }

    /// The end: every failure, in one message.
    pub fn finish(&self) -> (r: Result<(), String>)
        ensures
            r is Ok <==> self.failed().len() == 0,
            r matches Err(e) ==> e@ == crate::text::joined(self.failed(), "; "@),
    {
        assert(texts(self.failures@).len() == self.failures@.len());
        if self.failures.len() == 0 {
            Ok(())
        } else {
            Err(join(&self.failures, "; "))
        }
    }
}

} // verus!
