//! Mount and volume strings.
use vstd::prelude::*;

use crate::model::{gathered, gathered_step};
use crate::text::{cat2, same, split, split_once, texts, trim, trimmed};

verus! {

/// A host path mounted into the container.
#[derive(Debug, PartialEq, Eq)]
pub struct BindMount {
    pub source: String,
    pub target: String,
    pub readonly: bool,
}

/// A named volume mounted into the container.
#[derive(Debug, PartialEq, Eq)]
pub struct VolumeMount {
    pub name: String,
    pub target: String,
    pub readonly: bool,
}

/// What is mounted, where, and whether it can be written.
#[verifier::ext_equal]
pub struct Mount {
    pub source: Seq<char>,
    pub target: Seq<char>,
    pub readonly: bool,
}

impl View for BindMount {
    type V = Mount;

    open spec fn view(&self) -> Mount {
        Mount { source: self.source@, target: self.target@, readonly: self.readonly }
    }
}

impl View for VolumeMount {
    type V = Mount;

    open spec fn view(&self) -> Mount {
        Mount { source: self.name@, target: self.target@, readonly: self.readonly }
    }
}

/// The mounts of a list.
pub open spec fn bind_views(s: Seq<BindMount>) -> Seq<Mount> {
    s.map_values(|m: BindMount| m@)
}

/// The volumes of a list.
pub open spec fn volume_views(s: Seq<VolumeMount>) -> Seq<Mount> {
    s.map_values(|m: VolumeMount| m@)
}

/// `source:target`, read-only when a third part is `ro`.
pub open spec fn short_form(s: Seq<char>) -> Option<Mount> {
    let parts = crate::text::pieces(s, ':');
    if parts.len() >= 2 {
        Some(
            Mount {
                source: parts[0],
                target: parts[1],
                readonly: parts.len() > 2 && parts[2] == "ro"@,
            },
        )
    } else {
        None
    }
}

/// The `key=value` of one part of a long form, if it is one.
pub open spec fn field_of(part: Seq<char>) -> Option<(Seq<char>, Seq<char>)> {
    crate::text::cut_once(trimmed(part), '=')
}

pub open spec fn source_key(key: Seq<char>) -> bool {
    key == "source"@ || key == "src"@
}

pub open spec fn target_key(key: Seq<char>) -> bool {
    key == "target"@ || key == "dst"@ || key == "destination"@
}

pub open spec fn readonly_key(key: Seq<char>) -> bool {
    key == "readonly"@ || key == "ro"@
}

/// The value of the last part whose key is one of `keys`.
pub open spec fn last_field(parts: Seq<Seq<char>>, keys: spec_fn(Seq<char>) -> bool) -> Option<
    Seq<char>,
>
    decreases parts.len(),
{
    if parts.len() == 0 {
        None
    } else {
        match field_of(parts.last()) {
            Some((key, value)) if keys(key) => Some(value),
            _ => last_field(parts.drop_last(), keys),
        }
    }
}

/// What one part of a long form says about writing, if it says anything.
pub open spec fn readonly_part(part: Seq<char>) -> Option<bool> {
    match field_of(part) {
        Some((key, value)) => if readonly_key(key) {
            Some(value.len() == 0 || value == "true"@ || value == "1"@)
        } else {
            None
        },
        None => if readonly_key(trimmed(part)) {
            Some(true)
        } else {
            None
        },
    }
}

/// What the last part that speaks of writing says; writable if none does.
pub open spec fn readonly_fields(parts: Seq<Seq<char>>) -> bool
    decreases parts.len(),
{
    if parts.len() == 0 {
        false
    } else {
        match readonly_part(parts.last()) {
            Some(b) => b,
            None => readonly_fields(parts.drop_last()),
        }
    }
}

/// `key=value` parts between commas. Of each field the last mention counts.
pub open spec fn long_form(s: Seq<char>) -> Option<Mount> {
    let parts = crate::text::pieces(s, ',');
    match (last_field(parts, |k| source_key(k)), last_field(parts, |k| target_key(k))) {
        (Some(source), Some(target)) => Some(
            Mount { source, target, readonly: readonly_fields(parts) },
        ),
        _ => None,
    }
}

/// The mount that a mount string asks for: the short form when it begins with a
/// path, else the long form.
pub open spec fn mount_of(s: Seq<char>) -> Option<Mount> {
    let s = trimmed(s);
    if s.len() > 0 && (s[0] == '/' || s[0] == '.') {
        short_form(s)
    } else {
        long_form(s)
    }
}

/// The first two parts of a short form, and whether it is read-only.
fn parse_short(s: &str) -> (r: Option<(String, String, bool)>)
    ensures
        match short_form(s@) {
            Some(m) => r is Some && r->Some_0.0@ == m.source && r->Some_0.1@ == m.target && r->Some_0.2
                == m.readonly,
            None => r is None,
        },
{
    let parts = split(s, ':');
    assert(texts(parts@) == crate::text::pieces(s@, ':'));
    assert(texts(parts@).len() == parts@.len());
    if parts.len() < 2 {
        return None;
    }
    let readonly = parts.len() > 2 && same(parts[2].as_str(), "ro");
    proof {
        assert(texts(parts@)[0] == parts@[0]@);
        assert(texts(parts@)[1] == parts@[1]@);
        if parts@.len() > 2 {
            assert(texts(parts@)[2] == parts@[2]@);
        }
    }
    Some((parts[0].clone(), parts[1].clone(), readonly))
}

fn parse_long(s: &str) -> (r: Option<BindMount>)
    ensures
        match long_form(s@) {
            Some(m) => r is Some && r->Some_0@ == m,
            None => r is None,
        },
{
    let parts = split(s, ',');
    let ghost all = texts(parts@);
    let mut source: Option<String> = None;
    let mut target: Option<String> = None;
    let mut readonly: bool = false;
    let mut i: usize = 0;
    while i < parts.len()
        invariant
            all == texts(parts@),
            i <= parts@.len(),
            crate::text::text_opt(source) == last_field(all.take(i as int), |k| source_key(k)),
            crate::text::text_opt(target) == last_field(all.take(i as int), |k| target_key(k)),
            readonly == readonly_fields(all.take(i as int)),
        decreases parts@.len() - i,
    {
        proof {
            assert(all.take(i + 1).drop_last() == all.take(i as int));
            assert(all.take(i + 1).last() == parts@[i as int]@);
            distinct_keys();
        }
        let part = trim(parts[i].as_str());
        match split_once(part.as_str(), '=') {
            Some((key, value)) => {
                if same(key.as_str(), "source") || same(key.as_str(), "src") {
                    source = Some(value);
                } else if same(key.as_str(), "target") || same(key.as_str(), "dst") || same(
                    key.as_str(),
                    "destination",
                ) {
                    target = Some(value);
                } else if same(key.as_str(), "readonly") || same(key.as_str(), "ro") {
                    readonly = value.as_str().is_empty() || same(value.as_str(), "true") || same(
                        value.as_str(),
                        "1",
                    );
                }
            },
            None => {
                if same(part.as_str(), "readonly") || same(part.as_str(), "ro") {
                    readonly = true;
                }
            },
        }
        i = i + 1;
    }
    assert(all.take(all.len() as int) == all);
    match (source, target) {
        (Some(source), Some(target)) => Some(BindMount { source, target, readonly }),
        _ => None,
    }
}

/// The keys of the three fields are all different.
proof fn distinct_keys()
    ensures
        forall|k: Seq<char>| !(#[trigger] source_key(k) && target_key(k)),
        forall|k: Seq<char>| !(#[trigger] source_key(k) && readonly_key(k)),
        forall|k: Seq<char>| !(#[trigger] target_key(k) && readonly_key(k)),
{
    reveal_strlit("source");
    reveal_strlit("src");
    reveal_strlit("target");
    reveal_strlit("dst");
    reveal_strlit("destination");
    reveal_strlit("readonly");
    reveal_strlit("ro");
    assert("source"@.len() == 6 && "source"@[0] == 's');
    assert("src"@.len() == 3 && "src"@[0] == 's');
    assert("target"@.len() == 6 && "target"@[0] == 't');
    assert("dst"@.len() == 3 && "dst"@[0] == 'd');
    assert("destination"@.len() == 11);
    assert("readonly"@.len() == 8);
    assert("ro"@.len() == 2);
}

/// The mount that a mount string asks for: Docker's short form
/// `/host:/container[:ro]` or its long form
/// `source=X,target=Y,type=bind[,readonly]`, whose `type` is not looked at.
pub fn parse_single_mount(s: &str) -> (r: Option<BindMount>)
    ensures
        match mount_of(s@) {
            Some(m) => r is Some && r->Some_0@ == m,
            None => r is None,
        },
{
    let s = trim(s);
    let chars = crate::text::chars_of(s.as_str());
    if chars.len() > 0 && (chars[0] == '/' || chars[0] == '.') {
        match parse_short(s.as_str()) {
            Some((source, target, readonly)) => Some(BindMount { source, target, readonly }),
            None => None,
        }
    } else {
        parse_long(s.as_str())
    }
}

/// The mounts the strings ask for, in order; a string that asks for none is
/// passed over.
pub fn parse_mounts(mount_strings: &Vec<String>) -> (r: Vec<BindMount>)
    ensures
        bind_views(r@) == gathered(texts(mount_strings@), |s: Seq<char>| mount_of(s)),
{
    let ghost f = |s: Seq<char>| mount_of(s);
    let ghost all = texts(mount_strings@);
    let mut out: Vec<BindMount> = Vec::new();
    let mut i: usize = 0;
    assert(bind_views(out@) == gathered(all.take(0), f));
    while i < mount_strings.len()
        invariant
            all == texts(mount_strings@),
            f == (|s: Seq<char>| mount_of(s)),
            i <= mount_strings@.len(),
            bind_views(out@) == gathered(all.take(i as int), f),
        decreases mount_strings@.len() - i,
    {
        proof {
            gathered_step(all, f, i as int);
            assert(all[i as int] == mount_strings@[i as int]@);
        }
        let ghost before = bind_views(out@);
        match parse_single_mount(mount_strings[i].as_str()) {
            Some(m) => {
                out.push(m);
                assert(bind_views(out@) == before.push(m@));
            },
            None => {},
        }
        i = i + 1;
    }
    assert(all.take(all.len() as int) == all);
    out
}

/// What is said about a mount string that asks for no mount.
pub open spec fn mount_warning(s: Seq<char>) -> Option<Seq<char>> {
    match mount_of(s) {
        Some(_) => None,
        None => Some("Warning: could not parse mount string: "@ + s),
    }
}

/// What is said about the mount strings that ask for no mount, in order.
pub fn mount_warnings(mount_strings: &Vec<String>) -> (r: Vec<String>)
    ensures
        texts(r@) == gathered(texts(mount_strings@), |s: Seq<char>| mount_warning(s)),
{
    let ghost f = |s: Seq<char>| mount_warning(s);
    let ghost all = texts(mount_strings@);
    let mut out: Vec<String> = Vec::new();
    let mut i: usize = 0;
    assert(texts(out@) == gathered(all.take(0), f));
    while i < mount_strings.len()
        invariant
            all == texts(mount_strings@),
            f == (|s: Seq<char>| mount_warning(s)),
            i <= mount_strings@.len(),
            texts(out@) == gathered(all.take(i as int), f),
        decreases mount_strings@.len() - i,
    {
        proof {
            gathered_step(all, f, i as int);
            assert(all[i as int] == mount_strings@[i as int]@);
        }
        let ghost before = texts(out@);
        match parse_single_mount(mount_strings[i].as_str()) {
            Some(_) => {},
            None => {
                let said = cat2("Warning: could not parse mount string: ", mount_strings[i].as_str());
                out.push(said);
                assert(texts(out@) == before.push(said@));
            },
        }
        i = i + 1;
    }
    assert(all.take(all.len() as int) == all);
    out
}

/// The volume that a volume string, `name:/container/path[:ro]`, asks for.
pub open spec fn volume_of(s: Seq<char>) -> Option<Mount> {
    short_form(trimmed(s))
}

/// What is said about a volume string that asks for no volume.
pub open spec fn volume_warning(s: Seq<char>) -> Option<Seq<char>> {
    match volume_of(s) {
        Some(_) => None,
        None => Some(
            "Warning: could not parse volume string (expected name:/path[:ro]): "@ + trimmed(s),
        ),
    }
}

/// The volumes the strings ask for, in order; a string that asks for none is
/// passed over.
pub fn parse_volumes(volume_strings: &Vec<String>) -> (r: Vec<VolumeMount>)
    ensures
        volume_views(r@) == gathered(texts(volume_strings@), |s: Seq<char>| volume_of(s)),
{
    let ghost f = |s: Seq<char>| volume_of(s);
    let ghost all = texts(volume_strings@);
    let mut out: Vec<VolumeMount> = Vec::new();
    let mut i: usize = 0;
    assert(volume_views(out@) == gathered(all.take(0), f));
    while i < volume_strings.len()
        invariant
            all == texts(volume_strings@),
            f == (|s: Seq<char>| volume_of(s)),
            i <= volume_strings@.len(),
            volume_views(out@) == gathered(all.take(i as int), f),
        decreases volume_strings@.len() - i,
    {
        proof {
            gathered_step(all, f, i as int);
            assert(all[i as int] == volume_strings@[i as int]@);
        }
        let ghost before = volume_views(out@);
        let s = trim(volume_strings[i].as_str());
        match parse_short(s.as_str()) {
            Some((name, target, readonly)) => {
                let volume = VolumeMount { name, target, readonly };
                out.push(volume);
                assert(volume_views(out@) == before.push(volume@));
            },
            None => {},
        }
        i = i + 1;
    }
    assert(all.take(all.len() as int) == all);
    out
}

/// What is said about the volume strings that ask for no volume, in order.
pub fn volume_warnings(volume_strings: &Vec<String>) -> (r: Vec<String>)
    ensures
        texts(r@) == gathered(texts(volume_strings@), |s: Seq<char>| volume_warning(s)),
{
    let ghost f = |s: Seq<char>| volume_warning(s);
    let ghost all = texts(volume_strings@);
    let mut out: Vec<String> = Vec::new();
    let mut i: usize = 0;
    assert(texts(out@) == gathered(all.take(0), f));
    while i < volume_strings.len()
        invariant
            all == texts(volume_strings@),
            f == (|s: Seq<char>| volume_warning(s)),
            i <= volume_strings@.len(),
            texts(out@) == gathered(all.take(i as int), f),
        decreases volume_strings@.len() - i,
    {
        proof {
            gathered_step(all, f, i as int);
            assert(all[i as int] == volume_strings@[i as int]@);
        }
        let ghost before = texts(out@);
        let s = trim(volume_strings[i].as_str());
        match parse_short(s.as_str()) {
            Some(_) => {},
            None => {
                let said = cat2(
                    "Warning: could not parse volume string (expected name:/path[:ro]): ",
                    s.as_str(),
                );
                out.push(said);
                assert(texts(out@) == before.push(said@));
            },
        }
        i = i + 1;
    }
    assert(all.take(all.len() as int) == all);
    out
}

/// The mount strings that came of a project's mount entries, in order. An entry
/// without a source or a target gives no string and is passed over.
pub fn substitute_mounts(emitted: &Vec<Option<String>>) -> (r: Vec<String>)
    ensures
        texts(r@) == gathered(emitted@, |m: Option<String>| crate::text::text_opt(m)),
{
    let ghost f = |m: Option<String>| crate::text::text_opt(m);
    let mut out: Vec<String> = Vec::new();
    let mut i: usize = 0;
    assert(texts(out@) == gathered(emitted@.take(0), f));
    while i < emitted.len()
        invariant
            f == (|m: Option<String>| crate::text::text_opt(m)),
            i <= emitted@.len(),
            texts(out@) == gathered(emitted@.take(i as int), f),
        decreases emitted@.len() - i,
    {
        proof {
            gathered_step(emitted@, f, i as int);
        }
        let ghost before = texts(out@);
        match &emitted[i] {
            Some(m) => {
                out.push(m.clone());
                assert(texts(out@) == before.push(m@));
            },
            None => {},
        }
        i = i + 1;
    }
    assert(emitted@.take(emitted@.len() as int) == emitted@);
    out
}

/// The short form: what stands before the first colon is mounted to what stands behind it,
/// up to the next; it cannot be written exactly where `ro` stands behind that. Without a
/// colon it asks for nothing.
pub proof fn what_the_short_form_asks_for(source: Seq<char>, target: Seq<char>, mode: Seq<char>)
    requires
        !source.contains(':'),
        !target.contains(':'),
        !mode.contains(':'),
    ensures
        short_form(source) is None,
        short_form(source + seq![':'] + target) == Some(Mount { source, target, readonly: false }),
        short_form(source + seq![':'] + target + seq![':'] + mode) == Some(
            Mount { source, target, readonly: mode == "ro"@ },
        ),
{
    crate::text::laws::pieces_from_the_front(source, ':', target);
    crate::text::laws::pieces_from_the_front(target, ':', mode);
    let rest = target + seq![':'] + mode;
    crate::text::laws::pieces_from_the_front(source, ':', rest);
    assert(source + seq![':'] + target + seq![':'] + mode =~= source + seq![':'] + rest);
    crate::text::laws::pieces_from_the_front(mode, ':', Seq::empty());
    let parts = crate::text::pieces(source + seq![':'] + rest, ':');
    assert(parts =~= seq![source, target, mode]);
}

/// A mount string that begins with a slash or a dot is in the short form, and any other in
/// the long one; white space around it does not matter.
pub proof fn paths_are_in_the_short_form(before: Seq<char>, s: Seq<char>, behind: Seq<char>)
    requires
        crate::text::laws::blank(before),
        crate::text::laws::blank(behind),
        s.len() > 0,
        !crate::text::white(s[0]),
        !crate::text::white(s.last()),
    ensures
        s[0] == '/' || s[0] == '.' ==> mount_of(before + s + behind) == short_form(s),
        s[0] != '/' && s[0] != '.' ==> mount_of(before + s + behind) == long_form(s),
        volume_of(before + s + behind) == short_form(s),
{
    crate::text::laws::trimming_takes_off_what_is_white(before, s, behind);
}

/// A part of the long form is a key and a value where it has an equals sign; white space
/// around it does not matter.
pub proof fn parts_are_keys_and_values(before: Seq<char>, key: Seq<char>, value: Seq<char>, behind: Seq<char>)
    requires
        crate::text::laws::blank(before),
        crate::text::laws::blank(behind),
        key.len() > 0,
        !key.contains('='),
        !crate::text::white(key[0]),
        !crate::text::white(key.last()),
        value.len() > 0 ==> !crate::text::white(value.last()),
    ensures
        field_of(before + (key + seq!['='] + value) + behind) == Some((key, value)),
        field_of(before + key + behind) is None,
        trimmed(before + key + behind) == key,
{
    let s = key + seq!['='] + value;
    assert(s[0] == key[0]);
    if value.len() > 0 {
        assert(s.last() == value.last());
    } else {
        assert(s.last() == '=');
    }
    crate::text::laws::trimming_takes_off_what_is_white(before, s, behind);
    crate::text::laws::trimming_takes_off_what_is_white(before, key, behind);
    crate::text::laws::a_text_is_cut_at_the_first(key, '=', value);
}

/// Of the parts of the long form the last that names a field counts: a source under
/// `source` or `src`, a target under `target`, `dst` or `destination`, and whether it
/// can be written under `readonly` or `ro`, which stand for themselves, with nothing
/// behind the equals sign, with `true` or with `1`. Any other part changes nothing.
pub proof fn the_last_mention_counts(parts: Seq<Seq<char>>, part: Seq<char>)
    ensures
        ({
            let all = parts.push(part);
            let source = last_field(parts, |k| source_key(k));
            let target = last_field(parts, |k| target_key(k));
            match field_of(part) {
                Some((key, value)) => {
                    &&& key == "source"@ || key == "src"@ ==> last_field(all, |k| source_key(k)) == Some(value)
                    &&& !(key == "source"@ || key == "src"@) ==> last_field(all, |k| source_key(k)) == source
                    &&& key == "target"@ || key == "dst"@ || key == "destination"@ ==> last_field(
                        all,
                        |k| target_key(k),
                    ) == Some(value)
                    &&& !(key == "target"@ || key == "dst"@ || key == "destination"@) ==> last_field(
                        all,
                        |k| target_key(k),
                    ) == target
                    &&& key == "readonly"@ || key == "ro"@ ==> readonly_fields(all) == (value.len() == 0 || value
                        == "true"@ || value == "1"@)
                    &&& !(key == "readonly"@ || key == "ro"@) ==> readonly_fields(all) == readonly_fields(parts)
                },
                None => {
                    &&& last_field(all, |k| source_key(k)) == source
                    &&& last_field(all, |k| target_key(k)) == target
                    &&& trimmed(part) == "readonly"@ || trimmed(part) == "ro"@ ==> readonly_fields(all)
                    &&& !(trimmed(part) == "readonly"@ || trimmed(part) == "ro"@) ==> readonly_fields(all)
                        == readonly_fields(parts)
                },
            }
        }),
        last_field(Seq::empty(), |k| source_key(k)) is None,
        last_field(Seq::empty(), |k| target_key(k)) is None,
        !readonly_fields(Seq::empty()),
{
    assert(parts.push(part).drop_last() =~= parts);
}

/// The long form asks for a mount exactly where it names a source and a target.
pub proof fn the_long_form_needs_both(s: Seq<char>)
    ensures
        ({
            let parts = crate::text::pieces(s, ',');
            let source = last_field(parts, |k| source_key(k));
            let target = last_field(parts, |k| target_key(k));
            &&& long_form(s) is Some <==> source is Some && target is Some
            &&& long_form(s) matches Some(m) ==> source == Some(m.source) && target == Some(m.target) && m.readonly
                == readonly_fields(parts)
        }),
{
}

/// A string that asks for no mount, or for no volume, is warned about, and no other is.
pub proof fn what_cannot_be_read_is_warned_about(s: Seq<char>)
    ensures
        mount_warning(s) is Some <==> mount_of(s) is None,
        mount_of(s) is None ==> mount_warning(s)->Some_0 == "Warning: could not parse mount string: "@ + s,
        volume_warning(s) is Some <==> volume_of(s) is None,
        volume_of(s) is None ==> volume_warning(s)->Some_0
            == "Warning: could not parse volume string (expected name:/path[:ro]): "@ + trimmed(s),
{
}

/// A mount is of the very source or volume at the very target, read-only where it was
/// asked to be.
pub proof fn mounts_are_of_their_source(binds: Seq<BindMount>, volumes: Seq<VolumeMount>)
    ensures
        bind_views(binds).len() == binds.len(),
        volume_views(volumes).len() == volumes.len(),
        forall|i: int|
            0 <= i < binds.len() ==> {
                let m = #[trigger] bind_views(binds)[i];
                m.source == binds[i].source@ && m.target == binds[i].target@ && m.readonly == binds[i].readonly
            },
        forall|i: int|
            0 <= i < volumes.len() ==> {
                let m = #[trigger] volume_views(volumes)[i];
                m.source == volumes[i].name@ && m.target == volumes[i].target@ && m.readonly == volumes[i].readonly
            },
{
}

} // verus!
