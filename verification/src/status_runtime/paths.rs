//! Paths, compared by their components.
use vstd::prelude::*;

use crate::model::{gathered, gathered_step};
use crate::text::{cat2, chars_of, join, owned, pieces, same, split, texts};

verus! {

/// The components of a path: the root of an absolute one, then its names. A `.`
/// counts only at the start of a relative path.
pub open spec fn components(path: Seq<char>) -> Seq<Seq<char>> {
    let absolute = path.len() > 0 && path[0] == '/';
    let root = if absolute {
        seq!["/"@]
    } else {
        Seq::<Seq<char>>::empty()
    };
    root + names(pieces(path, '/'), absolute)
}

/// The names among the pieces of a path.
pub open spec fn names(parts: Seq<Seq<char>>, absolute: bool) -> Seq<Seq<char>>
    decreases parts.len(),
{
    if parts.len() == 0 {
        Seq::empty()
    } else {
        let before = names(parts.drop_last(), absolute);
        let name = parts.last();
        if name.len() == 0 || (name == "."@ && (absolute || parts.len() > 1)) {
            before
        } else {
            before.push(name)
        }
    }
}

/// `path` is `base`, or lies under it.
pub open spec fn under(path: Seq<char>, base: Seq<char>) -> bool {
    components(base).is_prefix_of(components(path))
}

fn path_components(path: &str) -> (r: Vec<String>)
    ensures
        texts(r@) == components(path@),
{
    let chars = chars_of(path);
    let absolute = chars.len() > 0 && chars[0] == '/';
    let parts = split(path, '/');
    let ghost all = texts(parts@);
    let mut out: Vec<String> = Vec::new();
    let ghost root = if absolute {
        seq!["/"@]
    } else {
        Seq::<Seq<char>>::empty()
    };
    if absolute {
        out.push(owned("/"));
    }
    assert(texts(out@) =~= root);
    let mut i: usize = 0;
    assert(root + names(all.take(0), absolute) == root);
    while i < parts.len()
        invariant
            all == texts(parts@),
            i <= parts@.len(),
            texts(out@) == root + names(all.take(i as int), absolute),
        decreases parts@.len() - i,
    {
        proof {
            assert(all.take(i + 1).drop_last() == all.take(i as int));
            assert(all.take(i + 1).last() == parts@[i as int]@);
        }
        let ghost so_far = texts(out@);
        if !(parts[i].as_str().is_empty() || (same(parts[i].as_str(), ".") && (absolute || i > 0))) {
            out.push(parts[i].clone());
            proof {
                assert(texts(out@) == so_far.push(parts@[i as int]@));
                assert(root + names(all.take(i as int), absolute).push(parts@[i as int]@) == so_far.push(
                    parts@[i as int]@,
                ));
            }
        }
        i = i + 1;
    }
    assert(all.take(all.len() as int) == all);
    out
}

/// Whether `path` is `base`, or lies under it. Whole components are compared,
/// so `/home/ann` is not under `/home/an`.
pub fn is_under(path: &str, base: &str) -> (r: bool)
    ensures
        r == under(path@, base@),
{
    let p = path_components(path);
    let b = path_components(base);
    if b.len() > p.len() {
        assert(texts(b@).len() > texts(p@).len());
        return false;
    }
    let mut i: usize = 0;
    while i < b.len()
        invariant
            b@.len() <= p@.len(),
            texts(p@) == components(path@),
            texts(b@) == components(base@),
            i <= b@.len(),
            forall|j: int| 0 <= j < i ==> texts(b@)[j] == texts(p@)[j],
        decreases b@.len() - i,
    {
        if !same(b[i].as_str(), p[i].as_str()) {
            proof {
                assert(texts(b@)[i as int] != texts(p@)[i as int]);
                if under(path@, base@) {
                    let prefix = components(path@).take(components(base@).len() as int);
                    assert(prefix[i as int] == components(base@)[i as int]);
                }
            }
            return false;
        }
        assert(texts(b@)[i as int] == texts(p@)[i as int]);
        i = i + 1;
    }
    assert(components(path@).take(components(base@).len() as int) =~= components(base@));
    true
}

/// A mount source that is not under the home directory.
pub open spec fn outside_home(source: Seq<char>, home: Seq<char>) -> Option<Seq<char>> {
    if under(source, home) {
        None
    } else {
        Some(source)
    }
}

/// The mount sources that are not under the home directory, in order.
pub fn mount_sources_outside_home(sources: &Vec<String>, home: &str) -> (r: Vec<String>)
    ensures
        texts(r@) == gathered(texts(sources@), |s: Seq<char>| outside_home(s, home@)),
{
    let ghost f = |s: Seq<char>| outside_home(s, home@);
    let ghost all = texts(sources@);
    let mut out: Vec<String> = Vec::new();
    let mut i: usize = 0;
    assert(texts(out@) == gathered(all.take(0), f));
    while i < sources.len()
        invariant
            all == texts(sources@),
            f == (|s: Seq<char>| outside_home(s, home@)),
            i <= sources@.len(),
            texts(out@) == gathered(all.take(i as int), f),
        decreases sources@.len() - i,
    {
        proof {
            gathered_step(all, f, i as int);
            assert(all[i as int] == sources@[i as int]@);
        }
        let ghost before = texts(out@);
        if !is_under(sources[i].as_str(), home) {
            out.push(sources[i].clone());
            assert(texts(out@) == before.push(sources@[i as int]@));
        }
        i = i + 1;
    }
    assert(all.take(all.len() as int) == all);
    out
}

/// What is said of mount sources that Colima does not share with its machine.
pub open spec fn colima_text(outside: Seq<Seq<char>>) -> Seq<char> {
    "Colima only shares your home directory with the VM; these configured mount sources fall outside it and will not be visible in the container: "@
        + crate::text::joined(outside, ", "@)
}

/// What is said of mount sources that Colima does not share with its machine,
/// if there are any.
pub fn colima_mount_warning(outside: &Vec<String>) -> (r: Option<String>)
    ensures
        outside@.len() == 0 ==> r is None,
        outside@.len() > 0 ==> r is Some && r->Some_0@ == colima_text(texts(outside@)),
{
    if outside.len() == 0 {
        return None;
    }
    let list = join(outside, ", ");
    Some(
        cat2(
            "Colima only shares your home directory with the VM; these configured mount sources fall outside it and will not be visible in the container: ",
            list.as_str(),
        ),
    )
}

/// The warning about the mount sources of a project. Only Colima has one, and
/// only where the home directory is known.
pub fn mount_scope_warning(on_colima: bool, home: &Option<String>, sources: &Vec<String>) -> (r: Option<
    String,
>)
    ensures
        ({
            let outside = gathered(
                texts(sources@),
                |s: Seq<char>| outside_home(s, home->Some_0@),
            );
            if on_colima && home is Some && outside.len() > 0 {
                r is Some && r->Some_0@ == colima_text(outside)
            } else {
                r is None
            }
        }),
{
    if !on_colima {
        return None;
    }
    match home {
        None => None,
        Some(home) => {
            let outside = mount_sources_outside_home(sources, home.as_str());
            assert(texts(outside@).len() == outside@.len());
            colima_mount_warning(&outside)
        },
    }
}

/// A path is under itself, and what is under a path that is under a third is
/// under that third.
pub proof fn under_is_a_preorder(a: Seq<char>, b: Seq<char>, c: Seq<char>)
    ensures
        under(a, a),
        under(a, b) && under(b, c) ==> under(a, c),
{
    assert(components(a).take(components(a).len() as int) =~= components(a));
    if under(a, b) && under(b, c) {
        assert(components(c) =~= components(b).take(components(c).len() as int));
        assert(components(b) =~= components(a).take(components(b).len() as int));
        assert(components(a).take(components(c).len() as int) =~= components(c));
    }
}

/// A name behind a slash is one component more; nothing behind it, or a dot, is none.
pub proof fn a_name_is_a_component(dir: Seq<char>, name: Seq<char>)
    requires
        dir.len() > 0,
        !name.contains('/'),
    ensures
        name.len() > 0 && name != "."@ ==> components(dir + seq!['/'] + name) == components(dir).push(name),
        name.len() == 0 || name == "."@ ==> components(dir + seq!['/'] + name) == components(dir),
        components("/"@) == seq!["/"@],
{
    let path = dir + seq!['/'] + name;
    crate::text::laws::pieces_from_the_back(dir, '/', name);
    crate::text::pieces_nonempty(dir, '/');
    assert(path[0] == dir[0]);
    let absolute = dir[0] == '/';
    let parts = pieces(dir, '/').push(name);
    assert(parts.drop_last() =~= pieces(dir, '/'));
    let root = if absolute {
        seq!["/"@]
    } else {
        Seq::<Seq<char>>::empty()
    };
    assert(root + names(pieces(dir, '/'), absolute).push(name) =~= (root + names(pieces(dir, '/'), absolute)).push(
        name,
    ));
    reveal_strlit("/");
    reveal_strlit(".");
    let slash = "/"@;
    crate::text::laws::pieces_from_the_back(Seq::empty(), '/', Seq::empty());
    assert(Seq::<char>::empty() + seq!['/'] + Seq::<char>::empty() =~= slash);
    let none = Seq::<char>::empty();
    assert(pieces(none, '/') =~= seq![none]);
    let both = seq![none].push(none);
    assert(both.drop_last() =~= seq![none]);
    assert(seq![none].drop_last() =~= Seq::<Seq<char>>::empty());
    assert(names(Seq::<Seq<char>>::empty(), true) =~= Seq::empty());
    assert(names(seq![none], true) =~= Seq::empty());
    assert(names(both, true) =~= Seq::empty());
    assert(components(slash) =~= seq!["/"@]);
}

/// What stands in a folder is under it; and of two different names in a folder neither is
/// under the other, though the one may begin with the other.
pub proof fn whole_names_are_compared(dir: Seq<char>, a: Seq<char>, b: Seq<char>)
    requires
        dir.len() > 0,
        !a.contains('/') && a.len() > 0 && a != "."@,
        !b.contains('/') && b.len() > 0 && b != "."@,
    ensures
        under(dir + seq!['/'] + a, dir),
        !under(dir, dir + seq!['/'] + a),
        a != b ==> !under(dir + seq!['/'] + a, dir + seq!['/'] + b),
{
    a_name_is_a_component(dir, a);
    a_name_is_a_component(dir, b);
    let c = components(dir);
    assert(c.push(a).take(c.len() as int) =~= c);
    assert(c.is_prefix_of(c.push(a)));
    if a != b {
        assert(c.push(a)[c.len() as int] == a);
        assert(c.push(b)[c.len() as int] == b);
    }
}

/// A mount source is warned about exactly where it is not under the home directory.
pub proof fn sources_under_home_are_left_out(sources: Seq<Seq<char>>, home: Seq<char>, source: Seq<char>)
    ensures
        gathered(sources, |s: Seq<char>| outside_home(s, home)).contains(source) <==> sources.contains(source)
            && !under(source, home),
{
    let f = |s: Seq<char>| outside_home(s, home);
    crate::model::gathered_holds(sources, f, source);
    if gathered(sources, f).contains(source) {
        let i = choose|i: int| 0 <= i < sources.len() && f(#[trigger] sources[i]) == Some(source);
        assert(sources[i] == source);
    }
    if sources.contains(source) && !under(source, home) {
        let i = choose|i: int| 0 <= i < sources.len() && sources[i] == source;
        assert(f(sources[i]) == Some(source));
    }
}

/// The warning names every source, with commas between them.
pub proof fn the_warning_names_the_sources(first: Seq<char>, rest: Seq<Seq<char>>)
    ensures
        colima_text(seq![first])
            == "Colima only shares your home directory with the VM; these configured mount sources fall outside it and will not be visible in the container: "@
            + first,
        rest.len() > 0 ==> colima_text(seq![first] + rest) == colima_text(seq![first]) + ", "@ + crate::text::joined(
            rest,
            ", "@,
        ),
{
    crate::text::laws::joining_puts_one_behind_the_other(first, rest, ", "@);
    if rest.len() > 0 {
        let head =
            "Colima only shares your home directory with the VM; these configured mount sources fall outside it and will not be visible in the container: "@;
        assert(head + (first + ", "@ + crate::text::joined(rest, ", "@)) =~= head + first + ", "@
            + crate::text::joined(rest, ", "@));
    }
}

} // verus!
