//! What the string operations do, in terms of how a text is put together.
use vstd::prelude::*;

use crate::text::{
    begins_with, cut_once, finishes_with, first_at_is, joined, lines_of, occurs_at, occurs_in, padded, pieces,
    pieces_nonempty, replaced, trimmed, trimmed_back_to, trimmed_front, trimmed_front_from, white,
    without_newlines, without_return, word_end_is, words,
};

verus! {

// ---------------------------------------------------------------------------
// Prefixes, suffixes, occurrences
// ---------------------------------------------------------------------------

/// A text begins with another exactly when something follows that other in it; it ends
/// with another exactly when something precedes it; and another occurs in it exactly
/// when it stands between two texts.
pub proof fn parts_of_a_text(s: Seq<char>, p: Seq<char>)
    ensures
        begins_with(s, p) <==> exists|rest: Seq<char>| s == #[trigger] (p + rest),
        finishes_with(s, p) <==> exists|rest: Seq<char>| s == #[trigger] (rest + p),
        occurs_in(p, s) <==> exists|a: Seq<char>, b: Seq<char>| s == #[trigger] (a + p + b),
{
    if begins_with(s, p) {
        assert(s =~= p + s.skip(p.len() as int));
    }
    if exists|rest: Seq<char>| s == #[trigger] (p + rest) {
        let rest = choose|rest: Seq<char>| s == #[trigger] (p + rest);
        assert((p + rest).take(p.len() as int) =~= p);
    }
    if finishes_with(s, p) {
        assert(s =~= s.take(s.len() - p.len()) + p);
    }
    if exists|rest: Seq<char>| s == #[trigger] (rest + p) {
        let rest = choose|rest: Seq<char>| s == #[trigger] (rest + p);
        assert((rest + p).skip(rest.len() as int) =~= p);
    }
    if occurs_in(p, s) {
        let i = choose|i: int| 0 <= i && #[trigger] occurs_at(p, s, i);
        assert(s =~= s.take(i) + p + s.skip(i + p.len()));
    }
    if exists|a: Seq<char>, b: Seq<char>| s == #[trigger] (a + p + b) {
        let (a, b) = choose|a: Seq<char>, b: Seq<char>| s == #[trigger] (a + p + b);
        assert(s.subrange(a.len() as int, a.len() as int + p.len()) =~= p);
        assert(occurs_at(p, s, a.len() as int));
    }
}

/// A text is cut at the first of the characters that it is cut at, and not at all where
/// there is none.
pub proof fn a_text_is_cut_at_the_first(before: Seq<char>, c: char, behind: Seq<char>)
    requires
        !before.contains(c),
    ensures
        cut_once(before + seq![c] + behind, c) == Some((before, behind)),
        cut_once(before, c) is None,
{
    let s = before + seq![c] + behind;
    assert forall|j: int| 0 <= j < before.len() implies s[j] != c by {
        assert(before[j] == s[j]);
        assert(before.contains(before[j]));
    }
    assert(s[before.len() as int] == c);
    first_at_is(s, c, before.len() as int);
    assert(s.contains(c));
    assert(s.take(before.len() as int) =~= before);
    assert(s.skip(before.len() as int + 1) =~= behind);
}

// ---------------------------------------------------------------------------
// White space
// ---------------------------------------------------------------------------

/// White space is these characters and no others.
pub proof fn the_white_characters(c: char)
    ensures
        white(c) <==> {
            let n = c as u32;
            ||| n == 0x9 || n == 0xa || n == 0xb || n == 0xc || n == 0xd || n == 0x20 || n == 0x85 || n == 0xa0
            ||| n == 0x1680 || n == 0x2000 || n == 0x2001 || n == 0x2002 || n == 0x2003 || n == 0x2004 || n == 0x2005
            ||| n == 0x2006 || n == 0x2007 || n == 0x2008 || n == 0x2009 || n == 0x200a || n == 0x2028 || n == 0x2029
            ||| n == 0x202f || n == 0x205f || n == 0x3000
        },
{
}

/// Every character of the text is white space.
pub open spec fn blank(s: Seq<char>) -> bool {
    forall|i: int| 0 <= i < s.len() ==> white(#[trigger] s[i])
}

/// No character of the text is white space.
pub open spec fn solid(s: Seq<char>) -> bool {
    forall|i: int| 0 <= i < s.len() ==> !white(#[trigger] s[i])
}

/// Trimming takes off the white space around a text, and nothing else.
pub proof fn trimming_takes_off_what_is_white(before: Seq<char>, s: Seq<char>, behind: Seq<char>)
    requires
        blank(before),
        blank(behind),
        s.len() > 0 ==> !white(s[0]) && !white(s.last()),
    ensures
        trimmed(before + s + behind) == s,
        s.len() > 0 ==> trimmed_front(before + s + behind) == s + behind,
{
    let all = before + s + behind;
    if s.len() > 0 {
        let n = before.len() as int;
        assert forall|j: int| 0 <= j < n implies white(#[trigger] all[j]) by {
            assert(all[j] == before[j]);
        }
        assert(all[n] == s[0]);
        trimmed_front_from(all, n);
        assert(all.skip(n) =~= s + behind);
        let rest = s + behind;
        assert forall|j: int| s.len() <= j < rest.len() implies white(#[trigger] rest[j]) by {
            assert(rest[j] == behind[j - s.len()]);
        }
        assert(rest[s.len() - 1] == s.last());
        trimmed_back_to(rest, s.len() as int);
        assert(rest.take(s.len() as int) =~= s);
    } else {
        assert forall|j: int| 0 <= j < all.len() implies white(#[trigger] all[j]) by {
            if j < before.len() {
                assert(all[j] == before[j]);
            } else {
                assert(all[j] == behind[j - before.len()]);
            }
        }
        trimmed_front_from(all, all.len() as int);
        assert(all.skip(all.len() as int) =~= Seq::empty());
        trimmed_back_to(Seq::empty(), 0);
        assert(s =~= Seq::empty());
    }
}

/// Line feeds at the end are taken off, all of them, and nothing else.
pub proof fn line_feeds_at_the_end_are_taken_off(s: Seq<char>, n: nat)
    requires
        s.len() > 0 ==> s.last() != '\n',
    ensures
        without_newlines(s + Seq::new(n, |i: int| '\n')) == s,
    decreases n,
{
    let all = s + Seq::new(n, |i: int| '\n');
    if n > 0 {
        assert(all.drop_last() =~= s + Seq::new((n - 1) as nat, |i: int| '\n'));
        line_feeds_at_the_end_are_taken_off(s, (n - 1) as nat);
    } else {
        assert(all =~= s);
    }
}

/// The words of a text are its runs of characters that are not white space: the first
/// run, and then the words of what follows it; a blank text has none.
pub proof fn words_are_runs(before: Seq<char>, word: Seq<char>, behind: Seq<char>)
    requires
        blank(before),
        solid(word),
        word.len() > 0,
        behind.len() > 0 ==> white(behind[0]),
    ensures
        words(before + word + behind) == seq![word] + words(behind),
        words(before) == Seq::<Seq<char>>::empty(),
{
    let all = before + word + behind;
    let n = before.len() as int;
    assert forall|j: int| 0 <= j < n implies white(#[trigger] all[j]) by {
        assert(all[j] == before[j]);
    }
    assert(all[n] == word[0]);
    trimmed_front_from(all, n);
    let t = word + behind;
    assert(all.skip(n) =~= t);
    assert forall|j: int| 0 <= j < word.len() implies !white(#[trigger] t[j]) by {
        assert(t[j] == word[j]);
    }
    if behind.len() > 0 {
        assert(t[word.len() as int] == behind[0]);
    }
    word_end_is(t, word.len() as int);
    assert(t.take(word.len() as int) =~= word);
    assert(t.skip(word.len() as int) =~= behind);
    trimmed_front_from(before, n);
    assert(before.skip(n).len() == 0);
}

// ---------------------------------------------------------------------------
// Pieces and lines
// ---------------------------------------------------------------------------

/// The first piece of a text is what stands before its first separator, and the others
/// are the pieces of what stands behind it; a text without one is its own only piece.
pub proof fn pieces_from_the_front(before: Seq<char>, sep: char, behind: Seq<char>)
    requires
        !before.contains(sep),
    ensures
        pieces(before, sep) == seq![before],
        pieces(before + seq![sep] + behind, sep) == seq![before] + pieces(behind, sep),
    decreases before.len() + behind.len(),
{
    let all = before + seq![sep] + behind;
    if behind.len() > 0 {
        let rest = behind.drop_last();
        pieces_from_the_front(before, sep, rest);
        pieces_nonempty(rest, sep);
        assert(all.drop_last() =~= before + seq![sep] + rest);
        assert(all.last() == behind.last());
        let p = pieces(rest, sep);
        let q = seq![before] + p;
        if behind.last() == sep {
            assert(q.push(Seq::<char>::empty()) =~= seq![before] + p.push(Seq::<char>::empty()));
        } else {
            assert(q.last() == p.last());
            assert(q.update(q.len() - 1, q.last().push(behind.last())) =~= seq![before] + p.update(
                p.len() - 1,
                p.last().push(behind.last()),
            ));
        }
    } else {
        if before.len() > 0 {
            let start = before.drop_last();
            assert forall|i: int| 0 <= i < start.len() implies start[i] != sep by {
                assert(before[i] == start[i]);
                assert(before.contains(before[i]));
            }
            pieces_from_the_front(start, sep, behind);
            assert(before.contains(before[before.len() - 1]));
            let p = pieces(start, sep);
            assert(p.update(0, p.last().push(before.last())) =~= seq![before]) by {
                assert(start.push(before.last()) =~= before);
            }
        } else {
            assert(before =~= Seq::empty());
        }
        assert(all.drop_last() =~= before);
        assert(all.last() == sep);
        assert(pieces(behind, sep) =~= seq![Seq::<char>::empty()]);
        assert(pieces(before, sep).push(Seq::<char>::empty()) =~= seq![before] + pieces(behind, sep));
    }
}

/// The first line of a text is what stands before its first line feed, less a carriage
/// return at the end of it, and the others are the lines of what stands behind it; what
/// no line feed ends is a line unless it is nothing.
pub proof fn lines_from_the_front(line: Seq<char>, behind: Seq<char>)
    requires
        !line.contains('\n'),
    ensures
        lines_of(line + seq!['\n'] + behind) == seq![
            if line.len() > 0 && line.last() == '\r' {
                line.drop_last()
            } else {
                line
            },
        ] + lines_of(behind),
        line.len() > 0 ==> lines_of(line) == seq![line],
        lines_of(Seq::empty()) == Seq::<Seq<char>>::empty(),
{
    pieces_from_the_front(line, '\n', behind);
    pieces_nonempty(behind, '\n');
    let all = line + seq!['\n'] + behind;
    let p = pieces(behind, '\n');
    let q = pieces(all, '\n');
    assert(q.last() == p.last());
    let f = |s: Seq<char>| without_return(s);
    assert(q.drop_last().map_values(f) =~= seq![without_return(line)] + p.drop_last().map_values(f));
    if p.last().len() > 0 {
        assert((seq![without_return(line)] + p.drop_last().map_values(f)).push(p.last()) =~= seq![without_return(line)]
            + p.drop_last().map_values(f).push(p.last()));
    }
    let alone = seq![line];
    assert(alone.drop_last().map_values(f).push(line) =~= seq![line]);
    let nothing = seq![Seq::<char>::empty()];
    assert(pieces(Seq::empty(), '\n') =~= nothing);
    assert(nothing.drop_last().map_values(f) =~= Seq::empty());
}

/// Texts are joined one behind the other, with the separator between each two and
/// nowhere else.
pub proof fn joining_puts_one_behind_the_other(first: Seq<char>, rest: Seq<Seq<char>>, sep: Seq<char>)
    ensures
        joined(Seq::empty(), sep) == Seq::<char>::empty(),
        joined(seq![first], sep) == first,
        rest.len() > 0 ==> joined(seq![first] + rest, sep) == first + sep + joined(rest, sep),
    decreases rest.len(),
{
    if rest.len() > 0 {
        let all = seq![first] + rest;
        let before = rest.drop_last();
        joining_puts_one_behind_the_other(first, before, sep);
        assert(all.drop_last() =~= seq![first] + before);
        assert(all.last() == rest.last());
        if before.len() == 0 {
            assert(all.drop_last() =~= seq![first]);
            assert(rest =~= seq![rest.last()]);
            assert(joined(rest, sep) == rest.last());
        } else {
            assert(joined(rest, sep) == joined(before, sep) + sep + rest.last());
            assert(first + sep + joined(before, sep) + sep + rest.last() =~= first + sep + (joined(before, sep) + sep
                + rest.last()));
        }
    }
}

// ---------------------------------------------------------------------------
// Replacing and padding
// ---------------------------------------------------------------------------

/// Replacing works on each character by itself: the one that is looked for becomes the
/// replacement, and every other stays.
pub proof fn replacing_works_on_each_character(a: Seq<char>, b: Seq<char>, c: char, with: Seq<char>)
    ensures
        replaced(Seq::empty(), c, with) == Seq::<char>::empty(),
        replaced(seq![c], c, with) == with,
        forall|x: char| x != c ==> #[trigger] replaced(seq![x], c, with) == seq![x],
        replaced(a + b, c, with) == replaced(a, c, with) + replaced(b, c, with),
    decreases b.len(),
{
    let one = seq![c];
    assert(one.drop_last() =~= Seq::empty());
    assert(replaced(one.drop_last(), c, with) =~= Seq::empty());
    assert(replaced(one, c, with) =~= with);
    assert forall|x: char| x != c implies #[trigger] replaced(seq![x], c, with) == seq![x] by {
        let it = seq![x];
        assert(it.drop_last() =~= Seq::empty());
        assert(replaced(it.drop_last(), c, with) =~= Seq::empty());
        assert(replaced(it, c, with) =~= seq![x]);
    }
    if b.len() > 0 {
        replacing_works_on_each_character(a, b.drop_last(), c, with);
        assert((a + b).drop_last() =~= a + b.drop_last());
        assert((a + b).last() == b.last());
        assert(replaced(a + b, c, with) =~= replaced(a, c, with) + replaced(b, c, with));
    } else {
        assert(a + b =~= a);
        assert(replaced(a, c, with) + replaced(b, c, with) =~= replaced(a, c, with));
    }
}

/// Padding leaves the text as it is and puts spaces behind it, as many as are missing.
pub proof fn padding_fills_with_spaces(s: Seq<char>, width: nat)
    ensures
        padded(s, width).len() == if s.len() < width {
            width
        } else {
            s.len()
        },
        padded(s, width).take(s.len() as int) == s,
        forall|i: int| s.len() <= i < padded(s, width).len() ==> #[trigger] padded(s, width)[i] == ' ',
{
    assert(padded(s, width).take(s.len() as int) =~= s);
}

/// The last piece of a text is what stands behind its last separator, and the others are
/// the pieces of what stands before it.
pub proof fn pieces_from_the_back(before: Seq<char>, sep: char, behind: Seq<char>)
    requires
        !behind.contains(sep),
    ensures
        pieces(before + seq![sep] + behind, sep) == pieces(before, sep).push(behind),
    decreases behind.len(),
{
    let all = before + seq![sep] + behind;
    if behind.len() > 0 {
        let rest = behind.drop_last();
        assert forall|i: int| 0 <= i < rest.len() implies rest[i] != sep by {
            assert(behind[i] == rest[i]);
            assert(behind.contains(behind[i]));
        }
        pieces_from_the_back(before, sep, rest);
        assert(behind.contains(behind[behind.len() - 1]));
        assert(all.drop_last() =~= before + seq![sep] + rest);
        assert(all.last() == behind.last());
        let p = pieces(before, sep).push(rest);
        assert(rest.push(behind.last()) =~= behind);
        assert(p.update(p.len() - 1, p.last().push(behind.last())) =~= pieces(before, sep).push(behind));
    } else {
        assert(all.drop_last() =~= before);
        assert(all.last() == sep);
        assert(behind =~= Seq::empty());
    }
}

} // verus!
