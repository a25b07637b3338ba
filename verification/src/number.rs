//! Numbers in decimal notation, read and written.
use vstd::prelude::*;

use crate::text::chars_of;

verus! {

/// The ten decimal digits.
pub open spec fn digit(c: char) -> bool {
    '0' <= c <= '9'
}

/// Whether a character is a decimal digit.
pub fn is_digit(c: char) -> (r: bool)
    ensures
        r == digit(c),
{
    '0' <= c && c <= '9'
}

/// Every character is a decimal digit.
pub open spec fn all_digits(s: Seq<char>) -> bool {
    forall|i: int| 0 <= i < s.len() ==> digit(#[trigger] s[i])
}

/// What a run of decimal digits stands for.
pub open spec fn value_of(s: Seq<char>) -> nat
    decreases s.len(),
{
    if s.len() == 0 {
        0
    } else {
        value_of(s.drop_last()) * 10 + (s.last() as nat - '0' as nat) as nat
    }
}

/// The digits of a number: the text less one leading `+`.
pub open spec fn magnitude(s: Seq<char>) -> Seq<char> {
    if s.len() > 0 && s[0] == '+' {
        s.skip(1)
    } else {
        s
    }
}

/// The number that `s` denotes, if it denotes one no larger than `max`: digits,
/// at least one, with an optional leading `+`.
pub open spec fn unsigned_of(s: Seq<char>, max: nat) -> Option<nat> {
    let d = magnitude(s);
    if d.len() > 0 && all_digits(d) && value_of(d) <= max {
        Some(value_of(d))
    } else {
        None
    }
}

/// The 32-bit number that `s` denotes, if it denotes one: a leading `-` makes
/// it negative.
pub open spec fn signed_of(s: Seq<char>) -> Option<int> {
    if s.len() > 0 && s[0] == '-' {
        let d = s.skip(1);
        if d.len() > 0 && all_digits(d) && value_of(d) <= 0x8000_0000 {
            Some(-(value_of(d) as int))
        } else {
            None
        }
    } else {
        match unsigned_of(s, 0x7fff_ffff) {
            Some(n) => Some(n as int),
            None => None,
        }
    }
}

proof fn value_grows(s: Seq<char>, i: int)
    requires
        0 <= i <= s.len(),
        all_digits(s),
    ensures
        value_of(s.take(i)) <= value_of(s),
    decreases s.len() - i,
{
    if i == s.len() {
        assert(s.take(i) == s);
    } else {
        value_grows(s, i + 1);
        assert(s.take(i + 1).drop_last() == s.take(i));
        assert(digit(s[i]));
    }
}

/// The value of the digits from `from` on, if they are digits and it is no
/// larger than `max`.
fn read_digits(v: &Vec<char>, from: usize, max: u64) -> (r: Option<u64>)
    requires
        from <= v@.len(),
    ensures
        ({
            let d = v@.skip(from as int);
            if d.len() > 0 && all_digits(d) && value_of(d) <= max {
                r == Some(value_of(d) as u64)
            } else {
                r is None
            }
        }),
{
    let ghost d = v@.skip(from as int);
    if from == v.len() {
        return None;
    }
    let mut acc: u64 = 0;
    let mut i: usize = from;
    assert(d.take(0) == Seq::<char>::empty());
    while i < v.len()
        invariant
            d == v@.skip(from as int),
            from <= i <= v@.len(),
            acc == value_of(d.take(i - from)),
            acc <= max,
            forall|j: int| 0 <= j < i - from ==> digit(#[trigger] d[j]),
        decreases v@.len() - i,
    {
        let c = v[i];
        assert(c == d[i - from]);
        if !is_digit(c) {
            assert(!all_digits(d));
            return None;
        }
        let next: u128 = acc as u128 * 10 + (c as u32 - 48) as u128;
        proof {
            assert(d.take(i - from + 1).drop_last() == d.take(i - from));
            assert(d.take(i - from + 1).last() == c);
            assert(next == value_of(d.take(i - from + 1)));
        }
        if next > max as u128 {
            proof {
                if all_digits(d) {
                    value_grows(d, i - from + 1);
                }
            }
            return None;
        }
        acc = next as u64;
        i = i + 1;
    }
    assert(d.take(d.len() as int) == d);
    Some(acc)
}

/// The number that `s` denotes, if it denotes one no larger than `max`.
pub fn read_unsigned(s: &str, max: u64) -> (r: Option<u64>)
    ensures
        match unsigned_of(s@, max as nat) {
            Some(n) => r == Some(n as u64),
            None => r is None,
        },
{
    let v = chars_of(s);
    let from: usize = if v.len() > 0 && v[0] == '+' {
        1
    } else {
        0
    };
    assert(v@.skip(0) == v@);
    read_digits(&v, from, max)
}

/// The 16-bit number that `s` denotes, if it denotes one.
pub fn read_u16(s: &str) -> (r: Option<u16>)
    ensures
        match unsigned_of(s@, 0xffff) {
            Some(n) => r == Some(n as u16),
            None => r is None,
        },
{
    match read_unsigned(s, 0xffff) {
        Some(n) => Some(n as u16),
        None => None,
    }
}

/// The machine-sized number that `s` denotes, if it denotes one.
pub fn read_usize(s: &str) -> (r: Option<usize>)
    ensures
        match unsigned_of(s@, usize::MAX as nat) {
            Some(n) => r == Some(n as usize),
            None => r is None,
        },
{
    match read_unsigned(s, usize::MAX as u64) {
        Some(n) => Some(n as usize),
        None => None,
    }
}

/// The 32-bit number that `s` denotes, if it denotes one.
pub fn read_i32(s: &str) -> (r: Option<i32>)
    ensures
        match signed_of(s@) {
            Some(n) => r == Some(n as i32),
            None => r is None,
        },
{
    let v = chars_of(s);
    if v.len() > 0 && v[0] == '-' {
        match read_digits(&v, 1, 0x8000_0000) {
            Some(n) => {
                let m: i64 = n as i64;
                Some((0 - m) as i32)
            },
            None => None,
        }
    } else {
        match read_unsigned(s, 0x7fff_ffff) {
            Some(n) => Some(n as i32),
            None => None,
        }
    }
}

/// The character of a digit.
pub open spec fn digit_char(n: int) -> char {
    (('0' as int) + n) as char
}

/// A number in decimal notation, without leading zeros.
pub open spec fn decimal_of(n: nat) -> Seq<char>
    decreases n,
{
    if n < 10 {
        seq![digit_char(n as int)]
    } else {
        decimal_of(n / 10).push(digit_char((n % 10) as int))
    }
}

/// A possibly negative number in decimal notation.
pub open spec fn decimal_int(n: int) -> Seq<char> {
    if n < 0 {
        seq!['-'] + decimal_of((-n) as nat)
    } else {
        decimal_of(n as nat)
    }
}

fn show_digit(n: u64) -> (c: char)
    requires
        n < 10,
    ensures
        c == digit_char(n as int),
{
    match n {
        0 => '0',
        1 => '1',
        2 => '2',
        3 => '3',
        4 => '4',
        5 => '5',
        6 => '6',
        7 => '7',
        8 => '8',
        _ => '9',
    }
}

/// A number in decimal notation.
pub fn show_unsigned(n: u64) -> (r: String)
    ensures
        r@ == decimal_of(n as nat),
    decreases n,
{
    if n < 10 {
        let mut out = String::new();
        out.push(show_digit(n));
        assert(out@ == seq![digit_char(n as int)]);
        out
    } else {
        let mut out = show_unsigned(n / 10);
        out.push(show_digit(n % 10));
        out
    }
}

/// A possibly negative number in decimal notation.
pub fn show_signed(n: i32) -> (r: String)
    ensures
        r@ == decimal_int(n as int),
{
    if n < 0 {
        let m: i64 = n as i64;
        let mut out = String::new();
        out.push('-');
        let digits = show_unsigned((0 - m) as u64);
        out.append(digits.as_str());
        assert(out@ == seq!['-'] + digits@);
        out
    } else {
        show_unsigned(n as u64)
    }
}

proof fn decimal_digits(n: nat)
    ensures
        decimal_of(n).len() > 0,
        all_digits(decimal_of(n)),
        value_of(decimal_of(n)) == n,
    decreases n,
{
    reveal_with_fuel(value_of, 2);
    if n < 10 {
        assert(decimal_of(n).drop_last() == Seq::<char>::empty());
        assert(digit(decimal_of(n)[0]));
    } else {
        decimal_digits(n / 10);
        let s = decimal_of(n);
        assert(s.drop_last() == decimal_of(n / 10));
        assert forall|i: int| 0 <= i < s.len() implies digit(#[trigger] s[i]) by {
            if i < s.len() - 1 {
                assert(s[i] == decimal_of(n / 10)[i]);
            }
        }
    }
}

/// Reading what was written gives the number back.
pub proof fn decimal_reads_back(n: nat, max: nat)
    requires
        n <= max,
    ensures
        unsigned_of(decimal_of(n), max) == Some(n),
{
    decimal_digits(n);
    assert(digit(decimal_of(n)[0]));
    assert(magnitude(decimal_of(n)) == decimal_of(n));
}

/// Reading what was written gives the number back, negative ones too.
pub proof fn signed_reads_back(n: int)
    requires
        -0x8000_0000 <= n <= 0x7fff_ffff,
    ensures
        signed_of(decimal_int(n)) == Some(n),
{
    if n < 0 {
        decimal_digits((-n) as nat);
        assert(decimal_int(n).skip(1) =~= decimal_of((-n) as nat));
    } else {
        decimal_digits(n as nat);
        assert(digit(decimal_of(n as nat)[0]));
        decimal_reads_back(n as nat, 0x7fff_ffff);
    }
}

/// A number is written with digits alone, and a dash in front where it is negative.
pub proof fn decimal_has_no_colon(n: int)
    ensures
        forall|i: int| 0 <= i < decimal_int(n).len() ==> #[trigger] decimal_int(n)[i] != ':',
{
    decimal_digits(if n < 0 {
        (-n) as nat
    } else {
        n as nat
    });
    assert forall|i: int| 0 <= i < decimal_int(n).len() implies #[trigger] decimal_int(n)[i] != ':' by {
        if n < 0 {
            if i > 0 {
                assert(decimal_int(n)[i] == decimal_of((-n) as nat)[i - 1]);
                assert(digit(decimal_of((-n) as nat)[i - 1]));
            }
        } else {
            assert(digit(decimal_of(n as nat)[i]));
        }
    }
}

/// The digits are these ten characters, and stand for these numbers.
pub proof fn the_ten_digits(c: char)
    ensures
        digit(c) <==> c == '0' || c == '1' || c == '2' || c == '3' || c == '4' || c == '5' || c == '6' || c == '7' || c
            == '8' || c == '9',
        decimal_of(0) == seq!['0'] && decimal_of(1) == seq!['1'] && decimal_of(2) == seq!['2'],
        decimal_of(3) == seq!['3'] && decimal_of(4) == seq!['4'] && decimal_of(5) == seq!['5'],
        decimal_of(6) == seq!['6'] && decimal_of(7) == seq!['7'] && decimal_of(8) == seq!['8'],
        decimal_of(9) == seq!['9'],
{
    assert(digit_char(0) == '0' && digit_char(1) == '1' && digit_char(2) == '2' && digit_char(3) == '3');
    assert(digit_char(4) == '4' && digit_char(5) == '5' && digit_char(6) == '6' && digit_char(7) == '7');
    assert(digit_char(8) == '8' && digit_char(9) == '9');
}

/// Writing ten times a number and a digit more writes the number and then the digit; no
/// number but nought begins with a nought.
pub proof fn a_digit_more_is_ten_times(n: nat, d: nat)
    requires
        n > 0,
        d < 10,
    ensures
        decimal_of(10 * n + d) == decimal_of(n) + decimal_of(d),
        decimal_of(n)[0] != '0',
    decreases n,
{
    assert((10 * n + d) / 10 == n && (10 * n + d) % 10 == d) by (nonlinear_arith)
        requires
            d < 10,
    ;
    assert(decimal_of(d) == seq![digit_char(d as int)]);
    assert(decimal_of(10 * n + d) =~= decimal_of(n) + decimal_of(d));
    if n < 10 {
        the_ten_digits('0');
        assert(decimal_of(n)[0] == digit_char(n as int));
    } else {
        let m = n / 10;
        a_digit_more_is_ten_times(m, n % 10);
        decimal_digits(m);
        assert(decimal_of(n)[0] == decimal_of(m)[0]);
    }
}

/// A number is read from digits, with or without a plus sign in front, where it is not
/// too large; and nothing is read from a text with another character in it, or with no
/// digits.
pub proof fn what_is_read_as_a_number(n: nat, max: nat, other: Seq<char>, i: int)
    ensures
        unsigned_of(seq!['+'] + decimal_of(n), max) == unsigned_of(decimal_of(n), max),
        n > max ==> unsigned_of(decimal_of(n), max) is None,
        unsigned_of(Seq::empty(), max) is None,
        unsigned_of(seq!['+'], max) is None,
        0 <= i < other.len() && !digit(other[i]) && !(i == 0 && other[0] == '+') ==> unsigned_of(other, max) is None,
        0 <= i < other.len() && !digit(other[i]) && !(i == 0 && (other[0] == '+' || other[0] == '-')) ==> signed_of(
            other,
        ) is None,
        signed_of(seq!['-']) is None,
        n > 0x8000_0000 ==> signed_of(seq!['-'] + decimal_of(n)) is None,
        n > 0x7fff_ffff ==> signed_of(decimal_of(n)) is None,
{
    decimal_digits(n);
    assert(digit(decimal_of(n)[0]));
    assert((seq!['+'] + decimal_of(n)).skip(1) =~= decimal_of(n));
    assert((seq!['-'] + decimal_of(n)).skip(1) =~= decimal_of(n));
    assert(seq!['+'].skip(1) =~= Seq::<char>::empty());
    assert(seq!['-'].skip(1) =~= Seq::<char>::empty());
    if 0 <= i < other.len() && !digit(other[i]) && other[0] == '+' && i > 0 {
        assert(other.skip(1)[i - 1] == other[i]);
    }
    if 0 <= i < other.len() && !digit(other[i]) && other[0] == '-' && i > 0 {
        assert(other.skip(1)[i - 1] == other[i]);
    }
}

/// What is written of a number begins and ends with a digit, and has no white space in it.
pub proof fn decimal_is_solid(n: nat)
    ensures
        decimal_of(n).len() > 0,
        !crate::text::white(decimal_of(n)[0]),
        !crate::text::white(decimal_of(n).last()),
        crate::text::laws::solid(decimal_of(n)),
{
    decimal_digits(n);
    assert forall|i: int| 0 <= i < decimal_of(n).len() implies !crate::text::white(#[trigger] decimal_of(n)[i]) by {
        assert(digit(decimal_of(n)[i]));
    }
}

} // verus!
