//! Numbers as text.
use vstd::prelude::*;
use vstd::string::*;

verus! {

/// The character of a hexadecimal digit, upper case.
pub open spec fn digit(d: nat) -> char {
    if d < 10 {
        ('0' as nat + d) as char
    } else {
        ('A' as nat + d - 10) as char
    }
}

/// `n` in decimal, without leading zeros.
pub open spec fn dec(n: nat) -> Seq<char>
    decreases n,
{
    if n < 10 {
        seq![digit(n)]
    } else {
        dec(n / 10).push(digit(n % 10))
    }
}

/// `i` in decimal, with a minus sign where it is negative.
pub open spec fn dec_int(i: int) -> Seq<char> {
    if i < 0 {
        seq!['-'] + dec((-i) as nat)
    } else {
        dec(i as nat)
    }
}

/// `n` in upper-case hexadecimal, filled with zeros to at least `width` digits.
pub open spec fn hex(n: nat, width: nat) -> Seq<char>
    decreases n, width,
{
    if n < 16 && width <= 1 {
        seq![digit(n)]
    } else {
        hex(
            n / 16,
            (if width == 0 {
                0
            } else {
                width - 1
            }) as nat,
        ).push(digit(n % 16))
    }
}

/// `n` in decimal, filled with zeros to at least `width` digits.
pub open spec fn dec_padded(n: nat, width: nat) -> Seq<char>
    decreases n, width,
{
    if n < 10 && width <= 1 {
        seq![digit(n)]
    } else {
        dec_padded(
            n / 10,
            (if width == 0 {
                0
            } else {
                width - 1
            }) as nat,
        ).push(digit(n % 10))
    }
}

/// Texts by their characters.
pub open spec fn texts(v: Seq<String>) -> Seq<Seq<char>> {
    v.map_values(|s: String| s@)
}

/// `n` blanks.
pub open spec fn blanks(n: nat) -> Seq<char> {
    Seq::new(n, |i: int| ' ')
}

/// `s` with blanks behind it, to at least `width` characters.
pub open spec fn left_aligned(s: Seq<char>, width: nat) -> Seq<char> {
    if s.len() >= width {
        s
    } else {
        s + blanks((width - s.len()) as nat)
    }
}

/// `s` with blanks before it, to at least `width` characters.
pub open spec fn right_aligned(s: Seq<char>, width: nat) -> Seq<char> {
    if s.len() >= width {
        s
    } else {
        blanks((width - s.len()) as nat) + s
    }
}

/// Whether `c` is a decimal digit.
pub open spec fn is_digit(c: char) -> bool {
    '0' <= c <= '9'
}

/// The number that decimal digits spell.
pub open spec fn digits_value(s: Seq<char>) -> nat
    decreases s.len(),
{
    if s.len() == 0 {
        0
    } else {
        10 * digits_value(s.drop_last()) + (s.last() as nat - '0' as nat) as nat
    }
}

/// The digits of a number: all of `s` but a leading plus sign.
pub open spec fn without_plus(s: Seq<char>) -> Seq<char> {
    if s.len() > 0 && s[0] == '+' {
        s.skip(1)
    } else {
        s
    }
}

/// The number that `s` writes down, if it is one and at most `max`: one digit or
/// more, with a plus sign before them or not.
pub open spec fn unsigned_in(s: Seq<char>, max: nat) -> Option<nat> {
    let d = without_plus(s);
    if d.len() > 0 && (forall|i: int| 0 <= i < d.len() ==> is_digit(#[trigger] d[i]))
        && digits_value(d) <= max {
        Some(digits_value(d))
    } else {
        None
    }
}

/// The decimal digits of a number are digits and spell it.
proof fn lemma_dec_digits(n: nat)
    ensures
        dec(n).len() > 0,
        forall|i: int| 0 <= i < dec(n).len() ==> is_digit(#[trigger] dec(n)[i]),
        digits_value(dec(n)) == n,
    decreases n,
{
    if n >= 10 {
        lemma_dec_digits(n / 10);
        assert(dec(n).drop_last() =~= dec(n / 10));
    } else {
        assert(dec(n).drop_last() =~= Seq::<char>::empty());
        assert(digits_value(dec(n).drop_last()) == 0);
    }
}

/// What is written in decimal reads back as the number.
pub proof fn law_decimal_reads_back(n: nat, max: nat)
    requires
        n <= max,
    ensures
        unsigned_in(dec(n), max) == Some(n),
{
    lemma_dec_digits(n);
    assert(is_digit(dec(n)[0]));
}

/// A number grows with every digit.
proof fn lemma_digits_value_grows(s: Seq<char>, i: int)
    requires
        0 <= i <= s.len(),
        forall|j: int| 0 <= j < s.len() ==> is_digit(#[trigger] s[j]),
    ensures
        digits_value(s.take(i)) <= digits_value(s),
    decreases s.len(),
{
    if i < s.len() {
        lemma_digits_value_grows(s.drop_last(), i);
        assert(s.drop_last().take(i) =~= s.take(i));
    } else {
        assert(s.take(i) =~= s);
    }
}

/// `String::push`: appends a character.
pub assume_specification[ String::push ](s: &mut String, c: char)
    ensures
        final(s)@ == old(s)@.push(c),
;

/// `String::pop`: takes the last character off, if there is one.
pub assume_specification[ String::pop ](s: &mut String) -> (r: Option<char>)
    ensures
        match r {
            Some(c) => old(s)@.len() > 0 && c == old(s)@.last() && final(s)@
                == old(s)@.drop_last(),
            None => old(s)@.len() == 0 && final(s)@ == old(s)@,
        },
;

/// The number that `s` writes down, if it is one and at most `max`.
pub fn parse_unsigned(s: &str, max: u64) -> (r: Option<u64>)
    ensures
        match r {
            Some(n) => unsigned_in(s@, max as nat) == Some(n as nat),
            None => unsigned_in(s@, max as nat) is None,
        },
{
    let n: usize = s.unicode_len();
    let start: usize = if n > 0 && s.get_char(0) == '+' {
        1
    } else {
        0
    };
    let ghost d = without_plus(s@);
    if start == n {
        return None;
    }
    let mut value: u64 = 0;
    let mut i: usize = start;
    assert(d.take(0) =~= Seq::<char>::empty());
    while i < n
        invariant
            start <= i <= n,
            n == s@.len(),
            d == without_plus(s@),
            start <= 1,
            start == 1 ==> d == s@.skip(1),
            start == 0 ==> d == s@,
            d.len() == n - start,
            value <= max,
            value == digits_value(d.take(i - start)),
            forall|j: int| 0 <= j < i - start ==> is_digit(#[trigger] d[j]),
        decreases n - i,
    {
        let c: char = s.get_char(i);
        assert(c == d[i - start]);
        if !('0' <= c && c <= '9') {
            return None;
        }
        let digit: u64 = (c as u32 - '0' as u32) as u64;
        proof {
            assert(d.take(i - start + 1).drop_last() =~= d.take(i - start));
        }
        let next: u128 = 10 * (value as u128) + digit as u128;
        if next > max as u128 {
            proof {
                if forall|j: int| 0 <= j < d.len() ==> is_digit(#[trigger] d[j]) {
                    lemma_digits_value_grows(d, i - start + 1);
                }
            }
            return None;
        }
        value = next as u64;
        i = i + 1;
    }
    assert(d.take(n - start) =~= d);
    Some(value)
}

/// Whether two texts are the same.
pub fn same(a: &str, b: &str) -> (r: bool)
    ensures
        r == (a@ == b@),
{
    let n: usize = a.unicode_len();
    if n != b.unicode_len() {
        return false;
    }
    let mut i: usize = 0;
    while i < n
        invariant
            i <= n,
            n == a@.len(),
            n == b@.len(),
            forall|j: int| 0 <= j < i ==> a@[j] == b@[j],
        decreases n - i,
    {
        if a.get_char(i) != b.get_char(i) {
            return false;
        }
        i = i + 1;
    }
    assert(a@ =~= b@);
    true
}

/// Appends `n` blanks.
fn push_blanks(out: &mut String, n: usize)
    ensures
        final(out)@ == old(out)@ + blanks(n as nat),
{
    let mut i: usize = 0;
    assert(out@ =~= old(out)@ + blanks(0));
    while i < n
        invariant
            i <= n,
            out@ == old(out)@ + blanks(i as nat),
        decreases n - i,
    {
        out.push(' ');
        i = i + 1;
        assert(out@ =~= old(out)@ + blanks(i as nat));
    }
}

/// Appends `s`, with blanks behind it to at least `width` characters.
pub fn push_left_aligned(out: &mut String, s: &str, width: usize)
    ensures
        final(out)@ == old(out)@ + left_aligned(s@, width as nat),
{
    let n: usize = s.unicode_len();
    out.append(s);
    if n < width {
        push_blanks(out, width - n);
        assert(out@ =~= old(out)@ + left_aligned(s@, width as nat));
    }
}

/// Appends `s`, with blanks before it to at least `width` characters.
pub fn push_right_aligned(out: &mut String, s: &str, width: usize)
    ensures
        final(out)@ == old(out)@ + right_aligned(s@, width as nat),
{
    let n: usize = s.unicode_len();
    if n < width {
        push_blanks(out, width - n);
    }
    out.append(s);
    assert(out@ =~= old(out)@ + right_aligned(s@, width as nat));
}

/// `n` in decimal.
pub fn dec_string(n: u64) -> (r: String)
    ensures
        r@ == dec(n as nat),
{
    let mut out: String = String::new();
    push_dec(&mut out, n);
    assert(out@ =~= dec(n as nat));
    out
}

/// One hexadecimal digit.
fn digit_str(d: u8) -> (r: &'static str)
    requires
        d < 16,
    ensures
        r@ == seq![digit(d as nat)],
{
    proof {
        reveal_strlit("0");
        reveal_strlit("1");
        reveal_strlit("2");
        reveal_strlit("3");
        reveal_strlit("4");
        reveal_strlit("5");
        reveal_strlit("6");
        reveal_strlit("7");
        reveal_strlit("8");
        reveal_strlit("9");
        reveal_strlit("A");
        reveal_strlit("B");
        reveal_strlit("C");
        reveal_strlit("D");
        reveal_strlit("E");
        reveal_strlit("F");
    }
    match d {
        0 => "0",
        1 => "1",
        2 => "2",
        3 => "3",
        4 => "4",
        5 => "5",
        6 => "6",
        7 => "7",
        8 => "8",
        9 => "9",
        10 => "A",
        11 => "B",
        12 => "C",
        13 => "D",
        14 => "E",
        _ => "F",
    }
}

/// Appends `n` in decimal.
pub fn push_dec(out: &mut String, n: u64)
    ensures
        final(out)@ == old(out)@ + dec(n as nat),
    decreases n,
{
    if n >= 10 {
        push_dec(out, n / 10);
    }
    out.append(digit_str((n % 10) as u8));
    proof {
        if n >= 10 {
            assert(out@ =~= old(out)@ + dec(n as nat));
        }
    }
}

/// Appends `i` in decimal, with a minus sign where it is negative.
pub fn push_int(out: &mut String, i: i64)
    ensures
        final(out)@ == old(out)@ + dec_int(i as int),
{
    if i < 0 {
        proof {
            reveal_strlit("-");
        }
        out.append("-");
        push_dec(out, (-(i as i128)) as u64);
        assert(out@ =~= old(out)@ + dec_int(i as int));
    } else {
        push_dec(out, i as u64);
    }
}

/// Appends `n` in upper-case hexadecimal, filled with zeros to `width` digits.
pub fn push_hex(out: &mut String, n: u64, width: u8)
    ensures
        final(out)@ == old(out)@ + hex(n as nat, width as nat),
    decreases n, width,
{
    if n < 16 && width <= 1 {
        out.append(digit_str(n as u8));
    } else {
        push_hex(
            out,
            n / 16,
            if width == 0 {
                0
            } else {
                width - 1
            },
        );
        out.append(digit_str((n % 16) as u8));
        assert(out@ =~= old(out)@ + hex(n as nat, width as nat));
    }
}

/// Appends `n` in decimal, filled with zeros to `width` digits.
pub fn push_dec_padded(out: &mut String, n: u64, width: u8)
    ensures
        final(out)@ == old(out)@ + dec_padded(n as nat, width as nat),
    decreases n, width,
{
    if n < 10 && width <= 1 {
        out.append(digit_str(n as u8));
    } else {
        push_dec_padded(
            out,
            n / 10,
            if width == 0 {
                0
            } else {
                width - 1
            },
        );
        out.append(digit_str((n % 10) as u8));
        assert(out@ =~= old(out)@ + dec_padded(n as nat, width as nat));
    }
}

/// The number of a hexadecimal digit.
pub open spec fn hex_digit_value(c: char) -> nat {
    if is_digit(c) {
        (c as nat - '0' as nat) as nat
    } else {
        (c as nat - 'A' as nat + 10) as nat
    }
}

/// The number that hexadecimal digits stand for.
pub open spec fn hex_value(s: Seq<char>) -> nat
    decreases s.len(),
{
    if s.len() == 0 {
        0
    } else {
        16 * hex_value(s.drop_last()) + hex_digit_value(s.last())
    }
}

/// Hexadecimal text stands for its number, is as wide as was asked for at least, and is
/// wider only where the number does not fit: no zero leads it then.
pub proof fn law_hexadecimal_reads_back(n: nat, width: nat)
    ensures
        hex_value(hex(n, width)) == n,
        hex(n, width).len() >= width,
        hex(n, width).len() >= 1,
        hex(n, width).len() > width && hex(n, width).len() > 1 ==> hex(n, width)[0] != '0',
    decreases n, width,
{
    let s = hex(n, width);
    if n < 16 && width <= 1 {
        assert(s.drop_last() =~= Seq::<char>::empty());
        assert(hex_value(s.drop_last()) == 0);
        if n >= 10 {
            assert(digit(n) as nat == 'A' as nat + n - 10);
        }
        assert(hex_digit_value(digit(n)) == n);
    } else {
        let narrower = (if width == 0 {
            0
        } else {
            width - 1
        }) as nat;
        law_hexadecimal_reads_back(n / 16, narrower);
        let head = hex(n / 16, narrower);
        assert(s.drop_last() =~= head);
        assert(hex_digit_value(digit(n % 16)) == n % 16);
        if s.len() > width {
            assert(s[0] == head[0]);
            if head.len() == 1 {
                assert(width <= 1);
                assert(n >= 16);
                assert(narrower == 0);
                if n / 16 >= 16 {
                    law_hexadecimal_reads_back(n / 16 / 16, 0);
                    assert(head.drop_last() =~= hex(n / 16 / 16, 0));
                }
                assert(head =~= seq![digit(n / 16)]);
            }
        }
    }
}

/// Padded decimal text stands for its number, is all digits, and is as wide as was
/// asked for at least.
pub proof fn law_padded_decimal_reads_back(n: nat, width: nat)
    ensures
        digits_value(dec_padded(n, width)) == n,
        forall|i: int|
            0 <= i < dec_padded(n, width).len() ==> is_digit(#[trigger] dec_padded(n, width)[i]),
        dec_padded(n, width).len() >= width,
        width == 2 && n < 100 ==> dec_padded(n, width).len() == 2,
    decreases n, width,
{
    let s = dec_padded(n, width);
    if n < 10 && width <= 1 {
        assert(s.drop_last() =~= Seq::<char>::empty());
        assert(digits_value(s.drop_last()) == 0);
    } else {
        let narrower = (if width == 0 {
            0
        } else {
            width - 1
        }) as nat;
        law_padded_decimal_reads_back(n / 10, narrower);
        assert(s.drop_last() =~= dec_padded(n / 10, narrower));
        if width == 2 && n < 100 {
            assert(narrower == 1 && n / 10 < 10);
            assert(dec_padded(n / 10, narrower) =~= seq![digit(n / 10)]);
        }
    }
}

/// A negative number is a minus sign before its absolute value; others are written
/// as they are, and never start with one.
pub proof fn law_signed_decimal(i: int)
    ensures
        i < 0 ==> dec_int(i)[0] == '-' && dec_int(i).skip(1) == dec((-i) as nat),
        i >= 0 ==> dec_int(i) == dec(i as nat) && dec_int(i)[0] != '-',
        i >= 0 ==> digits_value(dec_int(i)) == i,
        i < 0 ==> digits_value(dec_int(i).skip(1)) == -i,
{
    if i < 0 {
        lemma_dec_digits((-i) as nat);
        assert(dec_int(i).skip(1) =~= dec((-i) as nat));
    } else {
        lemma_dec_digits(i as nat);
        assert(is_digit(dec(i as nat)[0]));
    }
}

/// A number is read with or without a plus sign, and only if it is digits and nothing
/// else, at least one, and not above the most that is allowed.
pub proof fn law_what_is_read_as_a_number(s: Seq<char>, max: nat)
    ensures
        s.len() == 0 ==> unsigned_in(s, max) is None,
        s.len() > 0 && s[0] != '+' ==> unsigned_in(seq!['+'] + s, max) == unsigned_in(s, max),
        unsigned_in(s, max) matches Some(n) ==> n <= max && (forall|i: int|
            0 < i < s.len() ==> is_digit(#[trigger] s[i])) && (is_digit(s[0]) || s[0] == '+'),
        unsigned_in(s, max) matches Some(n) ==> (forall|less: nat|
            #[trigger] unsigned_in(s, less) == (if n <= less {
                Some(n)
            } else {
                None
            })),
{
    if s.len() > 0 && s[0] != '+' {
        let t = seq!['+'] + s;
        assert(without_plus(t) =~= s);
        assert(without_plus(s) == s);
    }
    if unsigned_in(s, max) is Some {
        let d = without_plus(s);
        assert(is_digit(d[0]));
        assert forall|i: int| 0 < i < s.len() implies is_digit(#[trigger] s[i]) by {
            if s[0] == '+' {
                assert(d[i - 1] == s[i]);
            } else {
                assert(d[i] == s[i]);
            }
        }
    }
}

/// Aligned text is the text and blanks, as wide as was asked for where the text is not
/// wider: on the left the text comes first, on the right last.
pub proof fn law_alignment(s: Seq<char>, width: nat, i: int)
    ensures
        left_aligned(s, width).len() == right_aligned(s, width).len(),
        left_aligned(s, width).len() == (if s.len() < width {
            width
        } else {
            s.len()
        }),
        0 <= i < s.len() ==> left_aligned(s, width)[i] == s[i],
        s.len() <= i < width ==> left_aligned(s, width)[i] == ' ',
        0 <= i < s.len() ==> right_aligned(s, width)[right_aligned(s, width).len() - s.len() + i]
            == s[i],
        0 <= i < width - s.len() ==> right_aligned(s, width)[i] == ' ',
{
}

} // verus!
