//! Character-level building blocks for the JSON encoder: decimal and
//! zero-padded number rendering, and JSON string escaping.

use vstd::prelude::*;

verus! {

/// Digit character for a value below ten.
pub open spec fn dec_digit(n: int) -> char {
    seq!['0', '1', '2', '3', '4', '5', '6', '7', '8', '9'][n]
}

/// Decimal text of a natural number, most significant digit first.
pub open spec fn dec_str(n: nat) -> Seq<char>
    decreases n,
{
    if n < 10 {
        seq![dec_digit(n as int)]
    } else {
        dec_str(n / 10) + seq![dec_digit((n % 10) as int)]
    }
}

/// Decimal text of an integer: a minus sign for negatives, then the digits.
pub open spec fn int_text(n: int) -> Seq<char> {
    if n < 0 {
        seq!['-'] + dec_str((-n) as nat)
    } else {
        dec_str(n as nat)
    }
}

/// Text of `n` padded with zeroes to at least two digits.
pub open spec fn pad2(n: nat) -> Seq<char> {
    if n < 10 {
        seq!['0'] + dec_str(n)
    } else {
        dec_str(n)
    }
}

/// Text of `n` padded with zeroes to at least four digits.
pub open spec fn pad4(n: nat) -> Seq<char> {
    if n < 10 {
        seq!['0', '0', '0'] + dec_str(n)
    } else if n < 100 {
        seq!['0', '0'] + dec_str(n)
    } else if n < 1000 {
        seq!['0'] + dec_str(n)
    } else {
        dec_str(n)
    }
}

/// Lower-case hexadecimal digit character for a value below sixteen.
pub open spec fn hex_digit(n: int) -> char {
    seq!['0', '1', '2', '3', '4', '5', '6', '7', '8', '9', 'a', 'b', 'c', 'd', 'e', 'f'][n]
}

/// How one character appears inside a JSON string literal: quotes and
/// backslashes are escaped, the named control characters use their short
/// escapes, the remaining control characters use `\u00..`, and everything
/// else stands for itself.
pub open spec fn escape_char(c: char) -> Seq<char> {
    if c == '"' {
        seq!['\\', '"']
    } else if c == '\\' {
        seq!['\\', '\\']
    } else if c == '\u{8}' {
        seq!['\\', 'b']
    } else if c == '\u{9}' {
        seq!['\\', 't']
    } else if c == '\u{A}' {
        seq!['\\', 'n']
    } else if c == '\u{C}' {
        seq!['\\', 'f']
    } else if c == '\u{D}' {
        seq!['\\', 'r']
    } else if (c as u32) < 0x20 {
        seq!['\\', 'u', '0', '0', hex_digit((c as u32) as int / 16), hex_digit(
            (c as u32) as int % 16,
        )]
    } else {
        seq![c]
    }
}

/// The body of a JSON string literal for the given characters.
pub open spec fn escape_text(s: Seq<char>) -> Seq<char>
    decreases s.len(),
{
    if s.len() == 0 {
        Seq::empty()
    } else {
        escape_char(s[0]) + escape_text(s.drop_first())
    }
}

/// A complete JSON string literal: quote, escaped body, quote.
pub open spec fn quote_text(s: Seq<char>) -> Seq<char> {
    seq!['"'] + escape_text(s) + seq!['"']
}

/// Escaping a string one character longer appends that character's escape.
pub proof fn lemma_escape_push(a: Seq<char>, c: char)
    ensures
        escape_text(a.push(c)) == escape_text(a) + escape_char(c),
    decreases a.len(),
{
    if a.len() == 0 {
        assert(a.push(c).drop_first() =~= Seq::<char>::empty());
        assert(a.push(c)[0] == c);
        assert(escape_text(Seq::<char>::empty()) =~= Seq::<char>::empty());
        assert(escape_text(a.push(c)) == escape_char(c) + escape_text(a.push(c).drop_first()));
        assert(escape_text(a.push(c)) =~= escape_text(a) + escape_char(c));
    } else {
        lemma_escape_push(a.drop_first(), c);
        assert(a.push(c).drop_first() =~= a.drop_first().push(c));
        assert(a.push(c)[0] == a[0]);
        assert(escape_text(a.push(c)) == escape_char(a[0]) + escape_text(a.drop_first().push(c)));
        assert(escape_char(a[0]) + (escape_text(a.drop_first()) + escape_char(c)) =~= (escape_char(
            a[0],
        ) + escape_text(a.drop_first())) + escape_char(c));
        assert(escape_text(a.push(c)) =~= escape_text(a) + escape_char(c));
    }
}

fn dec_digit_char(d: u8) -> (c: char)
    requires
        d < 10,
    ensures
        c == dec_digit(d as int),
{
    match d {
        0 => '0',
        1 => '1',
        2 => '2',
        3 => '3',
        4 => '4',
        5 => '5',
        6 => '6',
        7 => '7',
        8 => '8',
        _ => '9',
    }
}

fn hex_digit_char(d: u8) -> (c: char)
    requires
        d < 16,
    ensures
        c == hex_digit(d as int),
{
    match d {
        0 => '0',
        1 => '1',
        2 => '2',
        3 => '3',
        4 => '4',
        5 => '5',
        6 => '6',
        7 => '7',
        8 => '8',
        9 => '9',
        10 => 'a',
        11 => 'b',
        12 => 'c',
        13 => 'd',
        14 => 'e',
        _ => 'f',
    }
}

/// Relies on std's `String::push`: appends exactly the one character.
pub assume_specification[ String::push ](s: &mut String, c: char)
    ensures
        final(s)@ == old(s)@ + seq![c],
;

/// Appends the decimal rendering of `n` to `out`.
pub fn append_u64(out: &mut String, n: u64)
    ensures
        final(out)@ == old(out)@ + dec_str(n as nat),
    decreases n,
{
    if n < 10 {
        out.push(dec_digit_char(n as u8));
    } else {
        append_u64(out, n / 10);
        out.push(dec_digit_char((n % 10) as u8));
        proof {
            assert((old(out)@ + dec_str((n / 10) as nat)) + seq![dec_digit((n % 10) as int)]
                =~= old(out)@ + dec_str(n as nat));
        }
    }
}

/// Appends the decimal rendering of `n` to `out`, minus sign included.
pub fn append_i64(out: &mut String, n: i64)
    ensures
        final(out)@ == old(out)@ + int_text(n as int),
{
    if n < 0 {
        out.push('-');
        let m: u64 = if n < -9223372036854775807i64 {
            9223372036854775808u64
        } else {
            (-n) as u64
        };
        assert(m as nat == (-(n as int)) as nat);
        append_u64(out, m);
        proof {
            assert((old(out)@ + seq!['-']) + dec_str(m as nat) =~= old(out)@ + int_text(n as int));
        }
    } else {
        append_u64(out, n as u64);
    }
}

/// Appends `n` padded with zeroes to at least two digits.
pub fn append_pad2(out: &mut String, n: u8)
    ensures
        final(out)@ == old(out)@ + pad2(n as nat),
{
    if n < 10 {
        out.push('0');
        out.push(dec_digit_char(n));
        proof {
            assert((old(out)@ + seq!['0']) + seq![dec_digit(n as int)] =~= old(out)@ + pad2(
                n as nat,
            ));
        }
    } else {
        append_u64(out, n as u64);
    }
}

/// Appends `n` padded with zeroes to at least four digits.
pub fn append_pad4(out: &mut String, n: u16)
    ensures
        final(out)@ == old(out)@ + pad4(n as nat),
{
    if n < 10 {
        out.push('0');
        out.push('0');
        out.push('0');
        out.push(dec_digit_char(n as u8));
        proof {
            assert((((old(out)@ + seq!['0']) + seq!['0']) + seq!['0']) + seq![dec_digit(n as int)]
                =~= old(out)@ + pad4(n as nat));
        }
    } else if n < 100 {
        out.push('0');
        out.push('0');
        append_u64(out, n as u64);
        proof {
            assert(((old(out)@ + seq!['0']) + seq!['0']) + dec_str(n as nat) =~= old(out)@ + pad4(
                n as nat,
            ));
        }
    } else if n < 1000 {
        out.push('0');
        append_u64(out, n as u64);
        proof {
            assert((old(out)@ + seq!['0']) + dec_str(n as nat) =~= old(out)@ + pad4(n as nat));
        }
    } else {
        append_u64(out, n as u64);
    }
}

/// Appends the escaped body text for `s` (without the surrounding quotes).
pub fn append_escaped(out: &mut String, s: &str)
    ensures
        final(out)@ == old(out)@ + escape_text(s@),
{
    let n = s.unicode_len();
    let mut i: usize = 0;
    while i < n
        invariant
            n == s@.len(),
            i <= n,
            out@ == old(out)@ + escape_text(s@.take(i as int)),
        decreases n - i,
    {
        let c = s.get_char(i);
        let ghost pre = out@;
        if c == '"' {
            out.push('\\');
            out.push('"');
        } else if c == '\\' {
            out.push('\\');
            out.push('\\');
        } else if c == '\u{8}' {
            out.push('\\');
            out.push('b');
        } else if c == '\u{9}' {
            out.push('\\');
            out.push('t');
        } else if c == '\u{A}' {
            out.push('\\');
            out.push('n');
        } else if c == '\u{C}' {
            out.push('\\');
            out.push('f');
        } else if c == '\u{D}' {
            out.push('\\');
            out.push('r');
        } else {
            let u = c as u32;
            if u < 0x20 {
                out.push('\\');
                out.push('u');
                out.push('0');
                out.push('0');
                out.push(hex_digit_char((u / 16) as u8));
                out.push(hex_digit_char((u % 16) as u8));
            } else {
                out.push(c);
            }
        }
        proof {
            assert(out@ =~= pre + escape_char(c));
            lemma_escape_push(s@.take(i as int), s@[i as int]);
            assert(s@.take(i as int + 1) =~= s@.take(i as int).push(s@[i as int]));
            assert((old(out)@ + escape_text(s@.take(i as int))) + escape_char(c) =~= old(out)@
                + escape_text(s@.take(i as int + 1)));
        }
        i = i + 1;
    }
    proof {
        assert(s@.take(n as int) =~= s@);
    }
}

/// Appends a complete JSON string literal for `s`.
pub fn append_quoted(out: &mut String, s: &str)
    ensures
        final(out)@ == old(out)@ + quote_text(s@),
{
    out.push('"');
    append_escaped(out, s);
    out.push('"');
    proof {
        assert(((old(out)@ + seq!['"']) + escape_text(s@)) + seq!['"'] =~= old(out)@ + quote_text(
            s@,
        ));
    }
}

} // verus!
