//! Response shaping: the pretty-printed JSON document for a hello record,
//! built and proved character by character.

use vstd::prelude::*;
use vstd::string::*;
use crate::hello::HelloRecord;

verus! {

/// The decimal digit character for `d` in 0..10.
pub open spec fn digit_char(d: int) -> char {
    if d == 0 {
        '0'
    } else if d == 1 {
        '1'
    } else if d == 2 {
        '2'
    } else if d == 3 {
        '3'
    } else if d == 4 {
        '4'
    } else if d == 5 {
        '5'
    } else if d == 6 {
        '6'
    } else if d == 7 {
        '7'
    } else if d == 8 {
        '8'
    } else {
        '9'
    }
}

/// The lower-case hexadecimal digit character for `d` in 0..16.
pub open spec fn hex_char(d: int) -> char {
    if d < 10 {
        digit_char(d)
    } else if d == 10 {
        'a'
    } else if d == 11 {
        'b'
    } else if d == 12 {
        'c'
    } else if d == 13 {
        'd'
    } else if d == 14 {
        'e'
    } else {
        'f'
    }
}

/// The decimal digits of a non-negative `n`, empty for 0.
pub open spec fn dec_digits(n: int) -> Seq<char>
    decreases n,
{
    if n <= 0 {
        Seq::empty()
    } else {
        dec_digits(n / 10).push(digit_char(n % 10))
    }
}

/// The decimal rendering of any integer, with a leading minus for a
/// negative one.
pub open spec fn dec_str(n: int) -> Seq<char> {
    if n == 0 {
        seq!['0']
    } else if n < 0 {
        seq!['-'] + dec_digits(-n)
    } else {
        dec_digits(n)
    }
}

/// The JSON escape of one character: quote and backslash get a backslash,
/// the named control characters their short escape, every other control
/// character a \u00 escape with two lower-case hex digits, and everything
/// else stands for itself.
pub open spec fn escaped_char(c: char) -> Seq<char> {
    if c == '"' {
        "\\\""@
    } else if c == '\\' {
        "\\\\"@
    } else if c == '\u{8}' {
        "\\b"@
    } else if c == '\t' {
        "\\t"@
    } else if c == '\n' {
        "\\n"@
    } else if c == '\u{c}' {
        "\\f"@
    } else if c == '\r' {
        "\\r"@
    } else if (c as u32) < 32 {
        "\\u00"@ + seq![hex_char((c as u32) as int / 16), hex_char((c as u32) as int % 16)]
    } else {
        seq![c]
    }
}

/// The JSON escape of a whole string.
pub open spec fn escaped(s: Seq<char>) -> Seq<char>
    decreases s.len(),
{
    if s.len() == 0 {
        Seq::empty()
    } else {
        escaped(s.drop_last()) + escaped_char(s.last())
    }
}

/// The pretty-printed JSON document for a hello record, in field order id,
/// name, count, with two-space indentation.
pub open spec fn hello_json(id: int, name: Seq<char>, count: int) -> Seq<char> {
    "{\n  \"id\": "@ + dec_str(id) + ",\n  \"name\": \""@ + escaped(name) + "\",\n  \"count\": "@
        + dec_str(count) + "\n}"@
}

/// Relies on String::push appending exactly the given character to the end
/// of the string, as std documents.
pub assume_specification [ String::push ](s: &mut String, c: char)
    ensures
        final(s)@ == old(s)@.push(c),
;

/// Appends the decimal digit character for `d`.
fn push_digit(s: &mut String, d: u64)
    requires
        d < 10,
    ensures
        final(s)@ == old(s)@.push(digit_char(d as int)),
{
    let c: char = if d == 0 {
        '0'
    } else if d == 1 {
        '1'
    } else if d == 2 {
        '2'
    } else if d == 3 {
        '3'
    } else if d == 4 {
        '4'
    } else if d == 5 {
        '5'
    } else if d == 6 {
        '6'
    } else if d == 7 {
        '7'
    } else if d == 8 {
        '8'
    } else {
        '9'
    };
    s.push(c);
}

/// Appends the lower-case hexadecimal digit character for `d`.
fn push_hex_digit(s: &mut String, d: u32)
    requires
        d < 16,
    ensures
        final(s)@ == old(s)@.push(hex_char(d as int)),
{
    let c: char = if d == 0 {
        '0'
    } else if d == 1 {
        '1'
    } else if d == 2 {
        '2'
    } else if d == 3 {
        '3'
    } else if d == 4 {
        '4'
    } else if d == 5 {
        '5'
    } else if d == 6 {
        '6'
    } else if d == 7 {
        '7'
    } else if d == 8 {
        '8'
    } else if d == 9 {
        '9'
    } else if d == 10 {
        'a'
    } else if d == 11 {
        'b'
    } else if d == 12 {
        'c'
    } else if d == 13 {
        'd'
    } else if d == 14 {
        'e'
    } else {
        'f'
    };
    s.push(c);
}

/// Appends the decimal digits of `n`, nothing for 0.
fn push_dec_digits(s: &mut String, n: u64)
    ensures
        final(s)@ == old(s)@ + dec_digits(n as int),
    decreases n,
{
    if n == 0 {
        proof {
            assert(old(s)@ + dec_digits(0) =~= old(s)@);
        }
        return ;
    }
    push_dec_digits(s, n / 10);
    push_digit(s, n % 10);
    proof {
        assert(old(s)@ + dec_digits(n as int) =~= (old(s)@ + dec_digits(n as int / 10)).push(
            digit_char(n as int % 10),
        ));
    }
}

/// Appends the decimal rendering of `v`.
fn push_i64(s: &mut String, v: i64)
    ensures
        final(s)@ == old(s)@ + dec_str(v as int),
{
    if v == 0 {
        s.push('0');
        proof {
            assert(old(s)@ + dec_str(0) =~= old(s)@.push('0'));
        }
    } else if v < 0 {
        s.push('-');
        let mag: u64 = ((-(v + 1)) as u64) + 1;
        push_dec_digits(s, mag);
        proof {
            assert(mag as int == -(v as int));
            assert(old(s)@ + dec_str(v as int) =~= old(s)@.push('-') + dec_digits(mag as int));
        }
    } else {
        push_dec_digits(s, v as u64);
        proof {
            assert(old(s)@ + dec_str(v as int) =~= old(s)@ + dec_digits(v as int));
        }
    }
}

/// Appends the JSON escape of `t`.
fn push_escaped(s: &mut String, t: &str)
    ensures
        final(s)@ == old(s)@ + escaped(t@),
{
    let n = t.unicode_len();
    let mut i: usize = 0;
    while i < n
        invariant
            i <= n,
            n == t@.len(),
            s@ == old(s)@ + escaped(t@.take(i as int)),
        decreases n - i,
    {
        proof {
            assert(t@.take(i + 1).drop_last() =~= t@.take(i as int));
            assert(t@.take(i + 1).last() == t@[i as int]);
        }
        let c = t.get_char(i);
        if c == '"' {
            s.append("\\\"");
        } else if c == '\\' {
            s.append("\\\\");
        } else if c == '\u{8}' {
            s.append("\\b");
        } else if c == '\t' {
            s.append("\\t");
        } else if c == '\n' {
            s.append("\\n");
        } else if c == '\u{c}' {
            s.append("\\f");
        } else if c == '\r' {
            s.append("\\r");
        } else {
            let code: u32 = c as u32;
            if code < 32 {
                s.append("\\u00");
                push_hex_digit(s, code / 16);
                push_hex_digit(s, code % 16);
                proof {
                    assert(escaped_char(c) =~= "\\u00"@ + seq![
                        hex_char(code as int / 16),
                        hex_char(code as int % 16),
                    ]);
                }
            } else {
                s.push(c);
                proof {
                    assert(escaped_char(c) =~= seq![c]);
                }
            }
        }
        proof {
            assert(s@ =~= old(s)@ + (escaped(t@.take(i as int)) + escaped_char(t@[i as int])));
            assert(s@ =~= old(s)@ + escaped(t@.take(i + 1)));
        }
        i = i + 1;
    }
    proof {
        assert(t@.take(n as int) =~= t@);
    }
}

/// Builds the pretty-printed JSON document for `rec`.
///
/// Total: it succeeds for every record, whatever the name holds and however
/// large or negative the integers are.
pub fn render_hello(rec: &HelloRecord) -> (r: String)
    ensures
        r@ == hello_json(rec.id as int, rec.name@, rec.count as int),
{
    let mut s = String::new();
    s.append("{\n  \"id\": ");
    push_i64(&mut s, rec.id);
    s.append(",\n  \"name\": \"");
    push_escaped(&mut s, rec.name.as_str());
    s.append("\",\n  \"count\": ");
    push_i64(&mut s, rec.count);
    s.append("\n}");
    proof {
        assert(s@ =~= hello_json(rec.id as int, rec.name@, rec.count as int));
    }
    s
}

} // verus!
