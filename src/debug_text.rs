//! Debug text of reflected values.
use vstd::prelude::*;
use vstd::string::{StrSliceExecFns, StringExecFns};

use crate::reflect::{Opaque, OpaqueView};

verus! {

/// The decimal digits of `n`.
pub open spec fn decimal(n: nat) -> Seq<char>
    decreases n,
{
    if n < 10 {
        digit_text(n)
    } else {
        decimal(n / 10) + digit_text(n % 10)
    }
}

pub open spec fn digit_text(d: nat) -> Seq<char> {
    if d == 0 { "0"@ }
    else if d == 1 { "1"@ }
    else if d == 2 { "2"@ }
    else if d == 3 { "3"@ }
    else if d == 4 { "4"@ }
    else if d == 5 { "5"@ }
    else if d == 6 { "6"@ }
    else if d == 7 { "7"@ }
    else if d == 8 { "8"@ }
    else { "9"@ }
}

/// A character inside quotes `quote`, with backslash escapes for the
/// backslash, the quote, newline, carriage return, tab and NUL; every other
/// character stands as it is (so, unlike `Debug`, no `\u{...}` escapes).
pub open spec fn escape_char(c: char, quote: char) -> Seq<char> {
    if c == '\\' {
        "\\\\"@
    } else if c == quote {
        "\\"@ + seq![c]
    } else if c == '\n' {
        "\\n"@
    } else if c == '\r' {
        "\\r"@
    } else if c == '\t' {
        "\\t"@
    } else if c == '\0' {
        "\\0"@
    } else {
        seq![c]
    }
}

/// Text inside double quotes, each character escaped.
pub open spec fn escape_text(s: Seq<char>) -> Seq<char>
    decreases s.len(),
{
    if s.len() == 0 {
        Seq::empty()
    } else {
        escape_text(s.drop_last()) + escape_char(s.last(), '"')
    }
}

fn write_escaped_char(out: &mut String, c: char, quote: char)
    ensures
        final(out)@ == old(out)@ + escape_char(c, quote),
{
    if c == '\\' {
        out.append("\\\\");
    } else if c == quote {
        out.append("\\");
        out.append(char_text(c).as_str());
    } else if c == '\n' {
        out.append("\\n");
    } else if c == '\r' {
        out.append("\\r");
    } else if c == '\t' {
        out.append("\\t");
    } else if c == '\0' {
        out.append("\\0");
    } else {
        out.append(char_text(c).as_str());
    }
}

fn write_escaped_text(out: &mut String, s: &String)
    ensures
        final(out)@ == old(out)@ + escape_text(s@),
{
    let ghost start = out@;
    let n = s.as_str().unicode_len();
    let mut i: usize = 0;
    while i < n
        invariant
            n == s@.len(),
            i <= n,
            out@ == start + escape_text(s@.subrange(0, i as int)),
        decreases n - i,
    {
        let c = s.as_str().get_char(i);
        write_escaped_char(out, c, '"');
        proof {
            let p = s@.subrange(0, i + 1);
            assert(p.drop_last() =~= s@.subrange(0, i as int));
            assert(out@ =~= start + escape_text(p));
        }
        i += 1;
    }
    assert(s@.subrange(0, n as int) =~= s@);
}

/// The debug text of opaque data: `true`/`false`, a decimal number, a
/// quoted and escaped character, or quoted and escaped text.
pub open spec fn opaque_debug(v: OpaqueView) -> Seq<char> {
    match v {
        OpaqueView::Bool(b) => if b { "true"@ } else { "false"@ },
        OpaqueView::UInt(u) => decimal(u as nat),
        OpaqueView::Int(i) => if i < 0 { "-"@ + decimal((-i) as nat) } else { decimal(i as nat) },
        OpaqueView::Char(c) => "'"@ + escape_char(c, '\'') + "'"@,
        OpaqueView::Text(s) => "\""@ + escape_text(s) + "\""@,
    }
}

/// Texts separated by `, `.
pub open spec fn debug_join(items: Seq<Seq<char>>) -> Seq<char>
    decreases items.len(),
{
    if items.len() == 0 {
        Seq::empty()
    } else if items.len() == 1 {
        items[0]
    } else {
        debug_join(items.drop_last()) + ", "@ + items.last()
    }
}

/// Relies on `char::to_string`: the string of that one character.
#[verifier::external_body]
pub(crate) fn char_text(c: char) -> (r: String)
    ensures
        r@ == seq![c],
{
    c.to_string()
}

fn write_digit(out: &mut String, d: u64)
    requires
        d < 10,
    ensures
        final(out)@ == old(out)@ + digit_text(d as nat),
{
    if d == 0 { out.append("0") }
    else if d == 1 { out.append("1") }
    else if d == 2 { out.append("2") }
    else if d == 3 { out.append("3") }
    else if d == 4 { out.append("4") }
    else if d == 5 { out.append("5") }
    else if d == 6 { out.append("6") }
    else if d == 7 { out.append("7") }
    else if d == 8 { out.append("8") }
    else { out.append("9") }
}

/// Appends the decimal digits of `n`.
pub fn write_decimal(out: &mut String, n: u64)
    ensures
        final(out)@ == old(out)@ + decimal(n as nat),
    decreases n,
{
    if n < 10 {
        write_digit(out, n);
    } else {
        write_decimal(out, n / 10);
        write_digit(out, n % 10);
        assert(final(out)@ =~= old(out)@ + decimal(n as nat));
    }
}

/// Appends the debug text of `v` (see [`opaque_debug`]).
pub fn write_opaque(out: &mut String, v: &Opaque)
    ensures
        final(out)@ == old(out)@ + opaque_debug(v@),
{
    match v {
        Opaque::Bool(b) => {
            if *b {
                out.append("true");
            } else {
                out.append("false");
            }
        },
        Opaque::UInt(u) => write_decimal(out, *u),
        Opaque::Int(i) => {
            if *i < 0 {
                out.append("-");
                let m: u64 = (-(*i as i128)) as u64;
                write_decimal(out, m);
                assert(final(out)@ =~= old(out)@ + opaque_debug(v@));
            } else {
                write_decimal(out, *i as u64);
            }
        },
        Opaque::Char(c) => {
            out.append("'");
            write_escaped_char(out, *c, '\'');
            out.append("'");
            assert(final(out)@ =~= old(out)@ + opaque_debug(v@));
        },
        Opaque::Text(s) => {
            out.append("\"");
            write_escaped_text(out, s);
            out.append("\"");
            assert(final(out)@ =~= old(out)@ + opaque_debug(v@));
        },
    }
}

} // verus!
