//! JSON text production for the response envelope: decimal rendering of the
//! status code and escaping of the body text, each pinned to a spec-level
//! description of the encoded character sequence.

use vstd::prelude::*;
use vstd::string::StringExecFns;
use vstd::string::StrSliceExecFns;

verus! {

/// The character standing for one digit value below sixteen, lower case.
pub open spec fn digit_char(d: nat) -> char {
    if d == 0 {
        '0'
    } else if d == 1 {
        '1'
    } else if d == 2 {
        '2'
    } else if d == 3 {
        '3'
    } else if d == 4 {
        '4'
    } else if d == 5 {
        '5'
    } else if d == 6 {
        '6'
    } else if d == 7 {
        '7'
    } else if d == 8 {
        '8'
    } else if d == 9 {
        '9'
    } else if d == 10 {
        'a'
    } else if d == 11 {
        'b'
    } else if d == 12 {
        'c'
    } else if d == 13 {
        'd'
    } else if d == 14 {
        'e'
    } else {
        'f'
    }
}

/// The decimal rendering of a number: most significant digit first, no sign,
/// no leading zeros except for the number zero itself.
pub open spec fn dec_str(n: nat) -> Seq<char>
    decreases n,
{
    if n < 10 {
        seq![digit_char(n % 10)]
    } else {
        dec_str(n / 10) + seq![digit_char(n % 10)]
    }
}

fn digit_char_exec(d: u32) -> (c: char)
    requires
        d < 16,
    ensures
        c == digit_char(d as nat),
{
    if d == 0 {
        '0'
    } else if d == 1 {
        '1'
    } else if d == 2 {
        '2'
    } else if d == 3 {
        '3'
    } else if d == 4 {
        '4'
    } else if d == 5 {
        '5'
    } else if d == 6 {
        '6'
    } else if d == 7 {
        '7'
    } else if d == 8 {
        '8'
    } else if d == 9 {
        '9'
    } else if d == 10 {
        'a'
    } else if d == 11 {
        'b'
    } else if d == 12 {
        'c'
    } else if d == 13 {
        'd'
    } else if d == 14 {
        'e'
    } else {
        'f'
    }
}

/// Relies on `String::push`: appends exactly the one character at the end.
#[verifier::external_body]
fn push_char(s: &mut String, c: char)
    ensures
        final(s)@ == old(s)@.push(c),
{
    s.push(c);
}

fn push_u16_decimal(out: &mut String, n: u16)
    ensures
        final(out)@ == old(out)@ + dec_str(n as nat),
    decreases n,
{
    if n >= 10 {
        push_u16_decimal(out, n / 10);
    }
    let d = digit_char_exec((n % 10) as u32);
    push_char(out, d);
    proof {
        if n < 10 {
            assert(old(out)@.push(d) =~= old(out)@ + dec_str(n as nat));
        } else {
            assert((old(out)@ + dec_str((n / 10) as nat)).push(d) =~= old(out)@ + dec_str(
                n as nat,
            ));
        }
    }
}

/// How one character appears inside a JSON string literal: the quote, the
/// backslash and the control characters are escaped the way serde_json writes
/// them (named escapes where JSON has one, `\u00` plus two lower-case hex
/// digits otherwise); every other character stands for itself.
pub open spec fn escape_char(c: char) -> Seq<char> {
    if c == '"' {
        seq!['\\', '"']
    } else if c == '\\' {
        seq!['\\', '\\']
    } else if c == '\u{08}' {
        seq!['\\', 'b']
    } else if c == '\t' {
        seq!['\\', 't']
    } else if c == '\n' {
        seq!['\\', 'n']
    } else if c == '\u{0C}' {
        seq!['\\', 'f']
    } else if c == '\r' {
        seq!['\\', 'r']
    } else if (c as u32) < 32 {
        seq!['\\', 'u', '0', '0', digit_char(((c as u32) / 16) as nat), digit_char(
            ((c as u32) % 16) as nat,
        )]
    } else {
        seq![c]
    }
}

/// The body of a JSON string literal holding the given text: each character
/// escaped, in order.
pub open spec fn escape_string(s: Seq<char>) -> Seq<char>
    decreases s.len(),
{
    if s.len() == 0 {
        Seq::empty()
    } else {
        escape_string(s.drop_last()) + escape_char(s.last())
    }
}

fn escape_text(text: &str) -> (out: String)
    ensures
        out@ == escape_string(text@),
{
    let n = text.unicode_len();
    let mut out = String::new();
    let mut i: usize = 0;
    while i < n
        invariant
            n == text@.len(),
            i <= n,
            out@ == escape_string(text@.take(i as int)),
        decreases n - i,
    {
        let ghost prev = out@;
        let c = text.get_char(i);
        if c == '"' {
            push_char(&mut out, '\\');
            push_char(&mut out, '"');
        } else if c == '\\' {
            push_char(&mut out, '\\');
            push_char(&mut out, '\\');
        } else if c == '\u{08}' {
            push_char(&mut out, '\\');
            push_char(&mut out, 'b');
        } else if c == '\t' {
            push_char(&mut out, '\\');
            push_char(&mut out, 't');
        } else if c == '\n' {
            push_char(&mut out, '\\');
            push_char(&mut out, 'n');
        } else if c == '\u{0C}' {
            push_char(&mut out, '\\');
            push_char(&mut out, 'f');
        } else if c == '\r' {
            push_char(&mut out, '\\');
            push_char(&mut out, 'r');
        } else if (c as u32) < 32 {
            let code: u32 = c as u32;
            push_char(&mut out, '\\');
            push_char(&mut out, 'u');
            push_char(&mut out, '0');
            push_char(&mut out, '0');
            let hi = digit_char_exec(code / 16);
            let lo = digit_char_exec(code % 16);
            push_char(&mut out, hi);
            push_char(&mut out, lo);
        } else {
            push_char(&mut out, c);
        }
        proof {
            assert(out@ =~= prev + escape_char(text@[i as int]));
            assert(text@.take(i as int + 1).drop_last() =~= text@.take(i as int));
            assert(text@.take(i as int + 1).last() == text@[i as int]);
        }
        i = i + 1;
    }
    proof {
        assert(text@.take(n as int) =~= text@);
    }
    out
}

/// The JSON text of a response envelope: a two-field object whose `status`
/// member is the decimal status code and whose `text` member is the body text
/// as a JSON string literal.
pub open spec fn envelope_json(status: u16, text: Seq<char>) -> Seq<char> {
    "{\"status\":"@ + dec_str(status as nat) + ",\"text\":\""@ + escape_string(text) + "\"}"@
}

/// Serializes an envelope to its JSON text. Encoding two plain fields cannot
/// fail, so there is no fallback reply: every call returns the real envelope.
pub fn envelope_to_json(status: u16, text: &str) -> (out: String)
    ensures
        out@ == envelope_json(status, text@),
{
    let mut out = String::from_str("{\"status\":");
    push_u16_decimal(&mut out, status);
    out.append(",\"text\":\"");
    let escaped = escape_text(text);
    out.append(escaped.as_str());
    out.append("\"}");
    proof {
        assert(out@ =~= envelope_json(status, text@));
    }
    out
}

} // verus!
