//! Rendering a response as its one line of output.
//!
//! The wire format is fixed here, character by character: a JSON object
//! with `id` first (when the request yielded one), then `entity_id` or
//! `err` as the outcome demands. In an echoed string, `"` and `\` are
//! escaped with a backslash, newline, carriage return and tab get their
//! short escapes, any other control character becomes `\u00XX`, and every
//! remaining character stands as itself — so a response is always one
//! line of valid JSON, whatever the request's `id` held.

use vstd::prelude::*;
use crate::protocol::Response;

verus! {

/// The character for the hexadecimal digit `d`, lower case.
pub open spec fn hex_char(d: nat) -> char {
    if d < 10 {
        digit_char(d)
    } else if d == 10 {
        'a'
    } else if d == 11 {
        'b'
    } else if d == 12 {
        'c'
    } else if d == 13 {
        'd'
    } else if d == 14 {
        'e'
    } else {
        'f'
    }
}

/// One character of an echoed string, escaped as a JSON string literal
/// demands: `"` and `\` get a backslash, the common control characters
/// their short escapes, the rest of the control range `\u00XX`, and
/// everything else stands as itself.
pub open spec fn escape_char(c: char) -> Seq<char> {
    if c == '"' {
        seq!['\\', '"']
    } else if c == '\\' {
        seq!['\\', '\\']
    } else if c == '\n' {
        seq!['\\', 'n']
    } else if c == '\r' {
        seq!['\\', 'r']
    } else if c == '\t' {
        seq!['\\', 't']
    } else if (c as nat) < 32 {
        seq!['\\', 'u', '0', '0', hex_char((c as nat) / 16), hex_char((c as nat) % 16)]
    } else {
        seq![c]
    }
}

/// A whole echoed string, escaped character by character.
pub open spec fn escape_str(s: Seq<char>) -> Seq<char>
    decreases s.len(),
{
    if s.len() == 0 {
        Seq::empty()
    } else {
        escape_str(s.drop_last()) + escape_char(s.last())
    }
}

/// The decimal digit character for `d`.
pub open spec fn digit_char(d: nat) -> char {
    if d == 0 {
        '0'
    } else if d == 1 {
        '1'
    } else if d == 2 {
        '2'
    } else if d == 3 {
        '3'
    } else if d == 4 {
        '4'
    } else if d == 5 {
        '5'
    } else if d == 6 {
        '6'
    } else if d == 7 {
        '7'
    } else if d == 8 {
        '8'
    } else {
        '9'
    }
}

/// The decimal digits of `n`, most significant first, no leading zeros.
pub open spec fn u64_digits(n: nat) -> Seq<char>
    decreases n,
{
    if n < 10 {
        seq![digit_char(n)]
    } else {
        u64_digits(n / 10).push(digit_char(n % 10))
    }
}

/// The exact line of output for a response.
pub open spec fn spec_response_line(r: Response) -> Seq<char> {
    match r {
        Response::Spawned { id, entity_id } => "{\"id\":\""@ + escape_str(id@)
            + "\",\"entity_id\":"@ + u64_digits(entity_id as nat) + "}"@,
        Response::Done { id } => "{\"id\":\""@ + escape_str(id@) + "\"}"@,
        Response::Failed { id: Some(id), err } => "{\"id\":\""@ + escape_str(id@) + "\",\"err\":\""@
            + escape_str(err@) + "\"}"@,
        Response::Failed { id: None, err } => "{\"err\":\""@ + escape_str(err@) + "\"}"@,
    }
}

/// Appends `s`, escaped, to `out`.
#[verifier::loop_isolation(false)]
fn append_escaped(out: &mut String, s: &str)
    ensures
        final(out)@ == old(out)@ + escape_str(s@),
{
    let n = s.unicode_len();
    let mut i: usize = 0;
    proof {
        assert(s@.subrange(0, 0) =~= Seq::<char>::empty());
        assert(out@ =~= old(out)@ + escape_str(s@.subrange(0, 0)));
    }
    while i < n
        invariant
            0 <= i <= n,
            out@ == old(out)@ + escape_str(s@.subrange(0, i as int)),
        decreases n - i,
    {
        let c = s.get_char(i);
        proof {
            assert(s@.subrange(0, i + 1).drop_last() =~= s@.subrange(0, i as int));
            assert(s@.subrange(0, i + 1).last() == s@[i as int]);
        }
        if c == '"' {
            out.append("\\\"");
            proof {
                reveal_strlit("\\\"");
                assert("\\\""@ =~= escape_char(c));
            }
        } else if c == '\\' {
            out.append("\\\\");
            proof {
                reveal_strlit("\\\\");
                assert("\\\\"@ =~= escape_char(c));
            }
        } else if c == '\n' {
            out.append("\\n");
            proof {
                reveal_strlit("\\n");
                assert("\\n"@ =~= escape_char(c));
            }
        } else if c == '\r' {
            out.append("\\r");
            proof {
                reveal_strlit("\\r");
                assert("\\r"@ =~= escape_char(c));
            }
        } else if c == '\t' {
            out.append("\\t");
            proof {
                reveal_strlit("\\t");
                assert("\\t"@ =~= escape_char(c));
            }
        } else if (c as u32) < 32 {
            out.append("\\u00");
            let d = c as u32;
            append_hex_digit(out, (d / 16) as u64);
            append_hex_digit(out, (d % 16) as u64);
            proof {
                reveal_strlit("\\u00");
                assert(((d / 16) as u64) as nat == (c as nat) / 16);
                assert(((d % 16) as u64) as nat == (c as nat) % 16);
                assert("\\u00"@ + seq![hex_char((c as nat) / 16)] + seq![
                    hex_char((c as nat) % 16),
                ] =~= escape_char(c));
            }
        } else {
            let piece = s.substring_char(i, i + 1);
            out.append(piece);
            proof {
                assert(piece@ =~= escape_char(c));
            }
        }
        proof {
            assert(out@ =~= old(out)@ + escape_str(s@.subrange(0, i + 1)));
        }
        i = i + 1;
    }
    proof {
        assert(s@.subrange(0, n as int) =~= s@);
    }
}

/// Appends the one digit character for `d`.
fn append_digit(out: &mut String, d: u64)
    requires
        d < 10,
    ensures
        final(out)@ == old(out)@ + seq![digit_char(d as nat)],
{
    proof {
        reveal_strlit("0");
        reveal_strlit("1");
        reveal_strlit("2");
        reveal_strlit("3");
        reveal_strlit("4");
        reveal_strlit("5");
        reveal_strlit("6");
        reveal_strlit("7");
        reveal_strlit("8");
        reveal_strlit("9");
    }
    if d == 0 {
        out.append("0");
    } else if d == 1 {
        out.append("1");
    } else if d == 2 {
        out.append("2");
    } else if d == 3 {
        out.append("3");
    } else if d == 4 {
        out.append("4");
    } else if d == 5 {
        out.append("5");
    } else if d == 6 {
        out.append("6");
    } else if d == 7 {
        out.append("7");
    } else if d == 8 {
        out.append("8");
    } else {
        out.append("9");
    }
    proof {
        assert(out@ =~= old(out)@ + seq![digit_char(d as nat)]);
    }
}

/// Appends the one hexadecimal digit character for `d`, lower case.
fn append_hex_digit(out: &mut String, d: u64)
    requires
        d < 16,
    ensures
        final(out)@ == old(out)@ + seq![hex_char(d as nat)],
{
    proof {
        reveal_strlit("a");
        reveal_strlit("b");
        reveal_strlit("c");
        reveal_strlit("d");
        reveal_strlit("e");
        reveal_strlit("f");
    }
    if d < 10 {
        append_digit(out, d);
    } else if d == 10 {
        out.append("a");
    } else if d == 11 {
        out.append("b");
    } else if d == 12 {
        out.append("c");
    } else if d == 13 {
        out.append("d");
    } else if d == 14 {
        out.append("e");
    } else {
        out.append("f");
    }
    proof {
        assert(out@ =~= old(out)@ + seq![hex_char(d as nat)]);
    }
}

/// Appends the decimal digits of `n`.
fn append_u64(out: &mut String, n: u64)
    ensures
        final(out)@ == old(out)@ + u64_digits(n as nat),
    decreases n,
{
    if n >= 10 {
        append_u64(out, n / 10);
        append_digit(out, n % 10);
        proof {
            assert(out@ =~= old(out)@ + u64_digits(n as nat));
        }
    } else {
        append_digit(out, n);
    }
}

/// Renders a response as exactly the line `spec_response_line` gives.
pub fn response_to_line(r: &Response) -> (s: String)
    ensures
        s@ == spec_response_line(*r),
{
    let mut out = String::new();
    match r {
        Response::Spawned { id, entity_id } => {
            out.append("{\"id\":\"");
            append_escaped(&mut out, id.as_str());
            out.append("\",\"entity_id\":");
            append_u64(&mut out, *entity_id);
            out.append("}");
        },
        Response::Done { id } => {
            out.append("{\"id\":\"");
            append_escaped(&mut out, id.as_str());
            out.append("\"}");
        },
        Response::Failed { id: Some(id), err } => {
            out.append("{\"id\":\"");
            append_escaped(&mut out, id.as_str());
            out.append("\",\"err\":\"");
            append_escaped(&mut out, err.as_str());
            out.append("\"}");
        },
        Response::Failed { id: None, err } => {
            out.append("{\"err\":\"");
            append_escaped(&mut out, err.as_str());
            out.append("\"}");
        },
    }
    proof {
        assert(out@ =~= spec_response_line(*r));
    }
    out
}

} // verus!
