//! JSON text framing: string escaping as the wire expects it, written
//! character by character so the emitted bytes are pinned by the contracts.
use vstd::prelude::*;
use crate::numfmt::digit_char;

verus! {

/// Lower-case hexadecimal digit.
pub open spec fn hex_char(d: nat) -> char {
    if d < 10 {
        digit_char(d)
    } else if d == 10 {
        'a'
    } else if d == 11 {
        'b'
    } else if d == 12 {
        'c'
    } else if d == 13 {
        'd'
    } else if d == 14 {
        'e'
    } else {
        'f'
    }
}

/// How one character is written inside a JSON string.
pub open spec fn esc_char(c: char) -> Seq<char> {
    if c == '"' {
        seq!['\\', '"']
    } else if c == '\\' {
        seq!['\\', '\\']
    } else if c == '\u{8}' {
        seq!['\\', 'b']
    } else if c == '\u{c}' {
        seq!['\\', 'f']
    } else if c == '\n' {
        seq!['\\', 'n']
    } else if c == '\r' {
        seq!['\\', 'r']
    } else if c == '\t' {
        seq!['\\', 't']
    } else if (c as u32) < 0x20 {
        seq!['\\', 'u', '0', '0', hex_char((c as u32 / 16) as nat), hex_char((c as u32 % 16) as nat)]
    } else {
        seq![c]
    }
}

/// The body of a JSON string holding the text `s`.
pub open spec fn json_escaped(s: Seq<char>) -> Seq<char>
    decreases s.len(),
{
    if s.len() == 0 {
        Seq::empty()
    } else {
        json_escaped(s.drop_last()) + esc_char(s.last())
    }
}

/// A complete JSON string literal holding the text `s`.
pub open spec fn json_string(s: Seq<char>) -> Seq<char> {
    seq!['"'] + json_escaped(s) + seq!['"']
}

proof fn lemma_json_escaped_snoc(s: Seq<char>, i: int)
    requires
        0 <= i < s.len(),
    ensures
        json_escaped(s.take(i + 1)) == json_escaped(s.take(i)) + esc_char(s[i]),
{
    let t = s.take(i + 1);
    assert(t.drop_last() =~= s.take(i));
    assert(t.last() == s[i]);
}

fn hex_char_exec(d: u32) -> (r: char)
    requires
        d < 16,
    ensures
        r == hex_char(d as nat),
{
    if d < 10 {
        crate::numfmt::digit_char_exec(d as u64)
    } else if d == 10 {
        'a'
    } else if d == 11 {
        'b'
    } else if d == 12 {
        'c'
    } else if d == 13 {
        'd'
    } else if d == 14 {
        'e'
    } else {
        'f'
    }
}

fn push_esc_char(out: &mut Vec<char>, c: char)
    ensures
        final(out)@ == old(out)@ + esc_char(c),
{
    let u = c as u32;
    if c == '"' {
        out.push('\\');
        out.push('"');
    } else if c == '\\' {
        out.push('\\');
        out.push('\\');
    } else if u == 0x8 {
        out.push('\\');
        out.push('b');
    } else if u == 0xC {
        out.push('\\');
        out.push('f');
    } else if c == '\n' {
        out.push('\\');
        out.push('n');
    } else if c == '\r' {
        out.push('\\');
        out.push('r');
    } else if c == '\t' {
        out.push('\\');
        out.push('t');
    } else if u < 0x20 {
        out.push('\\');
        out.push('u');
        out.push('0');
        out.push('0');
        out.push(hex_char_exec(u / 16));
        out.push(hex_char_exec(u % 16));
        proof {
            assert(old(out)@ + esc_char(c) =~= old(out)@.push('\\').push('u').push('0').push(
                '0',
            ).push(hex_char((c as u32 / 16) as nat)).push(hex_char((c as u32 % 16) as nat)));
        }
    } else {
        out.push(c);
        proof {
            assert(old(out)@ + esc_char(c) =~= old(out)@.push(c));
        }
    }
    proof {
        if (c == '"' || c == '\\' || u == 0x8 || u == 0xC || c == '\n' || c == '\r' || c == '\t') {
            assert(final(out)@ =~= old(out)@ + esc_char(c));
        }
    }
}

/// Appends a complete JSON string literal holding the text of `s`.
#[verifier::loop_isolation(false)]
pub fn push_json_str(out: &mut Vec<char>, s: &str)
    ensures
        final(out)@ == old(out)@ + json_string(s@),
{
    let v = crate::chars::str_to_chars(s);
    out.push('"');
    let ghost mid0 = out@;
    let n = v.len();
    let mut i: usize = 0;
    while i < n
        invariant
            n == v@.len(),
            i <= n,
            out@ == mid0 + json_escaped(v@.take(i as int)),
        decreases n - i,
    {
        push_esc_char(out, v[i]);
        i = i + 1;
        proof {
            lemma_json_escaped_snoc(v@, i - 1);
        }
    }
    out.push('"');
    proof {
        assert(v@.take(n as int) =~= s@);
        assert(final(out)@ =~= old(out)@ + json_string(s@));
    }
}

/// Appends either a JSON string holding `s`'s text or `null`.
pub fn push_json_opt_str(out: &mut Vec<char>, s: &Option<String>)
    ensures
        final(out)@ == old(out)@ + (match s {
            Some(t) => json_string(t@),
            None => seq!['n', 'u', 'l', 'l'],
        }),
{
    match s {
        Some(t) => {
            push_json_str(out, t.as_str());
        },
        None => {
            crate::chars::push_chars(out, "null");
            proof {
                reveal_strlit("null");
                assert(old(out)@ + "null"@ =~= old(out)@ + seq!['n', 'u', 'l', 'l']);
            }
        },
    }
}

/// Appends the text as a JSON number when it fits the grammar, else `null`:
/// a numeric field rendered upstream is passed through unquoted only when it
/// frames correctly.
pub fn push_json_number_or_null(out: &mut Vec<char>, s: &str)
    ensures
        final(out)@ == old(out)@ + (if crate::numfmt::is_json_number(s@) {
            s@
        } else {
            seq!['n', 'u', 'l', 'l']
        }),
{
    let v = crate::chars::str_to_chars(s);
    if crate::numfmt::is_json_number_exec(&v) {
        crate::chars::push_chars(out, s);
    } else {
        crate::chars::push_chars(out, "null");
        proof {
            reveal_strlit("null");
            assert(old(out)@ + "null"@ =~= old(out)@ + seq!['n', 'u', 'l', 'l']);
        }
    }
}

} // verus!
