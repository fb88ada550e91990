//! Decimal rendering of integers and the JSON number grammar, used when
//! framing JSON text for the wire.
use vstd::prelude::*;

verus! {

/// The character for one decimal digit.
pub open spec fn digit_char(d: nat) -> char {
    if d == 0 {
        '0'
    } else if d == 1 {
        '1'
    } else if d == 2 {
        '2'
    } else if d == 3 {
        '3'
    } else if d == 4 {
        '4'
    } else if d == 5 {
        '5'
    } else if d == 6 {
        '6'
    } else if d == 7 {
        '7'
    } else if d == 8 {
        '8'
    } else {
        '9'
    }
}

/// Decimal digit sequence of a natural number, most significant first.
pub open spec fn dec_digits(n: nat) -> Seq<char>
    decreases n,
{
    if n < 10 {
        seq![digit_char(n)]
    } else {
        dec_digits(n / 10).push(digit_char(n % 10))
    }
}

/// Decimal rendering of an integer, with a leading `-` when negative.
pub open spec fn dec_int(n: int) -> Seq<char> {
    if n < 0 {
        seq!['-'] + dec_digits((-n) as nat)
    } else {
        dec_digits(n as nat)
    }
}

/// Runtime digit character.
pub fn digit_char_exec(d: u64) -> (r: char)
    requires
        d < 10,
    ensures
        r == digit_char(d as nat),
{
    if d == 0 {
        '0'
    } else if d == 1 {
        '1'
    } else if d == 2 {
        '2'
    } else if d == 3 {
        '3'
    } else if d == 4 {
        '4'
    } else if d == 5 {
        '5'
    } else if d == 6 {
        '6'
    } else if d == 7 {
        '7'
    } else if d == 8 {
        '8'
    } else {
        '9'
    }
}

/// Appends the decimal digits of `n` to `out`.
pub fn push_dec_u64(out: &mut Vec<char>, n: u64)
    ensures
        final(out)@ == old(out)@ + dec_digits(n as nat),
    decreases n,
{
    if n < 10 {
        out.push(digit_char_exec(n));
        proof {
            assert(old(out)@ + dec_digits(n as nat) =~= old(out)@.push(digit_char(n as nat)));
        }
    } else {
        push_dec_u64(out, n / 10);
        out.push(digit_char_exec(n % 10));
    }
}

/// Appends the decimal rendering of `n` to `out`, sign included.
pub fn push_dec_i64(out: &mut Vec<char>, n: i64)
    ensures
        final(out)@ == old(out)@ + dec_int(n as int),
{
    if n < 0 {
        out.push('-');
        let m: u64 = ((-(n + 1)) as u64) + 1;
        proof {
            assert(m as nat == (-(n as int)) as nat);
        }
        push_dec_u64(out, m);
        proof {
            assert(old(out)@.push('-') + dec_digits(m as nat) =~= old(out)@ + (seq!['-']
                + dec_digits(m as nat)));
        }
    } else {
        push_dec_u64(out, n as u64);
    }
}

/// The decimal string of an unsigned number.
pub fn u64_to_string(n: u64) -> (r: String)
    ensures
        r@ == dec_digits(n as nat),
{
    let mut v: Vec<char> = Vec::new();
    push_dec_u64(&mut v, n);
    proof {
        assert(Seq::<char>::empty() + dec_digits(n as nat) =~= dec_digits(n as nat));
    }
    crate::chars::chars_to_string(&v)
}

/// The decimal string of a signed number.
pub fn i64_to_string(n: i64) -> (r: String)
    ensures
        r@ == dec_int(n as int),
{
    let mut v: Vec<char> = Vec::new();
    push_dec_i64(&mut v, n);
    proof {
        assert(Seq::<char>::empty() + dec_int(n as int) =~= dec_int(n as int));
    }
    crate::chars::chars_to_string(&v)
}

/// A decimal digit.
pub open spec fn is_digit(c: char) -> bool {
    '0' as u32 <= c as u32 && c as u32 <= '9' as u32
}

/// First index at or after `i` that does not hold a digit; `s.len()` if all
/// later characters are digits.
pub open spec fn skip_digits(s: Seq<char>, i: int) -> int
    decreases s.len() - i,
    when 0 <= i
{
    if i >= s.len() {
        s.len() as int
    } else if is_digit(s[i]) {
        skip_digits(s, i + 1)
    } else {
        i
    }
}

/// End of the optional fraction part starting at `i`; `-1` if a `.` stands
/// there without a following digit.
pub open spec fn after_fraction(s: Seq<char>, i: int) -> int {
    if i < s.len() && s[i] == '.' {
        if i + 1 < s.len() && is_digit(s[i + 1]) {
            skip_digits(s, i + 2)
        } else {
            -1
        }
    } else {
        i
    }
}

/// End of the optional exponent part starting at `i`; `-1` if an `e`/`E`
/// stands there without a well-formed exponent.
pub open spec fn after_exponent(s: Seq<char>, i: int) -> int {
    if i < s.len() && (s[i] == 'e' || s[i] == 'E') {
        let j = if i + 1 < s.len() && (s[i + 1] == '+' || s[i + 1] == '-') {
            i + 2
        } else {
            i + 1
        };
        if j < s.len() && is_digit(s[j]) {
            skip_digits(s, j + 1)
        } else {
            -1
        }
    } else {
        i
    }
}

/// The JSON number grammar: optional minus, an integer part with no
/// superfluous leading zero, an optional fraction, an optional exponent.
pub open spec fn is_json_number(s: Seq<char>) -> bool {
    let i0: int = if s.len() > 0 && s[0] == '-' {
        1
    } else {
        0
    };
    &&& i0 < s.len()
    &&& is_digit(s[i0])
    &&& {
        let i1 = if s[i0] == '0' {
            i0 + 1
        } else {
            skip_digits(s, i0 + 1)
        };
        let i2 = after_fraction(s, i1);
        &&& i2 >= 0
        &&& {
            let i3 = after_exponent(s, i2);
            i3 == s.len()
        }
    }
}

proof fn lemma_skip_digits_bounds(s: Seq<char>, i: int)
    requires
        0 <= i <= s.len(),
    ensures
        i <= skip_digits(s, i) <= s.len(),
    decreases s.len() - i,
{
    if i < s.len() && is_digit(s[i]) {
        lemma_skip_digits_bounds(s, i + 1);
    }
}

#[verifier::loop_isolation(false)]
fn skip_digits_exec(v: &Vec<char>, start: usize) -> (r: usize)
    requires
        start <= v@.len(),
    ensures
        r as int == skip_digits(v@, start as int),
        start <= r <= v@.len(),
{
    let n = v.len();
    let mut i = start;
    while i < n
        invariant
            start <= i <= n,
            skip_digits(v@, start as int) == skip_digits(v@, i as int),
        decreases n - i,
    {
        let u = v[i] as u32;
        if !(0x30 <= u && u <= 0x39) {
            proof {
                assert(!is_digit(v@[i as int]));
            }
            return i;
        }
        i = i + 1;
    }
    i
}

/// Runtime test for the JSON number grammar.
#[verifier::loop_isolation(false)]
pub fn is_json_number_exec(v: &Vec<char>) -> (r: bool)
    ensures
        r == is_json_number(v@),
{
    let n = v.len();
    let mut i0: usize = 0;
    if n > 0 && v[0] == '-' {
        i0 = 1;
    }
    if i0 >= n {
        return false;
    }
    let c0 = v[i0] as u32;
    if !(0x30 <= c0 && c0 <= 0x39) {
        return false;
    }
    let i1: usize = if v[i0] == '0' {
        i0 + 1
    } else {
        skip_digits_exec(v, i0 + 1)
    };
    proof {
        lemma_skip_digits_bounds(v@, i0 + 1);
    }
    let i2: usize = if i1 < n && v[i1] == '.' {
        if i1 + 1 < n {
            let cf = v[i1 + 1] as u32;
            if 0x30 <= cf && cf <= 0x39 {
                skip_digits_exec(v, i1 + 2)
            } else {
                return false;
            }
        } else {
            return false;
        }
    } else {
        i1
    };
    proof {
        assert(i2 as int == after_fraction(v@, i1 as int));
    }
    let i3: usize = if i2 < n && (v[i2] == 'e' || v[i2] == 'E') {
        let j: usize = if i2 + 1 < n && (v[i2 + 1] == '+' || v[i2 + 1] == '-') {
            i2 + 2
        } else {
            i2 + 1
        };
        if j < n {
            let ce = v[j] as u32;
            if 0x30 <= ce && ce <= 0x39 {
                skip_digits_exec(v, j + 1)
            } else {
                return false;
            }
        } else {
            return false;
        }
    } else {
        i2
    };
    proof {
        assert(i3 as int == after_exponent(v@, i2 as int));
    }
    i3 == n
}

} // verus!
