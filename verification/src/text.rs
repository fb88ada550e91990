//! Plain-text preparation for model consumption: stripping math markup
//! delimiters (`$...$` and `$$...$$`), whitespace trimming, and substring
//! search used by error classification.
use vstd::prelude::*;

verus! {

/// The Unicode whitespace characters, as `str::trim` understands them.
pub open spec fn is_space(c: char) -> bool {
    let u = c as u32;
    ||| u == 0x20
    ||| (0x09 <= u && u <= 0x0D)
    ||| u == 0x85
    ||| u == 0xA0
    ||| u == 0x1680
    ||| (0x2000 <= u && u <= 0x200A)
    ||| u == 0x2028
    ||| u == 0x2029
    ||| u == 0x202F
    ||| u == 0x205F
    ||| u == 0x3000
}

/// Runtime test for `is_space`.
pub fn is_space_char(c: char) -> (r: bool)
    ensures
        r == is_space(c),
{
    let u = c as u32;
    u == 0x20 || (0x09 <= u && u <= 0x0D) || u == 0x85 || u == 0xA0 || u == 0x1680 || (0x2000 <= u
        && u <= 0x200A) || u == 0x2028 || u == 0x2029 || u == 0x202F || u == 0x205F || u == 0x3000
}

/// Index of the first `$$` pair at or after `i`, if any.
pub open spec fn find_double(s: Seq<char>, i: int) -> Option<int>
    decreases s.len() - i,
    when 0 <= i
{
    if i + 1 >= s.len() {
        None
    } else if s[i] == '$' && s[i + 1] == '$' {
        Some(i)
    } else {
        find_double(s, i + 1)
    }
}

/// Index of the first `$` at or after `i`, if any.
pub open spec fn find_single(s: Seq<char>, i: int) -> Option<int>
    decreases s.len() - i,
    when 0 <= i
{
    if i >= s.len() {
        None
    } else if s[i] == '$' {
        Some(i)
    } else {
        find_single(s, i + 1)
    }
}

pub proof fn lemma_find_double_bounds(s: Seq<char>, i: int, k: int)
    requires
        0 <= i,
        find_double(s, i) == Some(k),
    ensures
        i <= k,
        k + 1 < s.len(),
        s[k] == '$' && s[k + 1] == '$',
    decreases s.len() - i,
{
    if i + 1 >= s.len() {
    } else if s[i] == '$' && s[i + 1] == '$' {
    } else {
        lemma_find_double_bounds(s, i + 1, k);
    }
}

pub proof fn lemma_find_single_bounds(s: Seq<char>, i: int, k: int)
    requires
        0 <= i,
        find_single(s, i) == Some(k),
    ensures
        i <= k,
        k < s.len(),
        s[k] == '$',
    decreases s.len() - i,
{
    if i >= s.len() {
    } else if s[i] == '$' {
    } else {
        lemma_find_single_bounds(s, i + 1, k);
    }
}

/// Display-math removal from position `i` on: each `$$...$$` span (inner part
/// chosen as short as possible) is replaced by its inner text; an unclosed
/// `$$` stays as it is.
pub open spec fn strip_display_from(s: Seq<char>, i: int) -> Seq<char>
    decreases s.len() - i,
    when 0 <= i
    via strip_display_from_decreases
{
    if i >= s.len() {
        Seq::empty()
    } else if i + 1 < s.len() && s[i] == '$' && s[i + 1] == '$' && !(find_double(s, i + 2)
        is None) {
        match find_double(s, i + 2) {
            Some(k) => s.subrange(i + 2, k) + strip_display_from(s, k + 2),
            None => Seq::empty(),
        }
    } else {
        seq![s[i]] + strip_display_from(s, i + 1)
    }
}

#[via_fn]
proof fn strip_display_from_decreases(s: Seq<char>, i: int) {
    if i < s.len() && i + 1 < s.len() && s[i] == '$' && s[i + 1] == '$' {
        match find_double(s, i + 2) {
            Some(k) => lemma_find_double_bounds(s, i + 2, k),
            None => {},
        }
    }
}

/// Inline-math removal from position `i` on: each `$...$` span with a
/// non-empty inner text free of `$` is replaced by that inner text.
pub open spec fn strip_inline_from(s: Seq<char>, i: int) -> Seq<char>
    decreases s.len() - i,
    when 0 <= i
    via strip_inline_from_decreases
{
    if i >= s.len() {
        Seq::empty()
    } else if s[i] == '$' && (match find_single(s, i + 1) {
        Some(k) => k > i + 1,
        None => false,
    }) {
        match find_single(s, i + 1) {
            Some(k) => s.subrange(i + 1, k) + strip_inline_from(s, k + 1),
            None => Seq::empty(),
        }
    } else {
        seq![s[i]] + strip_inline_from(s, i + 1)
    }
}

#[via_fn]
proof fn strip_inline_from_decreases(s: Seq<char>, i: int) {
    if 0 <= i && i < s.len() && s[i] == '$' {
        match find_single(s, i + 1) {
            Some(k) => lemma_find_single_bounds(s, i + 1, k),
            None => {},
        }
    }
}

/// First index at or after `i` holding a non-whitespace character; `s.len()`
/// if there is none.
pub open spec fn scan_non_space(s: Seq<char>, i: int) -> int
    decreases s.len() - i,
    when 0 <= i
{
    if i >= s.len() {
        s.len() as int
    } else if is_space(s[i]) {
        scan_non_space(s, i + 1)
    } else {
        i
    }
}

/// End (exclusive) of the text once trailing whitespace before `j` is
/// dropped; `0` if only whitespace stands before `j`.
pub open spec fn scan_back_non_space(s: Seq<char>, j: int) -> int
    decreases j,
    when j <= s.len()
{
    if j <= 0 {
        0
    } else if is_space(s[j - 1]) {
        scan_back_non_space(s, j - 1)
    } else {
        j
    }
}

/// Whitespace trimming at both ends, as `str::trim` does it.
pub open spec fn trim_spec(s: Seq<char>) -> Seq<char> {
    let a = scan_non_space(s, 0);
    let b = scan_back_non_space(s, s.len() as int);
    if a < b {
        s.subrange(a, b)
    } else {
        Seq::empty()
    }
}

/// The adapter's markup stripping: display spans first, inline spans on the
/// result, then a trim of the whole.
pub open spec fn spec_strip_mathjax(s: Seq<char>) -> Seq<char> {
    trim_spec(strip_inline_from(strip_display_from(s, 0), 0))
}

fn find_double_exec(v: &Vec<char>, start: usize) -> (r: Option<usize>)
    ensures
        match r {
            Some(k) => find_double(v@, start as int) == Some(k as int),
            None => find_double(v@, start as int) is None,
        },
{
    let n = v.len();
    let mut i = start;
    while n > 0 && i < n - 1
        invariant
            n == v@.len(),
            start <= i,
            find_double(v@, start as int) == find_double(v@, i as int),
        decreases n - i,
    {
        if v[i] == '$' && v[i + 1] == '$' {
            return Some(i);
        }
        i = i + 1;
    }
    None
}

fn find_single_exec(v: &Vec<char>, start: usize) -> (r: Option<usize>)
    ensures
        match r {
            Some(k) => find_single(v@, start as int) == Some(k as int),
            None => find_single(v@, start as int) is None,
        },
{
    let n = v.len();
    let mut i = start;
    while i < n
        invariant
            n == v@.len(),
            start <= i,
            find_single(v@, start as int) == find_single(v@, i as int),
        decreases n - i,
    {
        if v[i] == '$' {
            return Some(i);
        }
        i = i + 1;
    }
    None
}

#[verifier::loop_isolation(false)]
fn strip_display(v: &Vec<char>) -> (r: Vec<char>)
    ensures
        r@ == strip_display_from(v@, 0),
{
    let n = v.len();
    let mut out: Vec<char> = Vec::new();
    let mut i: usize = 0;
    while i < n
        invariant
            n == v@.len(),
            i <= n,
            strip_display_from(v@, 0) == out@ + strip_display_from(v@, i as int),
        decreases n - i,
    {
        if i + 1 < n && v[i] == '$' && v[i + 1] == '$' {
            match find_double_exec(v, i + 2) {
                Some(k) => {
                    proof {
                        lemma_find_double_bounds(v@, i + 2, k as int);
                    }
                    let ghost out0 = out@;
                    let ghost i0 = i as int;
                    proof {
                        assert(out@ =~= out0 + v@.subrange(i0 + 2, i0 + 2));
                    }
                    let mut j = i + 2;
                    while j < k
                        invariant
                            i0 + 2 <= j <= k,
                            k + 1 < n == v@.len(),
                            out@ == out0 + v@.subrange(i0 + 2, j as int),
                        decreases k - j,
                    {
                        out.push(v[j]);
                        j = j + 1;
                        proof {
                            assert(v@.subrange(i0 + 2, j as int) =~= v@.subrange(
                                i0 + 2,
                                j - 1,
                            ).push(v@[j - 1]));
                            assert(out0 + v@.subrange(i0 + 2, j - 1).push(v@[j - 1]) =~= (out0
                                + v@.subrange(i0 + 2, j - 1)).push(v@[j - 1]));
                        }
                    }
                    proof {
                        assert(out@ == out0 + v@.subrange(i0 + 2, k as int));
                        assert(strip_display_from(v@, i0) == v@.subrange(i0 + 2, k as int)
                            + strip_display_from(v@, k + 2));
                        assert(out0 + (v@.subrange(i0 + 2, k as int) + strip_display_from(
                            v@,
                            k + 2,
                        )) =~= (out0 + v@.subrange(i0 + 2, k as int)) + strip_display_from(
                            v@,
                            k + 2,
                        ));
                    }
                    i = k + 2;
                },
                None => {
                    proof {
                        assert(strip_display_from(v@, i as int) == seq![v@[i as int]]
                            + strip_display_from(v@, i + 1));
                        assert((out@ + seq![v@[i as int]]) + strip_display_from(v@, i + 1) =~= out@
                            + (seq![v@[i as int]] + strip_display_from(v@, i + 1)));
                    }
                    out.push(v[i]);
                    i = i + 1;
                },
            }
        } else {
            proof {
                assert(strip_display_from(v@, i as int) == seq![v@[i as int]] + strip_display_from(
                    v@,
                    i + 1,
                ));
                assert((out@ + seq![v@[i as int]]) + strip_display_from(v@, i + 1) =~= out@ + (
                seq![v@[i as int]] + strip_display_from(v@, i + 1)));
            }
            out.push(v[i]);
            i = i + 1;
        }
    }
    out
}

#[verifier::loop_isolation(false)]
fn strip_inline(v: &Vec<char>) -> (r: Vec<char>)
    ensures
        r@ == strip_inline_from(v@, 0),
{
    let n = v.len();
    let mut out: Vec<char> = Vec::new();
    let mut i: usize = 0;
    while i < n
        invariant
            n == v@.len(),
            i <= n,
            strip_inline_from(v@, 0) == out@ + strip_inline_from(v@, i as int),
        decreases n - i,
    {
        let mut matched: Option<usize> = None;
        if v[i] == '$' {
            match find_single_exec(v, i + 1) {
                Some(k) => {
                    proof {
                        lemma_find_single_bounds(v@, i + 1, k as int);
                    }
                    if k > i + 1 {
                        matched = Some(k);
                    }
                },
                None => {},
            }
        }
        match matched {
            Some(k) => {
                proof {
                    lemma_find_single_bounds(v@, i + 1, k as int);
                }
                let ghost out0 = out@;
                let ghost i0 = i as int;
                proof {
                    assert(out@ =~= out0 + v@.subrange(i0 + 1, i0 + 1));
                }
                let mut j = i + 1;
                while j < k
                    invariant
                        i0 + 1 <= j <= k,
                        k < n == v@.len(),
                        out@ == out0 + v@.subrange(i0 + 1, j as int),
                    decreases k - j,
                {
                    out.push(v[j]);
                    j = j + 1;
                    proof {
                        assert(v@.subrange(i0 + 1, j as int) =~= v@.subrange(
                            i0 + 1,
                            j - 1,
                        ).push(v@[j - 1]));
                        assert(out0 + v@.subrange(i0 + 1, j - 1).push(v@[j - 1]) =~= (out0
                            + v@.subrange(i0 + 1, j - 1)).push(v@[j - 1]));
                    }
                }
                proof {
                    assert(strip_inline_from(v@, i0) == v@.subrange(i0 + 1, k as int)
                        + strip_inline_from(v@, k + 1));
                    assert(out0 + (v@.subrange(i0 + 1, k as int) + strip_inline_from(v@, k + 1))
                        =~= (out0 + v@.subrange(i0 + 1, k as int)) + strip_inline_from(v@, k + 1));
                }
                i = k + 1;
            },
            None => {
                proof {
                    assert(strip_inline_from(v@, i as int) == seq![v@[i as int]]
                        + strip_inline_from(v@, i + 1));
                    assert((out@ + seq![v@[i as int]]) + strip_inline_from(v@, i + 1) =~= out@ + (
                    seq![v@[i as int]] + strip_inline_from(v@, i + 1)));
                }
                out.push(v[i]);
                i = i + 1;
            },
        }
    }
    out
}

#[verifier::loop_isolation(false)]
fn trim_chars(v: &Vec<char>) -> (r: Vec<char>)
    ensures
        r@ == trim_spec(v@),
{
    let n = v.len();
    let mut a: usize = 0;
    while a < n && is_space_char(v[a])
        invariant
            n == v@.len(),
            a <= n,
            scan_non_space(v@, 0) == scan_non_space(v@, a as int),
        decreases n - a,
    {
        a = a + 1;
    }
    proof {
        assert(scan_non_space(v@, a as int) == a as int);
    }
    let mut b: usize = n;
    while b > a && is_space_char(v[b - 1])
        invariant
            n == v@.len(),
            a <= b <= n,
            a == scan_non_space(v@, 0),
            a < n ==> !is_space(v@[a as int]),
            a < n ==> a < b,
            scan_back_non_space(v@, n as int) == scan_back_non_space(v@, b as int),
        decreases b,
    {
        b = b - 1;
        proof {
            if a < n && b == a {
                assert(is_space(v@[a as int]));
                assert(false);
            }
        }
    }
    proof {
        if a < n {
            assert(b > a);
            assert(!is_space(v@[b - 1]));
            assert(scan_back_non_space(v@, b as int) == b as int);
        } else {
            assert(a == n && b == n);
            lemma_scan_back_le(v@, n as int);
        }
    }
    let mut out: Vec<char> = Vec::new();
    let mut j = a;
    while j < b
        invariant
            a <= j <= b <= n == v@.len(),
            out@ == v@.subrange(a as int, j as int),
        decreases b - j,
    {
        out.push(v[j]);
        j = j + 1;
        proof {
            assert(v@.subrange(a as int, j as int) =~= v@.subrange(a as int, j - 1).push(
                v@[j - 1],
            ));
        }
    }
    proof {
        if a < b {
            assert(out@ == trim_spec(v@));
        } else {
            assert(out@ =~= Seq::<char>::empty());
        }
    }
    out
}

proof fn lemma_scan_back_le(s: Seq<char>, j: int)
    requires
        0 <= j <= s.len(),
    ensures
        scan_back_non_space(s, j) <= j,
    decreases j,
{
    if j > 0 && is_space(s[j - 1]) {
        lemma_scan_back_le(s, j - 1);
    }
}

/// Removes math markup wrapping (`$...$` and `$$...$$`) so the language
/// model receives plain text, then trims surrounding whitespace.
pub fn strip_mathjax_for_llm(s: &str) -> (r: String)
    ensures
        r@ == spec_strip_mathjax(s@),
{
    let v = crate::chars::str_to_chars(s);
    let no_display = strip_display(&v);
    let no_inline = strip_inline(&no_display);
    let trimmed = trim_chars(&no_inline);
    crate::chars::chars_to_string(&trimmed)
}

/// Whether `p` occurs in `s` as a contiguous run.
pub open spec fn contains_sub(s: Seq<char>, p: Seq<char>) -> bool {
    exists|i: int|
        0 <= i && i + p.len() <= s.len() && #[trigger] s.subrange(i, i + p.len() as int) == p
}

/// Substring search, character by character.
#[verifier::loop_isolation(false)]
pub fn str_contains(s: &str, p: &str) -> (r: bool)
    ensures
        r == contains_sub(s@, p@),
{
    let sv = crate::chars::str_to_chars(s);
    let pv = crate::chars::str_to_chars(p);
    let n = sv.len();
    let m = pv.len();
    if m > n {
        proof {
            assert(!contains_sub(s@, p@));
        }
        return false;
    }
    let mut i: usize = 0;
    while i <= n - m
        invariant
            n == s@.len(),
            m == p@.len(),
            sv@ == s@,
            pv@ == p@,
            m <= n,
            i <= n - m + 1,
            forall|q: int|
                0 <= q < i ==> #[trigger] s@.subrange(q, q + p@.len() as int) != p@,
        decreases n - m + 1 - i,
    {
        let mut j: usize = 0;
        let mut all = true;
        while j < m
            invariant
                n == s@.len(),
                m == p@.len(),
                sv@ == s@,
                pv@ == p@,
                i + m <= n,
                j <= m,
                all == (forall|q: int| 0 <= q < j ==> s@[i + q] == p@[q]),
            decreases m - j,
        {
            if sv[i + j] != pv[j] {
                all = false;
                proof {
                    assert(s@[i + j as int] != p@[j as int]);
                }
                j = m;
            } else {
                j = j + 1;
            }
        }
        if all {
            proof {
                assert(s@.subrange(i as int, i + p@.len() as int) =~= p@);
            }
            return true;
        }
        proof {
            assert(s@.subrange(i as int, i + p@.len() as int) != p@) by {
                let q = choose|q: int| 0 <= q < m && s@[i + q] != p@[q];
                assert(s@.subrange(i as int, i + p@.len() as int)[q] == s@[i + q]);
            }
        }
        i = i + 1;
    }
    proof {
        assert(!contains_sub(s@, p@)) by {
            if contains_sub(s@, p@) {
                let q = choose|q: int|
                    0 <= q && q + p@.len() <= s@.len() && #[trigger] s@.subrange(
                        q,
                        q + p@.len() as int,
                    ) == p@;
                assert(q < i);
            }
        }
    }
    false
}

} // verus!
