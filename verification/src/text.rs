//! Byte-level text handling for the console dialogue: trimming input lines,
//! parsing a selection index, the index-coercion rule, and the continue
//! answer.  Input lines arrive from the console as raw bytes; every function
//! here is total over arbitrary byte strings.

use vstd::prelude::*;

verus! {

/// ASCII whitespace as it occurs in console input lines.
pub open spec fn is_space(b: u8) -> bool {
    b == 32 || b == 9 || b == 10 || b == 13
}

pub open spec fn spec_trim_start(s: Seq<u8>) -> Seq<u8>
    decreases s.len(),
{
    if s.len() > 0 && is_space(s[0]) {
        spec_trim_start(s.subrange(1, s.len() as int))
    } else {
        s
    }
}

pub open spec fn spec_trim_end(s: Seq<u8>) -> Seq<u8>
    decreases s.len(),
{
    if s.len() > 0 && is_space(s[s.len() - 1]) {
        spec_trim_end(s.subrange(0, s.len() - 1))
    } else {
        s
    }
}

/// A byte string with leading and trailing ASCII whitespace removed.
pub open spec fn spec_trim(s: Seq<u8>) -> Seq<u8> {
    spec_trim_end(spec_trim_start(s))
}

proof fn lemma_trim_start_skip(s: Seq<u8>, k: int)
    requires
        0 <= k <= s.len(),
        forall|i: int| 0 <= i < k ==> is_space(s[i]),
    ensures
        spec_trim_start(s) == spec_trim_start(s.subrange(k, s.len() as int)),
    decreases k,
{
    if k > 0 {
        let t = s.subrange(1, s.len() as int);
        lemma_trim_start_skip(t, k - 1);
        assert(t.subrange(k - 1, t.len() as int) =~= s.subrange(k, s.len() as int));
    } else {
        assert(s.subrange(0, s.len() as int) =~= s);
    }
}

proof fn lemma_trim_end_skip(s: Seq<u8>, k: int)
    requires
        0 <= k <= s.len(),
        forall|i: int| k <= i < s.len() ==> is_space(s[i]),
    ensures
        spec_trim_end(s) == spec_trim_end(s.subrange(0, k)),
    decreases s.len() - k,
{
    if k < s.len() {
        let t = s.subrange(0, s.len() - 1);
        lemma_trim_end_skip(t, k);
        assert(t.subrange(0, k) =~= s.subrange(0, k));
    } else {
        assert(s.subrange(0, s.len() as int) =~= s);
    }
}

fn is_space_byte(b: u8) -> (r: bool)
    ensures
        r == is_space(b),
{
    b == 32 || b == 9 || b == 10 || b == 13
}

/// The input line with leading and trailing ASCII whitespace removed.
pub fn trim(s: &[u8]) -> (r: Vec<u8>)
    ensures
        r@ == spec_trim(s@),
{
    let n: usize = s.len();
    let mut lo: usize = 0;
    while lo < n && is_space_byte(s[lo])
        invariant
            lo <= n,
            n == s@.len(),
            forall|i: int| 0 <= i < lo ==> is_space(s@[i]),
        decreases n - lo,
    {
        lo = lo + 1;
    }
    let mut hi: usize = n;
    while hi > lo && is_space_byte(s[hi - 1])
        invariant
            lo <= hi <= n,
            n == s@.len(),
            forall|i: int| hi <= i < n ==> is_space(s@[i]),
        decreases hi,
    {
        hi = hi - 1;
    }
    proof {
        lemma_trim_start_skip(s@, lo as int);
        let t = s@.subrange(lo as int, n as int);
        assert(spec_trim_start(t) == t);
        lemma_trim_end_skip(t, hi - lo);
        let u = t.subrange(0, hi - lo);
        assert(u =~= s@.subrange(lo as int, hi as int));
        assert(spec_trim_end(u) == u);
    }
    vstd::slice::slice_to_vec(vstd::slice::slice_subrange(s, lo, hi))
}

/// The request line for one search: the fixed endpoint template with the
/// trimmed query substituted at its end.
pub fn build_search_url(template: &[u8], query: &[u8]) -> (r: Vec<u8>)
    ensures
        r@ == template@ + spec_trim(query@),
{
    let mut r: Vec<u8> = Vec::new();
    crate::render::append_bytes(&mut r, template);
    let t = trim(query);
    crate::render::append_bytes(&mut r, t.as_slice());
    proof {
        assert(r@ =~= template@ + spec_trim(query@));
    }
    r
}

pub open spec fn is_digit(b: u8) -> bool {
    48 <= b <= 57
}

pub open spec fn all_digits(s: Seq<u8>) -> bool {
    forall|i: int| 0 <= i < s.len() ==> is_digit(s[i])
}

/// The number denoted by a run of decimal digit bytes, most significant first.
pub open spec fn digits_value(s: Seq<u8>) -> int
    decreases s.len(),
{
    if s.len() == 0 {
        0
    } else {
        digits_value(s.subrange(0, s.len() - 1)) * 10 + (s[s.len() - 1] - 48)
    }
}

/// The digit run of a selection line, if it has the shape an unsigned decimal
/// parse accepts: an optional leading '+' followed by one or more digits.
pub open spec fn spec_digits_part(s: Seq<u8>) -> Option<Seq<u8>> {
    let d = if s.len() > 0 && s[0] == 43 {
        s.subrange(1, s.len() as int)
    } else {
        s
    };
    if d.len() > 0 && all_digits(d) {
        Some(d)
    } else {
        None
    }
}

/// What an unsigned decimal parse of `s` yields, as an unbounded integer.
pub open spec fn spec_parse_unsigned(s: Seq<u8>) -> Option<int> {
    match spec_digits_part(s) {
        Some(d) => Some(digits_value(d)),
        None => None,
    }
}

proof fn lemma_digits_value_nonneg(s: Seq<u8>)
    requires
        all_digits(s),
    ensures
        digits_value(s) >= 0,
    decreases s.len(),
{
    if s.len() > 0 {
        lemma_digits_value_nonneg(s.subrange(0, s.len() - 1));
    }
}

proof fn lemma_digits_value_prefix_le(s: Seq<u8>, k: int)
    requires
        all_digits(s),
        0 <= k <= s.len(),
    ensures
        digits_value(s.subrange(0, k)) <= digits_value(s),
    decreases s.len() - k,
{
    if k < s.len() {
        lemma_digits_value_prefix_le(s, k + 1);
        let p = s.subrange(0, k + 1);
        assert(p.subrange(0, k) =~= s.subrange(0, k));
        lemma_digits_value_nonneg(p.subrange(0, k));
        assert(digits_value(p) == digits_value(s.subrange(0, k)) * 10 + (s[k] - 48));
    } else {
        assert(s.subrange(0, k) =~= s);
    }
}

/// Parse a run of decimal digits, with an optional leading '+', as Rust's
/// unsigned string parse does.  `None` is returned both when the shape is
/// wrong and when the denoted number does not fit in `usize`; the contract
/// tells the two apart.
#[verifier::loop_isolation(false)]
fn parse_unsigned(s: &[u8]) -> (r: Option<usize>)
    ensures
        match r {
            Some(v) => spec_parse_unsigned(s@) == Some(v as int),
            None => spec_parse_unsigned(s@) is None || spec_parse_unsigned(s@)->Some_0
                > usize::MAX,
        },
{
    let n: usize = s.len();
    let start: usize = if n > 0 && s[0] == 43 {
        1
    } else {
        0
    };
    proof {
        assert(s@.subrange(0, s@.len() as int) =~= s@);
    }
    if start == n {
        return None;
    }
    let ghost d_seq = s@.subrange(start as int, n as int);
    let mut acc: usize = 0;
    let mut i: usize = start;
    while i < n
        invariant
            start <= i <= n,
            n == s@.len(),
            d_seq == s@.subrange(start as int, n as int),
            forall|j: int| start <= j < i ==> is_digit(s@[j]),
            acc as int == digits_value(s@.subrange(start as int, i as int)),
        decreases n - i,
    {
        let b = s[i];
        if !(48 <= b && b <= 57) {
            proof {
                assert(d_seq[i - start] == s@[i as int]);
                assert(!all_digits(d_seq));
            }
            return None;
        }
        let d: usize = (b - 48) as usize;
        let wide: u128 = acc as u128 * 10 + d as u128;
        proof {
            let p = s@.subrange(start as int, i + 1);
            assert(p.subrange(0, p.len() - 1) =~= s@.subrange(start as int, i as int));
            assert(digits_value(p) == acc as int * 10 + d);
        }
        if wide > usize::MAX as u128 {
            proof {
                if all_digits(d_seq) {
                    lemma_digits_value_prefix_le(d_seq, i + 1 - start);
                    assert(d_seq.subrange(0, i + 1 - start) =~= s@.subrange(
                        start as int,
                        i + 1,
                    ));
                }
            }
            return None;
        }
        acc = acc * 10 + d;
        i = i + 1;
    }
    proof {
        assert(d_seq =~= s@.subrange(start as int, i as int));
        assert(forall|j: int| 0 <= j < d_seq.len() ==> is_digit(#[trigger] d_seq[j]));
    }
    Some(acc)
}

/// What the selection step does with one input line: the line is trimmed and
/// parsed as an unsigned decimal; a value below `count` is kept, anything
/// else — unparsable input or an out-of-range value — falls back to 0.
pub open spec fn spec_selection(s: Seq<u8>, count: int) -> int {
    match spec_parse_unsigned(spec_trim(s)) {
        Some(v) => if 0 <= v < count {
            v
        } else {
            0
        },
        None => 0,
    }
}

/// True when the selection line denotes an index that is kept as typed,
/// false when the fallback index 0 is substituted for it.
pub open spec fn spec_selection_accepted(s: Seq<u8>, count: int) -> bool {
    match spec_parse_unsigned(spec_trim(s)) {
        Some(v) => 0 <= v < count,
        None => false,
    }
}

/// A selection line that denotes an index inside the result list is taken
/// exactly as typed.
pub proof fn lemma_selection_in_range(s: Seq<u8>, count: int, v: int)
    requires
        spec_parse_unsigned(spec_trim(s)) == Some(v),
        0 <= v < count,
    ensures
        spec_selection(s, count) == v,
{
}

/// A selection line that does not parse as a non-negative decimal number,
/// or denotes an index at or past the end of the result list, falls back
/// to index 0.
pub proof fn lemma_selection_fallback(s: Seq<u8>, count: int)
    requires
        spec_parse_unsigned(spec_trim(s)) is None || !(0 <= spec_parse_unsigned(
            spec_trim(s),
        )->Some_0 < count),
    ensures
        spec_selection(s, count) == 0,
{
}

/// The index chosen by one selection line, after the fallback rule.
pub fn selection_index(input: &[u8], result_count: usize) -> (r: usize)
    ensures
        r as int == spec_selection(input@, result_count as int),
{
    let t = trim(input);
    match parse_unsigned(t.as_slice()) {
        Some(v) => {
            if v < result_count {
                v
            } else {
                0
            }
        },
        None => 0,
    }
}

/// Whether the selection line is taken as typed; when this is false the
/// caller reports the fallback to index 0 before rendering.
pub fn selection_accepted(input: &[u8], result_count: usize) -> (r: bool)
    ensures
        r == spec_selection_accepted(input@, result_count as int),
{
    let t = trim(input);
    match parse_unsigned(t.as_slice()) {
        Some(v) => v < result_count,
        None => false,
    }
}

/// The continue answer that keeps the loop going: exactly "y" or "Y" once
/// trimmed; every other line ends the session.
pub open spec fn spec_continue(s: Seq<u8>) -> bool {
    spec_trim(s) == seq![121u8] || spec_trim(s) == seq![89u8]
}

/// Whether the continue-prompt answer asks for another search.
pub fn wants_continue(input: &[u8]) -> (r: bool)
    ensures
        r == spec_continue(input@),
{
    let t = trim(input);
    if t.len() == 1 {
        let c = t[0];
        proof {
            if t@[0] == 121u8 {
                assert(t@ =~= seq![121u8]);
            }
            if t@[0] == 89u8 {
                assert(t@ =~= seq![89u8]);
            }
        }
        c == 121 || c == 89
    } else {
        false
    }
}

} // verus!
