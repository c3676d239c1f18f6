//! Byte-sequence facts shared by the request-head and envelope parsers.
use vstd::prelude::*;

verus! {

/// Index of the first occurrence of `b` in `s`, or `s.len()` when absent.
pub open spec fn first_index(s: Seq<u8>, b: u8) -> int
    decreases s.len(),
{
    if s.len() == 0 {
        0
    } else if s[0] == b {
        0
    } else {
        1 + first_index(s.drop_first(), b)
    }
}

/// Number of occurrences of `b` in `s`.
pub open spec fn count_byte(s: Seq<u8>, b: u8) -> nat
    decreases s.len(),
{
    if s.len() == 0 {
        0
    } else {
        count_byte(s.drop_last(), b) + if s.last() == b { 1nat } else { 0nat }
    }
}

/// Whether `s` ends with `suffix`.
pub open spec fn ends_with(s: Seq<u8>, suffix: Seq<u8>) -> bool {
    s.len() >= suffix.len() && s.subrange(s.len() - suffix.len(), s.len() as int) == suffix
}

/// Whether `s` starts with `prefix`.
pub open spec fn starts_with(s: Seq<u8>, prefix: Seq<u8>) -> bool {
    s.len() >= prefix.len() && s.subrange(0, prefix.len() as int) == prefix
}

pub proof fn lemma_first_index_bounds(s: Seq<u8>, b: u8)
    ensures
        0 <= first_index(s, b) <= s.len(),
        first_index(s, b) < s.len() ==> s[first_index(s, b)] == b,
        forall|k: int| 0 <= k < first_index(s, b) ==> s[k] != b,
    decreases s.len(),
{
    if s.len() > 0 && s[0] != b {
        lemma_first_index_bounds(s.drop_first(), b);
        assert forall|k: int| 0 <= k < first_index(s, b) implies s[k] != b by {
            if k > 0 {
                assert(s[k] == s.drop_first()[k - 1]);
            }
        }
    }
}

/// The first occurrence is characterized by what precedes it.
pub proof fn lemma_first_index_unique(s: Seq<u8>, b: u8, r: int)
    requires
        0 <= r <= s.len(),
        r < s.len() ==> s[r] == b,
        forall|k: int| 0 <= k < r ==> s[k] != b,
    ensures
        first_index(s, b) == r,
    decreases s.len(),
{
    if s.len() > 0 && r > 0 {
        assert(s[0] != b);
        let t = s.drop_first();
        assert forall|k: int| 0 <= k < r - 1 implies t[k] != b by {
            assert(t[k] == s[k + 1]);
        }
        if r - 1 < t.len() {
            assert(t[r - 1] == s[r]);
        }
        lemma_first_index_unique(t, b, r - 1);
    }
}

pub proof fn lemma_count_zero_iff_absent(s: Seq<u8>, b: u8)
    ensures
        (count_byte(s, b) == 0) <==> (forall|k: int| 0 <= k < s.len() ==> s[k] != b),
    decreases s.len(),
{
    if s.len() > 0 {
        lemma_count_zero_iff_absent(s.drop_last(), b);
        if count_byte(s, b) == 0 {
            assert forall|k: int| 0 <= k < s.len() implies s[k] != b by {
                if k < s.len() - 1 {
                    assert(s[k] == s.drop_last()[k]);
                }
            }
        } else {
            if s.last() != b {
                let k = choose|k: int| 0 <= k < s.drop_last().len() && s.drop_last()[k] == b;
                assert(s[k] == b);
            }
        }
    }
}

/// Finds the first `b` at or after `from`.
pub fn find_byte(s: &[u8], from: usize, b: u8) -> (r: usize)
    requires
        from <= s@.len(),
    ensures
        from <= r <= s@.len(),
        r < s@.len() ==> s@[r as int] == b,
        forall|k: int| from <= k < r ==> s@[k] != b,
        r - from == first_index(s@.subrange(from as int, s@.len() as int), b),
{
    let mut i = from;
    while i < s.len() && s[i] != b
        invariant
            from <= i <= s@.len(),
            forall|k: int| from <= k < i ==> s@[k] != b,
        decreases s@.len() - i,
    {
        i = i + 1;
    }
    proof {
        let t = s@.subrange(from as int, s@.len() as int);
        assert forall|k: int| 0 <= k < i - from implies t[k] != b by {
            assert(t[k] == s@[k + from]);
        }
        if i < s@.len() {
            assert(t[i - from] == s@[i as int]);
        }
        lemma_first_index_unique(t, b, i - from);
    }
    i
}

/// Copies `s[from..to]`.
pub fn copy_range(s: &[u8], from: usize, to: usize) -> (r: Vec<u8>)
    requires
        from <= to <= s@.len(),
    ensures
        r@ == s@.subrange(from as int, to as int),
{
    let mut out: Vec<u8> = Vec::new();
    let mut i = from;
    while i < to
        invariant
            from <= i <= to <= s@.len(),
            out@ == s@.subrange(from as int, i as int),
        decreases to - i,
    {
        out.push(s[i]);
        i = i + 1;
    }
    out
}

/// Whether `s` equals the literal byte string `lit`.
pub fn bytes_equal(s: &[u8], lit: &[u8]) -> (r: bool)
    ensures
        r == (s@ == lit@),
{
    if s.len() != lit.len() {
        return false;
    }
    let mut i: usize = 0;
    while i < s.len()
        invariant
            s@.len() == lit@.len(),
            i <= s@.len(),
            forall|k: int| 0 <= k < i ==> s@[k] == lit@[k],
        decreases s@.len() - i,
    {
        if s[i] != lit[i] {
            return false;
        }
        i = i + 1;
    }
    assert(s@ =~= lit@);
    true
}

/// Whether `s` ends with `\r\n\r\n`.
pub fn ends_with_blank_line(s: &[u8]) -> (r: bool)
    ensures
        r == ends_with(s@, seq![13u8, 10u8, 13u8, 10u8]),
{
    let n = s.len();
    if n < 4 {
        return false;
    }
    let r = s[n - 4] == 13 && s[n - 3] == 10 && s[n - 2] == 13 && s[n - 1] == 10;
    proof {
        let tail = s@.subrange(n - 4, n as int);
        if r {
            assert(tail =~= seq![13u8, 10u8, 13u8, 10u8]);
        } else {
            if tail == seq![13u8, 10u8, 13u8, 10u8] {
                assert(tail[0] == s@[n - 4]);
                assert(tail[1] == s@[n - 3]);
                assert(tail[2] == s@[n - 2]);
                assert(tail[3] == s@[n - 1]);
            }
        }
    }
    r
}

} // verus!
