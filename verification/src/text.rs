//! Byte-level text helpers: literals as bytes, trimming, field splitting.

use vstd::prelude::*;
use vstd::slice::slice_subrange;
use vstd::string::*;

verus! {

/// The bytes of a text whose characters are all ASCII.
pub open spec fn ascii(t: Seq<char>) -> Seq<u8> {
    Seq::new(t.len(), |i: int| t[i] as u8)
}

/// Whether every byte is below 128.
pub open spec fn is_ascii_bytes(s: Seq<u8>) -> bool {
    forall|i: int| 0 <= i < s.len() ==> #[trigger] s[i] < 128
}

/// Whether `line` begins with the bytes of `lit`.
pub open spec fn has_prefix(line: Seq<u8>, lit: Seq<char>) -> bool {
    lit.len() <= line.len() && line.take(lit.len() as int) == ascii(lit)
}

/// What follows `lit` in a line that begins with it.
pub open spec fn after(line: Seq<u8>, lit: Seq<char>) -> Option<Seq<u8>> {
    if has_prefix(line, lit) {
        Some(line.skip(lit.len() as int))
    } else {
        None
    }
}

/// Index of the first byte equal to `b`, or the length where there is none.
pub open spec fn first_of(s: Seq<u8>, b: u8) -> int
    decreases s.len(),
{
    if s.len() == 0 || s[0] == b {
        0
    } else {
        1 + first_of(s.skip(1), b)
    }
}

/// The two fields around the first `=` of what follows `lit`.
pub open spec fn pair_after(line: Seq<u8>, lit: Seq<char>) -> Option<(Seq<u8>, Seq<u8>)> {
    match after(line, lit) {
        Some(rest) => {
            let k = first_of(rest, 61);
            if k < rest.len() {
                Some((rest.take(k), rest.skip(k + 1)))
            } else {
                None
            }
        },
        None => None,
    }
}

/// ASCII white space: blank, tab, line feed, vertical tab, form feed, return.
pub open spec fn is_space(b: u8) -> bool {
    b == 32 || (9 <= b <= 13)
}

/// Number of white-space bytes at the front.
pub open spec fn leading(s: Seq<u8>) -> int
    decreases s.len(),
{
    if s.len() > 0 && is_space(s[0]) {
        1 + leading(s.skip(1))
    } else {
        0
    }
}

/// Number of white-space bytes at the back.
pub open spec fn trailing(s: Seq<u8>) -> int
    decreases s.len(),
{
    if s.len() > 0 && is_space(s.last()) {
        1 + trailing(s.drop_last())
    } else {
        0
    }
}

/// The text without the white space at its two ends.
pub open spec fn trimmed(s: Seq<u8>) -> Seq<u8> {
    let rest = s.skip(leading(s));
    rest.take(rest.len() - trailing(rest))
}

/// The first occurrence lies within the text, and the byte stands there.
pub proof fn lemma_first_of_bounds(s: Seq<u8>, b: u8)
    ensures
        0 <= first_of(s, b) <= s.len(),
        first_of(s, b) < s.len() ==> s[first_of(s, b)] == b,
    decreases s.len(),
{
    if s.len() == 0 || s[0] == b {
    } else {
        lemma_first_of_bounds(s.skip(1), b);
    }
}

/// Whether a line is exactly the literal.
pub fn same_text(line: &[u8], lit: &str) -> (r: bool)
    requires
        is_ascii(lit),
    ensures
        r == (line@ == ascii(lit@)),
{
    broadcast use is_ascii_spec_bytes;

    let want = lit.as_bytes();
    assert(want@ =~= ascii(lit@));
    if line.len() != want.len() {
        return false;
    }
    let mut i: usize = 0;
    while i < line.len()
        invariant
            i <= line.len(),
            line.len() == want.len(),
            want@ == ascii(lit@),
            forall|j: int| 0 <= j < i ==> line[j] == want[j],
        decreases line.len() - i,
    {
        if line[i] != want[i] {
            return false;
        }
        i += 1;
    }
    assert(line@ =~= want@);
    true
}

/// Index of the first occurrence of `b`, or the length.
pub fn find_byte(s: &[u8], b: u8) -> (k: usize)
    ensures
        k == first_of(s@, b),
        k <= s.len(),
{
    let mut i: usize = 0;
    assert(s@.skip(0) =~= s@);
    while i < s.len() && s[i] != b
        invariant
            i <= s.len(),
            first_of(s@, b) == i + first_of(s@.skip(i as int), b),
        decreases s.len() - i,
    {
        assert(s@.skip(i as int).skip(1) =~= s@.skip(i + 1));
        i += 1;
    }
    i
}

/// The sub-slice without the white space at its two ends.
pub fn trim(s: &[u8]) -> (t: &[u8])
    ensures
        t@ == trimmed(s@),
{
    let mut a: usize = 0;
    assert(s@.skip(0) =~= s@);
    while a < s.len() && is_space_byte(s[a])
        invariant
            a <= s.len(),
            leading(s@) == a + leading(s@.skip(a as int)),
        decreases s.len() - a,
    {
        assert(s@.skip(a as int).skip(1) =~= s@.skip(a + 1));
        a += 1;
    }
    let ghost rest = s@.skip(a as int);
    let mut b: usize = s.len();
    assert(rest.take(rest.len() as int) =~= rest);
    while b > a && is_space_byte(s[b - 1])
        invariant
            a <= b <= s.len(),
            rest == s@.skip(a as int),
            trailing(rest) == (s.len() - b) + trailing(rest.take(b - a)),
        decreases b,
    {
        assert(rest.take(b - a).drop_last() =~= rest.take(b - a - 1));
        b -= 1;
    }
    assert(rest.take(b - a) =~= s@.subrange(a as int, b as int));
    slice_subrange(s, a, b)
}

/// Whether a byte is ASCII white space.
pub fn is_space_byte(b: u8) -> (r: bool)
    ensures
        r == is_space(b),
{
    b == 32 || (9 <= b && b <= 13)
}

/// Whether every byte is ASCII.
pub fn all_ascii(s: &[u8]) -> (r: bool)
    ensures
        r == is_ascii_bytes(s@),
{
    let mut i: usize = 0;
    while i < s.len()
        invariant
            i <= s.len(),
            forall|j: int| 0 <= j < i ==> #[trigger] s[j] < 128,
        decreases s.len() - i,
    {
        if s[i] >= 128 {
            return false;
        }
        i += 1;
    }
    true
}

} // verus!
