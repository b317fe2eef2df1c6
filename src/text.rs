//! Comparisons on text that the scene rules need.

use vstd::prelude::*;
use vstd::string::StringSliceAdditionalSpecFns;
use vstd::string::StrSliceExecFns;

verus! {

broadcast use vstd::utf8::encode_utf8_decode_utf8;

/// Whether `p` is a prefix of `s`, character by character.
pub open spec fn is_prefix_of(p: Seq<char>, s: Seq<char>) -> bool {
    p.len() <= s.len() && s.subrange(0, p.len() as int) == p
}

/// Whether the two texts hold the same characters.
pub fn text_eq(a: &str, b: &str) -> (r: bool)
    ensures
        r == (a@ == b@),
{
    let x = a.as_bytes();
    let y = b.as_bytes();
    if x.len() != y.len() {
        return false;
    }
    let mut i: usize = 0;
    while i < x.len()
        invariant
            x@ == a.spec_bytes(),
            y@ == b.spec_bytes(),
            x@.len() == y@.len(),
            i <= x@.len(),
            x@.subrange(0, i as int) == y@.subrange(0, i as int),
        decreases x@.len() - i,
    {
        if x[i] != y[i] {
            return false;
        }
        assert(x@.subrange(0, i + 1) =~= x@.subrange(0, i as int).push(x@[i as int]));
        assert(y@.subrange(0, i + 1) =~= y@.subrange(0, i as int).push(y@[i as int]));
        i = i + 1;
    }
    assert(x@ =~= x@.subrange(0, i as int));
    assert(y@ =~= y@.subrange(0, i as int));
    assert(vstd::utf8::decode_utf8(vstd::utf8::encode_utf8(a@)) == a@);
    assert(vstd::utf8::decode_utf8(vstd::utf8::encode_utf8(b@)) == b@);
    true
}

/// Whether `s` starts with `p`.
pub fn text_starts_with(s: &str, p: &str) -> (r: bool)
    ensures
        r == is_prefix_of(p@, s@),
{
    let n = p.unicode_len();
    let m = s.unicode_len();
    if n > m {
        return false;
    }
    let mut i: usize = 0;
    while i < n
        invariant
            n == p@.len(),
            m == s@.len(),
            n <= m,
            i <= n,
            s@.subrange(0, i as int) == p@.subrange(0, i as int),
        decreases n - i,
    {
        if s.get_char(i) != p.get_char(i) {
            return false;
        }
        assert(s@.subrange(0, i + 1) =~= s@.subrange(0, i as int).push(s@[i as int]));
        assert(p@.subrange(0, i + 1) =~= p@.subrange(0, i as int).push(p@[i as int]));
        i = i + 1;
    }
    assert(p@ =~= p@.subrange(0, n as int));
    true
}

/// Where the last `n` bytes of a text of `len` bytes begin.
pub open spec fn take_right_start(len: int, n: int) -> int {
    if n <= len { len - n } else { 0 }
}

/// The last `n` bytes of `s`, or all of `s` when it is shorter; the cut
/// must fall on a character boundary.
pub fn str_take_right(s: &str, n: usize) -> (r: &str)
    requires
        s.spec_bytes().len() <= usize::MAX,
        vstd::utf8::is_char_boundary(
            s.spec_bytes(),
            take_right_start(s.spec_bytes().len() as int, n as int),
        ),
    ensures
        r.spec_bytes() == s.spec_bytes().subrange(
            take_right_start(s.spec_bytes().len() as int, n as int),
            s.spec_bytes().len() as int,
        ),
{
    s.split_at(s.len().saturating_sub(n)).1
}

} // verus!
