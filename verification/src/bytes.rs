//! Byte-sequence primitives: substring containment, first occurrence,
//! ASCII lowercasing and whitespace trimming.
//!
//! The redirect policy and the favicon selector are deliberately written as
//! substring-containment checks, not as equality or full URL parsing, so the
//! exact notion of "occurs in" is pinned down here once.

use vstd::prelude::*;

verus! {

/// `needle` occurs in `hay` starting at index `i`.
pub open spec fn sub_at(hay: Seq<u8>, needle: Seq<u8>, i: int) -> bool {
    0 <= i && i + needle.len() <= hay.len() && hay.subrange(i, i + needle.len() as int)
        == needle
}

/// `needle` occurs somewhere in `hay`.
pub open spec fn contains_seq(hay: Seq<u8>, needle: Seq<u8>) -> bool {
    exists|i: int| sub_at(hay, needle, i)
}

/// `needle` occurs at `i` and nowhere earlier.
pub open spec fn is_first_at(hay: Seq<u8>, needle: Seq<u8>, i: int) -> bool {
    sub_at(hay, needle, i) && (forall|j: int| 0 <= j < i ==> !sub_at(hay, needle, j))
}

/// The index of the first occurrence of `needle` in `hay`; meaningful only
/// when `contains_seq(hay, needle)` holds.
pub open spec fn first_index(hay: Seq<u8>, needle: Seq<u8>) -> int {
    choose|i: int| is_first_at(hay, needle, i)
}

/// A first occurrence is unique, so any index shown to be first is
/// `first_index` itself.
pub proof fn lemma_first_index_unique(hay: Seq<u8>, needle: Seq<u8>, i: int)
    requires
        is_first_at(hay, needle, i),
    ensures
        first_index(hay, needle) == i,
{
    let f = first_index(hay, needle);
    assert(is_first_at(hay, needle, f));
    if f < i {
        assert(sub_at(hay, needle, f));
        assert(false);
    }
    if i < f {
        assert(sub_at(hay, needle, i));
        assert(false);
    }
}

/// Does `needle` occur in `hay` at index `i`?
fn match_at(hay: &[u8], needle: &[u8], i: usize) -> (r: bool)
    requires
        i + needle@.len() <= hay@.len(),
    ensures
        r == sub_at(hay@, needle@, i as int),
{
    let nl = needle.len();
    let hl = hay.len();
    let mut k: usize = 0;
    while k < nl
        invariant
            nl == needle@.len(),
            hl == hay@.len(),
            i + needle@.len() <= hay@.len(),
            0 <= k <= nl,
            forall|m: int| 0 <= m < k ==> hay@[i + m] == needle@[m],
        decreases nl - k,
    {
        if hay[i + k] != needle[k] {
            assert(!sub_at(hay@, needle@, i as int)) by {
                if sub_at(hay@, needle@, i as int) {
                    assert(hay@.subrange(i as int, i + needle@.len() as int)[k as int]
                        == needle@[k as int]);
                }
            };
            return false;
        }
        k += 1;
    }
    assert(hay@.subrange(i as int, i + needle@.len() as int) =~= needle@);
    true
}

/// The index of the first occurrence of `needle` in `hay`, if any.
pub fn find_sub(hay: &[u8], needle: &[u8]) -> (r: Option<usize>)
    ensures
        match r {
            Some(i) => is_first_at(hay@, needle@, i as int) && i as int == first_index(
                hay@,
                needle@,
            ),
            None => !contains_seq(hay@, needle@),
        },
{
    let hl = hay.len();
    let nl = needle.len();
    if nl > hl {
        assert(!contains_seq(hay@, needle@)) by {
            if contains_seq(hay@, needle@) {
                let i = choose|i: int| sub_at(hay@, needle@, i);
            }
        };
        return None;
    }
    if nl == 0 {
        assert(sub_at(hay@, needle@, 0)) by {
            assert(hay@.subrange(0, 0) =~= needle@);
        };
        proof {
            lemma_first_index_unique(hay@, needle@, 0);
        }
        return Some(0);
    }
    let mut i: usize = 0;
    while i <= hl - nl
        invariant
            nl == needle@.len(),
            hl == hay@.len(),
            1 <= nl <= hl,
            0 <= i <= hl - nl + 1,
            forall|j: int| 0 <= j < i ==> !sub_at(hay@, needle@, j),
        decreases hl - i,
    {
        if match_at(hay, needle, i) {
            proof {
                lemma_first_index_unique(hay@, needle@, i as int);
            }
            return Some(i);
        }
        i += 1;
    }
    assert(!contains_seq(hay@, needle@)) by {
        if contains_seq(hay@, needle@) {
            let j = choose|j: int| sub_at(hay@, needle@, j);
            assert(j <= hl - nl);
        }
    };
    None
}

/// Does `needle` occur anywhere in `hay`?
pub fn contains_bytes(hay: &[u8], needle: &[u8]) -> (r: bool)
    ensures
        r == contains_seq(hay@, needle@),
{
    match find_sub(hay, needle) {
        Some(_) => true,
        None => false,
    }
}

/// Are the two byte strings equal?
pub fn eq_bytes(a: &[u8], b: &[u8]) -> (r: bool)
    ensures
        r == (a@ == b@),
{
    let al = a.len();
    if al != b.len() {
        return false;
    }
    let mut k: usize = 0;
    while k < al
        invariant
            al == a@.len() == b@.len(),
            0 <= k <= al,
            forall|m: int| 0 <= m < k ==> a@[m] == b@[m],
        decreases al - k,
    {
        if a[k] != b[k] {
            return false;
        }
        k += 1;
    }
    assert(a@ =~= b@);
    true
}

/// The ASCII lowercase of one byte.
pub open spec fn lower_byte(b: u8) -> u8 {
    if 65 <= b <= 90 {
        (b + 32) as u8
    } else {
        b
    }
}

/// The ASCII lowercase of a byte string, byte by byte.
pub open spec fn lower_seq(s: Seq<u8>) -> Seq<u8> {
    s.map_values(|b: u8| lower_byte(b))
}

/// Lowercase every ASCII letter of `s`.
pub fn to_lower(s: &[u8]) -> (r: Vec<u8>)
    ensures
        r@ == lower_seq(s@),
{
    let sl = s.len();
    let mut r: Vec<u8> = Vec::new();
    let mut k: usize = 0;
    while k < sl
        invariant
            sl == s@.len(),
            0 <= k <= sl,
            r@ =~= s@.subrange(0, k as int).map_values(|b: u8| lower_byte(b)),
        decreases sl - k,
    {
        let b = s[k];
        if 65 <= b && b <= 90 {
            r.push(b + 32);
        } else {
            r.push(b);
        }
        assert(r@ =~= s@.subrange(0, k + 1).map_values(|b: u8| lower_byte(b)));
        k += 1;
    }
    assert(s@.subrange(0, sl as int) =~= s@);
    r
}

/// Is `b` an ASCII whitespace byte (space, tab, line feed, vertical tab,
/// form feed, carriage return)?
pub open spec fn is_space(b: u8) -> bool {
    b == 32 || b == 9 || b == 10 || b == 11 || b == 12 || b == 13
}

/// `s` without its leading whitespace.
pub open spec fn trim_start_spec(s: Seq<u8>) -> Seq<u8>
    decreases s.len(),
{
    if s.len() > 0 && is_space(s[0]) {
        trim_start_spec(s.drop_first())
    } else {
        s
    }
}

/// `s` without its trailing whitespace.
pub open spec fn trim_end_spec(s: Seq<u8>) -> Seq<u8>
    decreases s.len(),
{
    if s.len() > 0 && is_space(s.last()) {
        trim_end_spec(s.drop_last())
    } else {
        s
    }
}

/// `s` without leading and trailing whitespace.
pub open spec fn trim_spec(s: Seq<u8>) -> Seq<u8> {
    trim_end_spec(trim_start_spec(s))
}

/// Copy of `s[a..b]`.
pub fn sub_vec(s: &[u8], a: usize, b: usize) -> (r: Vec<u8>)
    requires
        a <= b <= s@.len(),
    ensures
        r@ == s@.subrange(a as int, b as int),
{
    let mut r: Vec<u8> = Vec::new();
    let mut k: usize = a;
    while k < b
        invariant
            a <= k <= b <= s@.len(),
            r@ =~= s@.subrange(a as int, k as int),
        decreases b - k,
    {
        r.push(s[k]);
        assert(r@ =~= s@.subrange(a as int, k + 1));
        k += 1;
    }
    r
}

/// Append `src` to `dst`.
pub fn append_bytes(dst: &mut Vec<u8>, src: &[u8])
    ensures
        final(dst)@ == old(dst)@ + src@,
{
    let sl = src.len();
    let mut k: usize = 0;
    while k < sl
        invariant
            sl == src@.len(),
            0 <= k <= sl,
            dst@ =~= old(dst)@ + src@.subrange(0, k as int),
        decreases sl - k,
    {
        dst.push(src[k]);
        assert(dst@ =~= old(dst)@ + src@.subrange(0, k + 1));
        k += 1;
    }
    assert(dst@ =~= old(dst)@ + src@);
}

/// Strip leading and trailing whitespace from `s`.
pub fn trim_bytes(s: &[u8]) -> (r: Vec<u8>)
    ensures
        r@ == trim_spec(s@),
{
    let sl = s.len();
    assert(s@.subrange(0, sl as int) =~= s@);
    let mut a: usize = 0;
    while a < sl && is_space_byte(s[a])
        invariant
            sl == s@.len(),
            0 <= a <= sl,
            trim_start_spec(s@) == trim_start_spec(s@.subrange(a as int, sl as int)),
        decreases sl - a,
    {
        proof {
            let t = s@.subrange(a as int, sl as int);
            assert(t.drop_first() =~= s@.subrange(a + 1, sl as int));
        }
        a += 1;
    }
    assert(trim_start_spec(s@.subrange(a as int, sl as int)) == s@.subrange(a as int, sl as int));
    let mut b: usize = sl;
    while b > a && is_space_byte(s[b - 1])
        invariant
            sl == s@.len(),
            0 <= a <= b <= sl,
            trim_start_spec(s@) == s@.subrange(a as int, sl as int),
            trim_end_spec(s@.subrange(a as int, sl as int)) == trim_end_spec(
                s@.subrange(a as int, b as int),
            ),
        decreases b,
    {
        proof {
            let t = s@.subrange(a as int, b as int);
            assert(t.drop_last() =~= s@.subrange(a as int, b - 1));
        }
        b -= 1;
    }
    assert(trim_end_spec(s@.subrange(a as int, b as int)) == s@.subrange(a as int, b as int));
    sub_vec(s, a, b)
}

/// Is `b` an ASCII whitespace byte?
pub fn is_space_byte(b: u8) -> (r: bool)
    ensures
        r == is_space(b),
{
    b == 32 || b == 9 || b == 10 || b == 11 || b == 12 || b == 13
}

} // verus!
