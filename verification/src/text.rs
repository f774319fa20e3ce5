//! Byte-sequence utilities: the proxy works on paths, queries and header
//! text as plain bytes, so the string operations it needs are stated and
//! verified here over `Seq<u8>`.
use vstd::prelude::*;

verus! {

/// The bytes of an ASCII string, character by character.
pub open spec fn ascii_of(s: Seq<char>) -> Seq<u8> {
    s.map_values(|c: char| c as u8)
}

/// `pat` occurs in `s` at position `i`.
pub open spec fn occurs_at(s: Seq<u8>, pat: Seq<u8>, i: int) -> bool {
    0 <= i && i + pat.len() <= s.len() && s.subrange(i, i + pat.len()) == pat
}

/// Turns an ASCII string slice into its bytes, one `u8` per character.
pub fn ascii_str_bytes(s: &str) -> (r: Vec<u8>)
    requires
        vstd::string::is_ascii(s),
    ensures
        r@ == ascii_of(s@),
{
    proof {
        vstd::string::is_ascii_spec_bytes(s);
    }
    let b = s.as_bytes();
    assert(b@ =~= ascii_of(s@));
    vstd::slice::slice_to_vec(b)
}

/// Byte-for-byte equality of two byte slices.
pub fn bytes_eq(a: &[u8], b: &[u8]) -> (r: bool)
    ensures
        r == (a@ == b@),
{
    if a.len() != b.len() {
        proof {
            assert(a@.len() != b@.len());
        }
        return false;
    }
    let mut i: usize = 0;
    while i < a.len()
        invariant
            a@.len() == b@.len(),
            i <= a@.len(),
            forall|k: int| 0 <= k < i ==> a@[k] == b@[k],
        decreases a@.len() - i,
    {
        if a[i] != b[i] {
            return false;
        }
        i = i + 1;
    }
    proof {
        assert(a@ =~= b@);
    }
    true
}

/// Does `s` begin with `p`?
pub fn starts_with(s: &[u8], p: &[u8]) -> (r: bool)
    ensures
        r == p@.is_prefix_of(s@),
{
    if p.len() > s.len() {
        return false;
    }
    let mut i: usize = 0;
    while i < p.len()
        invariant
            p@.len() <= s@.len(),
            i <= p@.len(),
            forall|k: int| 0 <= k < i ==> s@[k] == p@[k],
        decreases p@.len() - i,
    {
        if s[i] != p[i] {
            proof {
                assert(s@.subrange(0, p@.len() as int)[i as int] != p@[i as int]);
            }
            return false;
        }
        i = i + 1;
    }
    proof {
        assert(s@.subrange(0, p@.len() as int) =~= p@);
    }
    true
}

/// Does `pat` occur in `s` at position `i`?
fn matches_at(s: &[u8], pat: &[u8], i: usize) -> (r: bool)
    requires
        i + pat@.len() <= s@.len(),
    ensures
        r == occurs_at(s@, pat@, i as int),
{
    let n: usize = s.len();
    let m: usize = pat.len();
    let mut j: usize = 0;
    while j < m
        invariant
            n == s@.len(),
            m == pat@.len(),
            i + m <= n,
            j <= m,
            forall|k: int| 0 <= k < j ==> s@[i + k] == pat@[k],
        decreases m - j,
    {
        if s[i + j] != pat[j] {
            proof {
                assert(s@.subrange(i as int, i + pat@.len())[j as int] != pat@[j as int]);
            }
            return false;
        }
        j = j + 1;
    }
    proof {
        assert(s@.subrange(i as int, i + pat@.len()) =~= pat@);
    }
    true
}

/// The position of the first occurrence of `pat` in `s`, if any.
pub fn find_first(s: &[u8], pat: &[u8]) -> (r: Option<usize>)
    requires
        pat@.len() >= 1,
    ensures
        match r {
            Option::Some(i) => occurs_at(s@, pat@, i as int) && (forall|j: int|
                0 <= j < i ==> !occurs_at(s@, pat@, j)),
            Option::None => forall|j: int| !occurs_at(s@, pat@, j),
        },
{
    let n: usize = s.len();
    let m: usize = pat.len();
    if m > n {
        return Option::None;
    }
    let last_start: usize = n - m;
    let mut i: usize = 0;
    while i <= last_start
        invariant
            n == s@.len(),
            m == pat@.len(),
            1 <= m <= n,
            last_start == n - m,
            i <= last_start + 1,
            forall|j: int| 0 <= j < i ==> !occurs_at(s@, pat@, j),
        decreases last_start + 1 - i,
    {
        if matches_at(s, pat, i) {
            return Option::Some(i);
        }
        i = i + 1;
    }
    Option::None
}

/// Appends all of `src` to `dst`.
pub fn append_bytes(dst: &mut Vec<u8>, src: &[u8])
    ensures
        final(dst)@ == old(dst)@ + src@,
{
    let mut i: usize = 0;
    while i < src.len()
        invariant
            i <= src@.len(),
            dst@ == old(dst)@ + src@.subrange(0, i as int),
        decreases src@.len() - i,
    {
        dst.push(src[i]);
        i = i + 1;
        proof {
            assert(old(dst)@ + src@.subrange(0, i - 1) + seq![src@[i - 1]] =~= old(dst)@
                + src@.subrange(0, i as int));
        }
    }
    proof {
        assert(old(dst)@ + src@.subrange(0, src@.len() as int) =~= old(dst)@ + src@);
    }
}

/// A fresh copy of a byte vector.
pub fn clone_bytes(src: &Vec<u8>) -> (r: Vec<u8>)
    ensures
        r@ == src@,
{
    vstd::slice::slice_to_vec(src.as_slice())
}

/// A fresh copy of an optional byte vector.
pub fn clone_opt_bytes(src: &Option<Vec<u8>>) -> (r: Option<Vec<u8>>)
    ensures
        match src {
            Option::Some(v) => r matches Option::Some(w) && w@ == v@,
            Option::None => r matches Option::None,
        },
{
    match src {
        Option::Some(v) => Option::Some(clone_bytes(v)),
        Option::None => Option::None,
    }
}

/// `s` with the first occurrence of `pat` replaced by `rep`; `s` unchanged
/// when `pat` does not occur.  Only the first occurrence is touched: any
/// later occurrence of `pat` is carried over as it stands.
pub fn replace_first(s: &[u8], pat: &[u8], rep: &[u8]) -> (r: Vec<u8>)
    requires
        pat@.len() >= 1,
    ensures
        (exists|j: int| occurs_at(s@, pat@, j)) ==> exists|i: int|
            {
                &&& occurs_at(s@, pat@, i)
                &&& forall|j: int| 0 <= j < i ==> !occurs_at(s@, pat@, j)
                &&& r@ == s@.subrange(0, i) + rep@ + s@.subrange(i + pat@.len(), s@.len() as int)
            },
        (forall|j: int| !occurs_at(s@, pat@, j)) ==> r@ == s@,
{
    match find_first(s, pat) {
        Option::Some(i) => {
            let n: usize = s.len();
            let m: usize = pat.len();
            proof {
                assert(i + m <= n);
            }
            let mut out: Vec<u8> = Vec::new();
            let front = vstd::slice::slice_subrange(s, 0, i);
            append_bytes(&mut out, front);
            append_bytes(&mut out, rep);
            let back = vstd::slice::slice_subrange(s, i + m, n);
            append_bytes(&mut out, back);
            proof {
                assert(out@ == s@.subrange(0, i as int) + rep@ + s@.subrange(
                    i + pat@.len(),
                    s@.len() as int,
                ));
                assert(occurs_at(s@, pat@, i as int));
            }
            out
        },
        Option::None => {
            let r = vstd::slice::slice_to_vec(s);
            r
        },
    }
}

} // verus!
