//! The header multimap and the default-header injector.
//!
//! Headers are name/value pairs of bytes.  Name lookup is
//! ASCII-case-insensitive, as HTTP field names are; the injector adds a
//! header only when no header of that name is present, and always returns a
//! fresh multimap rather than mutating the one it was given.
use crate::text::clone_bytes;
use vstd::prelude::*;

verus! {

/// An ASCII byte with any upper-case letter folded to lower case.
pub open spec fn ascii_lower(b: u8) -> u8 {
    if 65 <= b <= 90 {
        (b + 32) as u8
    } else {
        b
    }
}

/// Case-insensitive equivalence of two header names.
pub open spec fn names_equiv(a: Seq<u8>, b: Seq<u8>) -> bool {
    a.map_values(|x: u8| ascii_lower(x)) == b.map_values(|x: u8| ascii_lower(x))
}

/// An ordered multimap of header name/value pairs.
pub struct Headers {
    pub entries: Vec<(Vec<u8>, Vec<u8>)>,
}

impl View for Headers {
    type V = Seq<(Seq<u8>, Seq<u8>)>;

    open spec fn view(&self) -> Seq<(Seq<u8>, Seq<u8>)> {
        self.entries@.map_values(|e: (Vec<u8>, Vec<u8>)| (e.0@, e.1@))
    }
}

/// Some entry of `h` has a name case-insensitively equal to `n`.
pub open spec fn spec_contains_name(h: Seq<(Seq<u8>, Seq<u8>)>, n: Seq<u8>) -> bool {
    exists|i: int| 0 <= i < h.len() && names_equiv(h[i].0, n)
}

/// Some entry of `h` has a name equal to `n`, byte for byte.
pub open spec fn spec_contains_name_exact(h: Seq<(Seq<u8>, Seq<u8>)>, n: Seq<u8>) -> bool {
    exists|i: int| 0 <= i < h.len() && h[i].0 == n
}

/// `h` unchanged when it already holds a header named `n`
/// (case-insensitively); otherwise `h` with `n: v` appended.
pub open spec fn spec_inject(h: Seq<(Seq<u8>, Seq<u8>)>, n: Seq<u8>, v: Seq<u8>) -> Seq<
    (Seq<u8>, Seq<u8>),
> {
    if spec_contains_name(h, n) {
        h
    } else {
        h.push((n, v))
    }
}

fn lower_byte(b: u8) -> (r: u8)
    ensures
        r == ascii_lower(b),
{
    if 65 <= b && b <= 90 {
        b + 32
    } else {
        b
    }
}

/// Case-insensitive equality of two header names.
pub fn names_equal_ci(a: &[u8], b: &[u8]) -> (r: bool)
    ensures
        r == names_equiv(a@, b@),
{
    if a.len() != b.len() {
        proof {
            assert(a@.map_values(|x: u8| ascii_lower(x)).len() != b@.map_values(
                |x: u8| ascii_lower(x),
            ).len());
        }
        return false;
    }
    let mut i: usize = 0;
    while i < a.len()
        invariant
            a@.len() == b@.len(),
            i <= a@.len(),
            forall|k: int| 0 <= k < i ==> ascii_lower(a@[k]) == ascii_lower(b@[k]),
        decreases a@.len() - i,
    {
        if lower_byte(a[i]) != lower_byte(b[i]) {
            proof {
                assert(a@.map_values(|x: u8| ascii_lower(x))[i as int] != b@.map_values(
                    |x: u8| ascii_lower(x),
                )[i as int]);
            }
            return false;
        }
        i = i + 1;
    }
    proof {
        assert(a@.map_values(|x: u8| ascii_lower(x)) =~= b@.map_values(|x: u8| ascii_lower(x)));
    }
    true
}

impl Headers {
    /// An empty multimap.
    pub fn new() -> (r: Headers)
        ensures
            r@ == Seq::<(Seq<u8>, Seq<u8>)>::empty(),
    {
        let r = Headers { entries: Vec::new() };
        proof {
            assert(r@ =~= Seq::<(Seq<u8>, Seq<u8>)>::empty());
        }
        r
    }

    /// Appends the entry `name: value`.
    pub fn append(&mut self, name: Vec<u8>, value: Vec<u8>)
        ensures
            final(self)@ == old(self)@.push((name@, value@)),
    {
        let ghost n = name@;
        let ghost v = value@;
        self.entries.push((name, value));
        proof {
            assert(self@ =~= old(self)@.push((n, v)));
        }
    }

    /// Whether some header has this name, ASCII-case-insensitively.
    pub fn contains_name(&self, name: &[u8]) -> (r: bool)
        ensures
            r == spec_contains_name(self@, name@),
    {
        let mut i: usize = 0;
        let n = self.entries.len();
        while i < n
            invariant
                n == self.entries@.len(),
                i <= n,
                forall|k: int| 0 <= k < i ==> !names_equiv(self@[k].0, name@),
            decreases n - i,
        {
            if names_equal_ci(self.entries[i].0.as_slice(), name) {
                proof {
                    assert(self@[i as int].0 == self.entries@[i as int].0@);
                    assert(spec_contains_name(self@, name@));
                }
                return true;
            }
            proof {
                assert(self@[i as int].0 == self.entries@[i as int].0@);
            }
            i = i + 1;
        }
        false
    }

    /// Whether some header has exactly this name, byte for byte.
    pub fn contains_name_exact(&self, name: &[u8]) -> (r: bool)
        ensures
            r == spec_contains_name_exact(self@, name@),
    {
        let mut i: usize = 0;
        let n = self.entries.len();
        while i < n
            invariant
                n == self.entries@.len(),
                i <= n,
                forall|k: int| 0 <= k < i ==> self@[k].0 != name@,
            decreases n - i,
        {
            if crate::text::bytes_eq(self.entries[i].0.as_slice(), name) {
                proof {
                    assert(self@[i as int].0 == self.entries@[i as int].0@);
                    assert(spec_contains_name_exact(self@, name@));
                }
                return true;
            }
            proof {
                assert(self@[i as int].0 == self.entries@[i as int].0@);
            }
            i = i + 1;
        }
        false
    }

    /// A fresh copy of this multimap.
    pub fn duplicate(&self) -> (r: Headers)
        ensures
            r@ == self@,
    {
        let mut out: Vec<(Vec<u8>, Vec<u8>)> = Vec::new();
        let n = self.entries.len();
        let mut i: usize = 0;
        while i < n
            invariant
                n == self.entries@.len(),
                i <= n,
                out@.len() == i,
                forall|k: int|
                    0 <= k < i ==> (out@[k].0@, out@[k].1@) == (
                        self.entries@[k].0@,
                        self.entries@[k].1@,
                    ),
            decreases n - i,
        {
            let name = clone_bytes(&self.entries[i].0);
            let value = clone_bytes(&self.entries[i].1);
            out.push((name, value));
            i = i + 1;
        }
        let r = Headers { entries: out };
        proof {
            assert(r@ =~= self@);
        }
        r
    }

    /// The injector: `self` with `name: value` appended, unless a header of
    /// that name (case-insensitively) is already present, in which case the
    /// result equals `self`.  The result is always a fresh multimap.
    pub fn inject_default(&self, name: &[u8], value: &[u8]) -> (r: Headers)
        ensures
            r@ == spec_inject(self@, name@, value@),
    {
        let mut out = self.duplicate();
        if !self.contains_name(name) {
            let n = vstd::slice::slice_to_vec(name);
            let v = vstd::slice::slice_to_vec(value);
            out.append(n, v);
        }
        out
    }
}

/// Injecting a default header is idempotent: doing it twice with the same
/// name and value gives the same multimap as doing it once.
pub proof fn lemma_inject_idempotent(h: Seq<(Seq<u8>, Seq<u8>)>, n: Seq<u8>, v: Seq<u8>)
    ensures
        spec_inject(spec_inject(h, n, v), n, v) == spec_inject(h, n, v),
{
    if spec_contains_name(h, n) {
    } else {
        let h2 = h.push((n, v));
        assert(h2[h.len() as int] == (n, v));
        assert(names_equiv(n, n));
        assert(spec_contains_name(h2, n));
    }
}

/// The injector never overwrites: when some header of that name is already
/// present, the multimap comes back unchanged, whatever value it held.
pub proof fn lemma_inject_never_overwrites(
    h: Seq<(Seq<u8>, Seq<u8>)>,
    n: Seq<u8>,
    v: Seq<u8>,
    i: int,
)
    requires
        0 <= i < h.len(),
        names_equiv(h[i].0, n),
    ensures
        spec_inject(h, n, v) == h,
{
    assert(spec_contains_name(h, n));
}

/// Every entry that was present before injection is still present, at its
/// position and with its value, after it.
pub proof fn lemma_inject_preserves_entries(
    h: Seq<(Seq<u8>, Seq<u8>)>,
    n: Seq<u8>,
    v: Seq<u8>,
    i: int,
)
    requires
        0 <= i < h.len(),
    ensures
        spec_inject(h, n, v).len() >= h.len(),
        spec_inject(h, n, v)[i] == h[i],
{
}

} // verus!
