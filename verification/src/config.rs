//! The proxy's configuration: the target base URL (trailing slashes
//! stripped), the source path prefix (leading and trailing slashes
//! stripped, possibly empty), and the optional default `Cache-Control`
//! value.  Built once at startup and read by every request.
use crate::text::clone_opt_bytes;
use vstd::prelude::*;

verus! {

pub const SLASH: u8 = 47;

/// `s` with every trailing `/` removed.
pub open spec fn spec_trim_end_slashes(s: Seq<u8>) -> Seq<u8>
    decreases s.len(),
{
    if s.len() > 0 && s.last() == SLASH {
        spec_trim_end_slashes(s.drop_last())
    } else {
        s
    }
}

/// `s` with every leading `/` removed.
pub open spec fn spec_trim_start_slashes(s: Seq<u8>) -> Seq<u8>
    decreases s.len(),
{
    if s.len() > 0 && s.first() == SLASH {
        spec_trim_start_slashes(s.drop_first())
    } else {
        s
    }
}

/// `s` with every leading and trailing `/` removed.
pub open spec fn spec_trim_slashes(s: Seq<u8>) -> Seq<u8> {
    spec_trim_start_slashes(spec_trim_end_slashes(s))
}

/// The result of trimming trailing slashes never ends with one.
pub proof fn lemma_trim_end_no_trailing(s: Seq<u8>)
    ensures
        spec_trim_end_slashes(s).len() > 0 ==> spec_trim_end_slashes(s).last() != SLASH,
    decreases s.len(),
{
    if s.len() > 0 && s.last() == SLASH {
        lemma_trim_end_no_trailing(s.drop_last());
    }
}

/// The result of trimming leading slashes never starts with one.
pub proof fn lemma_trim_start_no_leading(s: Seq<u8>)
    ensures
        spec_trim_start_slashes(s).len() > 0 ==> spec_trim_start_slashes(s).first() != SLASH,
    decreases s.len(),
{
    if s.len() > 0 && s.first() == SLASH {
        lemma_trim_start_no_leading(s.drop_first());
    }
}

/// Trimming leading slashes keeps the last byte of a sequence that does not
/// wholly consist of slashes.
pub proof fn lemma_trim_start_keeps_last(s: Seq<u8>)
    ensures
        spec_trim_start_slashes(s).len() > 0 ==> spec_trim_start_slashes(s).last() == s.last(),
    decreases s.len(),
{
    if s.len() > 0 && s.first() == SLASH {
        lemma_trim_start_keeps_last(s.drop_first());
        if spec_trim_start_slashes(s).len() > 0 {
            assert(s.drop_first().last() == s.last());
        }
    }
}

/// `s` with every trailing `/` removed.
pub fn trim_end_slashes(s: &[u8]) -> (r: Vec<u8>)
    ensures
        r@ == spec_trim_end_slashes(s@),
{
    let n: usize = s.len();
    let mut end: usize = n;
    proof {
        assert(s@.subrange(0, n as int) =~= s@);
    }
    while end > 0 && s[end - 1] == SLASH
        invariant
            n == s@.len(),
            end <= n,
            spec_trim_end_slashes(s@) == spec_trim_end_slashes(s@.subrange(0, end as int)),
        decreases end,
    {
        proof {
            let t = s@.subrange(0, end as int);
            assert(t.last() == SLASH);
            assert(t.drop_last() =~= s@.subrange(0, end - 1));
        }
        end = end - 1;
    }
    proof {
        let t = s@.subrange(0, end as int);
        if end > 0 {
            assert(t.last() == s@[end - 1]);
            assert(spec_trim_end_slashes(t) == t);
        } else {
            assert(t.len() == 0);
            assert(spec_trim_end_slashes(t) == t);
        }
    }
    vstd::slice::slice_to_vec(vstd::slice::slice_subrange(s, 0, end))
}

/// `s` with every leading `/` removed.
pub fn trim_start_slashes(s: &[u8]) -> (r: Vec<u8>)
    ensures
        r@ == spec_trim_start_slashes(s@),
{
    let n: usize = s.len();
    let mut start: usize = 0;
    proof {
        assert(s@.subrange(0, n as int) =~= s@);
    }
    while start < n && s[start] == SLASH
        invariant
            n == s@.len(),
            start <= n,
            spec_trim_start_slashes(s@) == spec_trim_start_slashes(
                s@.subrange(start as int, n as int),
            ),
        decreases n - start,
    {
        proof {
            let t = s@.subrange(start as int, n as int);
            assert(t.first() == SLASH);
            assert(t.drop_first() =~= s@.subrange(start + 1, n as int));
        }
        start = start + 1;
    }
    proof {
        let t = s@.subrange(start as int, n as int);
        if start < n {
            assert(t.first() == s@[start as int]);
            assert(spec_trim_start_slashes(t) == t);
        } else {
            assert(t.len() == 0);
            assert(spec_trim_start_slashes(t) == t);
        }
    }
    vstd::slice::slice_to_vec(vstd::slice::slice_subrange(s, start, n))
}

/// `s` with every leading and trailing `/` removed.
pub fn trim_slashes(s: &[u8]) -> (r: Vec<u8>)
    ensures
        r@ == spec_trim_slashes(s@),
{
    let t = trim_end_slashes(s);
    trim_start_slashes(t.as_slice())
}

/// The configuration of the proxy, built once at startup.
#[derive(Clone)]
pub struct ProxyConfig {
    /// The upstream origin; never ends with `/`.
    pub target_base_url: Vec<u8>,
    /// The path prefix stripped before forwarding; never starts or ends
    /// with `/`; empty means the proxy serves from the root.
    pub source_prefix: Vec<u8>,
    /// The `Cache-Control` value injected when the origin set none.
    pub default_cache_control: Option<Vec<u8>>,
}

impl ProxyConfig {
    /// The configuration's invariant.
    pub open spec fn wf(self) -> bool {
        &&& (self.target_base_url@.len() > 0 ==> self.target_base_url@.last() != SLASH)
        &&& (self.source_prefix@.len() > 0 ==> self.source_prefix@.first() != SLASH
            && self.source_prefix@.last() != SLASH)
    }

    /// Builds the configuration from the raw option values: trailing
    /// slashes are stripped from the target URL, surrounding slashes from
    /// the source prefix; the cache-control value is kept as given.
    pub fn new(target: &[u8], source: &[u8], cache: &Option<Vec<u8>>) -> (c: ProxyConfig)
        ensures
            c.target_base_url@ == spec_trim_end_slashes(target@),
            c.source_prefix@ == spec_trim_slashes(source@),
            match cache {
                Option::Some(v) => c.default_cache_control matches Option::Some(w) && w@ == v@,
                Option::None => c.default_cache_control matches Option::None,
            },
            c.wf(),
    {
        let target_base_url = trim_end_slashes(target);
        let source_prefix = trim_slashes(source);
        proof {
            lemma_trim_end_no_trailing(target@);
            lemma_trim_start_no_leading(spec_trim_end_slashes(source@));
            lemma_trim_end_no_trailing(source@);
            lemma_trim_start_keeps_last(spec_trim_end_slashes(source@));
        }
        ProxyConfig { target_base_url, source_prefix, default_cache_control: clone_opt_bytes(cache) }
    }
}

} // verus!
