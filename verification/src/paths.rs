//! The path matcher and the URI rewriter.
//!
//! A request path is classified against the configured source prefix:
//! an exact match of `/<prefix>` redirects to the prefix path, a path
//! under the prefix path is proxied with the prefix stripped, and
//! everything else is no match.  The prefix path is `/<prefix>/`, or `/`
//! when the prefix is empty, so an empty prefix proxies everything under
//! the root except the bare `/`, which redirects to `/`.  (For a non-empty
//! prefix the two rules cannot both apply: `/<prefix>` is shorter than
//! `/<prefix>/`.)
//!
//! Rewriting replaces the first occurrence of the prefix path with `/`, as
//! a literal substring replacement: when the same substring occurs again
//! later in the path, only the first occurrence is touched and the rest of
//! the path is carried over byte for byte, query string included.
use crate::config::ProxyConfig;
use crate::config::SLASH;
use crate::text::append_bytes;
use crate::text::bytes_eq;
use crate::text::clone_opt_bytes;
use crate::text::occurs_at;
use crate::text::replace_first;
use crate::text::starts_with;
use vstd::prelude::*;

verus! {

/// The classification of a request path.
#[derive(Clone, Copy, PartialEq, Eq, Structural, Debug)]
pub enum MatchResult {
    /// The path lies under the prefix path and is proxied.
    ProxyMatch,
    /// The path is exactly `/<prefix>`; the client is redirected to the
    /// prefix path.
    Redirect,
    /// The path is unrelated to the prefix.
    NoMatch,
}

/// The exact-match form of the source prefix: `/<prefix>`.
pub open spec fn spec_match_path(prefix: Seq<u8>) -> Seq<u8> {
    seq![SLASH] + prefix
}

/// The prefix path stripped from proxied requests: `/<prefix>/`, or `/`
/// for an empty prefix.
pub open spec fn spec_prefix_path(prefix: Seq<u8>) -> Seq<u8> {
    if prefix.len() == 0 {
        seq![SLASH]
    } else {
        seq![SLASH] + prefix + seq![SLASH]
    }
}

/// The classification rule: an exact match of `/<prefix>` redirects, a
/// path beginning with the prefix path is proxied, anything else is no
/// match.
pub open spec fn spec_classify(path: Seq<u8>, prefix: Seq<u8>) -> MatchResult {
    if path == spec_match_path(prefix) {
        MatchResult::Redirect
    } else if spec_prefix_path(prefix).is_prefix_of(path) {
        MatchResult::ProxyMatch
    } else {
        MatchResult::NoMatch
    }
}

/// The proxied path after stripping: `/` followed by what stood after the
/// prefix path.
pub open spec fn spec_rewrite_path(path: Seq<u8>, prefix_path: Seq<u8>) -> Seq<u8> {
    seq![SLASH] + path.skip(prefix_path.len() as int)
}

impl ProxyConfig {
    /// The exact-match form of the source prefix: `/<prefix>`.
    pub fn match_path(&self) -> (r: Vec<u8>)
        ensures
            r@ == spec_match_path(self.source_prefix@),
    {
        let mut r: Vec<u8> = Vec::new();
        r.push(SLASH);
        proof {
            assert(r@ =~= seq![SLASH]);
        }
        append_bytes(&mut r, self.source_prefix.as_slice());
        r
    }

    /// The prefix path stripped from proxied requests: `/<prefix>/`, or
    /// `/` for an empty prefix.
    pub fn prefix_path(&self) -> (r: Vec<u8>)
        ensures
            r@ == spec_prefix_path(self.source_prefix@),
    {
        let mut r: Vec<u8> = Vec::new();
        r.push(SLASH);
        proof {
            assert(r@ =~= seq![SLASH]);
        }
        if self.source_prefix.len() > 0 {
            append_bytes(&mut r, self.source_prefix.as_slice());
            r.push(SLASH);
            proof {
                assert(r@ =~= seq![SLASH] + self.source_prefix@ + seq![SLASH]);
            }
        }
        r
    }
}

/// Classifies `path` against the source prefix.
pub fn classify(path: &[u8], config: &ProxyConfig) -> (r: MatchResult)
    ensures
        r == spec_classify(path@, config.source_prefix@),
{
    let mp = config.match_path();
    if bytes_eq(path, mp.as_slice()) {
        return MatchResult::Redirect;
    }
    let pp = config.prefix_path();
    if starts_with(path, pp.as_slice()) {
        return MatchResult::ProxyMatch;
    }
    MatchResult::NoMatch
}

/// Rewrites a matched path for forwarding: the first occurrence of the
/// prefix path is replaced by `/` and the query string is passed through
/// byte for byte.  Since the path begins with the prefix path, the first
/// occurrence is the leading one, so the result is `/` followed by the
/// rest of the path.
pub fn rewrite(path: &[u8], query: &Option<Vec<u8>>, prefix_path: &[u8]) -> (r: (
    Vec<u8>,
    Option<Vec<u8>>,
))
    requires
        prefix_path@.len() >= 1,
        prefix_path@.is_prefix_of(path@),
    ensures
        r.0@ == spec_rewrite_path(path@, prefix_path@),
        match query {
            Option::Some(q) => r.1 matches Option::Some(w) && w@ == q@,
            Option::None => r.1 matches Option::None,
        },
{
    let mut slash: Vec<u8> = Vec::new();
    slash.push(SLASH);
    proof {
        assert(slash@ =~= seq![SLASH]);
        assert(occurs_at(path@, prefix_path@, 0)) by {
            assert(path@.subrange(0, prefix_path@.len() as int) =~= prefix_path@);
        }
    }
    let new_path = replace_first(path, prefix_path, slash.as_slice());
    proof {
        let i = choose|i: int|
            occurs_at(path@, prefix_path@, i) && (forall|j: int|
                0 <= j < i ==> !occurs_at(path@, prefix_path@, j)) && new_path@ == path@.subrange(
                0,
                i,
            ) + slash@ + path@.subrange(i + prefix_path@.len(), path@.len() as int);
        assert(i == 0);
        assert(path@.subrange(0, 0) =~= Seq::<u8>::empty());
        assert(new_path@ =~= spec_rewrite_path(path@, prefix_path@));
    }
    (new_path, clone_opt_bytes(query))
}

/// For a non-empty prefix the two matching rules cannot both apply: the
/// exact-match form `/<prefix>` is shorter than the prefix path
/// `/<prefix>/`, so checking the exact match first changes nothing.  (For
/// an empty prefix it does: the bare `/` equals the match path and also
/// begins with the prefix path `/`, and it is the redirect that wins.)
pub proof fn lemma_rules_disjoint_for_nonempty_prefix(prefix: Seq<u8>)
    requires
        prefix.len() > 0,
    ensures
        !spec_prefix_path(prefix).is_prefix_of(spec_match_path(prefix)),
{
    assert(spec_match_path(prefix).len() < spec_prefix_path(prefix).len());
}

/// A path that neither lies under the prefix path nor equals `/<prefix>`
/// is no match.
pub proof fn lemma_unmatched_is_no_match(path: Seq<u8>, prefix: Seq<u8>)
    requires
        !spec_prefix_path(prefix).is_prefix_of(path),
        path != spec_match_path(prefix),
    ensures
        spec_classify(path, prefix) == MatchResult::NoMatch,
{
}

/// A path under the prefix path, other than the bare `/<prefix>`, is
/// proxied, and rewriting strips exactly the leading occurrence of the
/// prefix path: the rewritten path is `/` followed by everything after
/// the prefix path, and any later occurrence of the prefix path is still
/// there, shifted by the stripped length.
pub proof fn lemma_prefix_match_proxies(path: Seq<u8>, prefix: Seq<u8>)
    requires
        spec_prefix_path(prefix).is_prefix_of(path),
        path != spec_match_path(prefix),
    ensures
        spec_classify(path, prefix) == MatchResult::ProxyMatch,
        occurs_at(path, spec_prefix_path(prefix), 0),
        spec_rewrite_path(path, spec_prefix_path(prefix)) == seq![SLASH] + path.skip(
            spec_prefix_path(prefix).len() as int,
        ),
        forall|j: int|
            spec_prefix_path(prefix).len() <= j && occurs_at(path, spec_prefix_path(prefix), j)
                ==> occurs_at(
                spec_rewrite_path(path, spec_prefix_path(prefix)),
                spec_prefix_path(prefix),
                j - spec_prefix_path(prefix).len() + 1,
            ),
{
    let pp = spec_prefix_path(prefix);
    let m = pp.len() as int;
    let rew = spec_rewrite_path(path, pp);
    assert(occurs_at(path, pp, 0)) by {
        assert(path.subrange(0, m) =~= pp);
    }
    assert forall|j: int| m <= j && occurs_at(path, pp, j) implies occurs_at(
        rew,
        pp,
        j - m + 1,
    ) by {
        assert(rew.len() == 1 + path.len() - m);
        assert(rew.subrange(j - m + 1, j - m + 1 + m) =~= path.subrange(j, j + m));
    }
}

} // verus!
