//! Request classification: a path is either an asset request under the
//! `/assets/` prefix, naming a safe relative file path, or it is handled by
//! the fallback (the single-page application's entry document).

use vstd::prelude::*;

verus! {

/// The path names a file under the asset prefix: it starts with `/assets/`
/// and at least one character follows the prefix.
pub open spec fn is_asset_request(p: Seq<char>) -> bool {
    &&& p.len() > 8
    &&& p[0] == '/'
    &&& p[1] == 'a'
    &&& p[2] == 's'
    &&& p[3] == 's'
    &&& p[4] == 'e'
    &&& p[5] == 't'
    &&& p[6] == 's'
    &&& p[7] == '/'
}

/// What remains of an asset request once the `/assets/` prefix is stripped.
pub open spec fn asset_rel_of(p: Seq<char>) -> Seq<char> {
    p.subrange(8, p.len() as int)
}

/// Two adjacent slashes start at position `i`: an empty path segment.
pub open spec fn double_slash_at(r: Seq<char>, i: int) -> bool {
    &&& 0 <= i
    &&& i + 1 < r.len()
    &&& r[i] == '/'
    &&& r[i + 1] == '/'
}

/// A whole path segment `..` starts at position `i`.
pub open spec fn dotdot_at(r: Seq<char>, i: int) -> bool {
    &&& 0 <= i
    &&& i + 2 <= r.len()
    &&& r[i] == '.'
    &&& r[i + 1] == '.'
    &&& (i == 0 || r[i - 1] == '/')
    &&& (i + 2 == r.len() || r[i + 2] == '/')
}

/// A relative path is safe to resolve under the asset root: it is non-empty,
/// has no empty segment (no leading, trailing or doubled slash) and no `..`
/// segment, so it cannot escape the root directory.
pub open spec fn is_safe_rel(r: Seq<char>) -> bool {
    &&& r.len() > 0
    &&& r[0] != '/'
    &&& r[r.len() - 1] != '/'
    &&& !(exists|i: int| double_slash_at(r, i))
    &&& !(exists|i: int| dotdot_at(r, i))
}

/// How a request path is routed: `Some(rel)` when the asset server should
/// try the file `rel` under the asset root, `None` when the request goes
/// straight to the fallback handler.
pub open spec fn spec_classify(p: Seq<char>) -> Option<Seq<char>> {
    if is_asset_request(p) && is_safe_rel(asset_rel_of(p)) {
        Some(asset_rel_of(p))
    } else {
        None
    }
}

/// The routing decision for one request.
#[derive(Debug, PartialEq, Eq)]
pub enum RouteDecision {
    /// Try the file at this path, relative to the asset root.
    Asset(String),
    /// Serve the entry document.
    Fallback,
}

/// Mathematical model of a [`RouteDecision`].
pub open spec fn decision_view(d: RouteDecision) -> Option<Seq<char>> {
    match d {
        RouteDecision::Asset(rel) => Some(rel@),
        RouteDecision::Fallback => None,
    }
}

/// Files outside the asset root are not reachable through the asset route:
/// whenever classification routes a path to the asset server, the relative
/// path it hands over is exactly the request path without its prefix, and it
/// is safe — it cannot name anything above the root directory.
pub proof fn lemma_asset_requests_stay_under_root(p: Seq<char>)
    ensures
        (spec_classify(p) is Some) ==> spec_classify(p).unwrap() == asset_rel_of(p)
            && is_safe_rel(spec_classify(p).unwrap()),
{
}

/// Decides whether `rel` is safe to resolve under the asset root.
fn rel_is_safe(rel: &str) -> (b: bool)
    ensures
        b == is_safe_rel(rel@),
{
    let n = rel.unicode_len();
    if n == 0 {
        return false;
    }
    if rel.get_char(0) == '/' {
        return false;
    }
    if rel.get_char(n - 1) == '/' {
        return false;
    }
    let mut i: usize = 0;
    while i < n
        invariant
            0 < n,
            n == rel@.len(),
            i <= n,
            forall|j: int| 0 <= j < i ==> !double_slash_at(rel@, j),
            forall|j: int| 0 <= j < i ==> !dotdot_at(rel@, j),
        decreases n - i,
    {
        let c = rel.get_char(i);
        if c == '/' && i + 1 < n && rel.get_char(i + 1) == '/' {
            proof {
                assert(double_slash_at(rel@, i as int));
            }
            return false;
        }
        if c == '.' && n - i >= 2 && rel.get_char(i + 1) == '.' {
            let before_ok = i == 0 || rel.get_char(i - 1) == '/';
            let after_ok = n - i == 2 || rel.get_char(i + 2) == '/';
            if before_ok && after_ok {
                proof {
                    assert(dotdot_at(rel@, i as int));
                }
                return false;
            }
        }
        proof {
            assert(!double_slash_at(rel@, i as int));
            assert(!dotdot_at(rel@, i as int));
        }
        i = i + 1;
    }
    proof {
        assert forall|j: int| !double_slash_at(rel@, j) by {
            if 0 <= j < n as int {
                assert(!double_slash_at(rel@, j));
            }
        }
        assert forall|j: int| !dotdot_at(rel@, j) by {
            if 0 <= j < n as int {
                assert(!dotdot_at(rel@, j));
            }
        }
    }
    true
}

/// Classifies a request path: an asset request with a safe relative path is
/// routed to the asset server, everything else to the fallback handler.
pub fn classify(path: &String) -> (d: RouteDecision)
    ensures
        decision_view(d) == spec_classify(path@),
{
    let s = path.as_str();
    let n = s.unicode_len();
    if n <= 8 {
        return RouteDecision::Fallback;
    }
    let prefix_ok = s.get_char(0) == '/' && s.get_char(1) == 'a' && s.get_char(2) == 's'
        && s.get_char(3) == 's' && s.get_char(4) == 'e' && s.get_char(5) == 't'
        && s.get_char(6) == 's' && s.get_char(7) == '/';
    if !prefix_ok {
        return RouteDecision::Fallback;
    }
    let rel = s.substring_char(8, n);
    proof {
        assert(rel@ =~= asset_rel_of(path@));
    }
    if rel_is_safe(rel) {
        RouteDecision::Asset(String::from_str(rel))
    } else {
        RouteDecision::Fallback
    }
}

} // verus!
