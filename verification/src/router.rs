//! The request router: maps a method and a path onto a handler by exact
//! match, with no state of its own.
//!
//! The table is the one of the service: `GET /` (index), `GET /health`
//! (health), and `GET`/`PUT`/`DELETE` on `/api/{key}` where the key is a
//! single non-empty path segment. Anything else is a routing mismatch:
//! a GET that matches nothing is not found, every other method falls to
//! method-not-allowed.

use vstd::prelude::*;
use vstd::string::StrSliceExecFns;

verus! {

/// The request methods the service distinguishes; every HTTP method
/// beyond the three routed ones is `Other`.
#[derive(Clone, Copy, Debug, PartialEq, Eq, Structural)]
pub enum Method {
    Get,
    Put,
    Delete,
    Other,
}

/// The routing decision, carrying the extracted key for the record
/// endpoints.
pub enum RouteTarget {
    Index,
    Health,
    ApiGet(String),
    ApiPut(String),
    ApiDelete(String),
    NotFound,
    MethodNotAllowed,
}

/// The routing decision at the specification level.
pub enum RouteSpec {
    Index,
    Health,
    ApiGet(Seq<char>),
    ApiPut(Seq<char>),
    ApiDelete(Seq<char>),
    NotFound,
    MethodNotAllowed,
}

/// The index path `/`.
pub open spec fn root_path() -> Seq<char> {
    seq!['/']
}

/// The health path `/health`.
pub open spec fn health_path() -> Seq<char> {
    seq!['/', 'h', 'e', 'a', 'l', 't', 'h']
}

/// The prefix `/api/` of the record endpoints.
pub open spec fn api_prefix() -> Seq<char> {
    seq!['/', 'a', 'p', 'i', '/']
}

/// The path addresses a record: `/api/` followed by a non-empty key
/// that is a single segment (no further `/`).
pub open spec fn is_api_path(p: Seq<char>) -> bool {
    &&& p.len() > 5
    &&& p.subrange(0, 5) == api_prefix()
    &&& (forall|i: int| 5 <= i < p.len() ==> p[i] != '/')
}

/// The key addressed by a record path.
pub open spec fn api_key(p: Seq<char>) -> Seq<char> {
    p.subrange(5, p.len() as int)
}

/// The routing table, evaluated by exact method and path match.
pub open spec fn route_spec(m: Method, p: Seq<char>) -> RouteSpec {
    if is_api_path(p) {
        match m {
            Method::Get => RouteSpec::ApiGet(api_key(p)),
            Method::Put => RouteSpec::ApiPut(api_key(p)),
            Method::Delete => RouteSpec::ApiDelete(api_key(p)),
            Method::Other => RouteSpec::MethodNotAllowed,
        }
    } else if p == root_path() {
        if m is Get {
            RouteSpec::Index
        } else {
            RouteSpec::MethodNotAllowed
        }
    } else if p == health_path() {
        if m is Get {
            RouteSpec::Health
        } else {
            RouteSpec::MethodNotAllowed
        }
    } else {
        if m is Get {
            RouteSpec::NotFound
        } else {
            RouteSpec::MethodNotAllowed
        }
    }
}

/// The executable decision agrees with the specification-level one,
/// key included.
pub open spec fn target_matches(t: RouteTarget, s: RouteSpec) -> bool {
    match s {
        RouteSpec::Index => t is Index,
        RouteSpec::Health => t is Health,
        RouteSpec::ApiGet(k) => t matches RouteTarget::ApiGet(ek) && ek@ == k,
        RouteSpec::ApiPut(k) => t matches RouteTarget::ApiPut(ek) && ek@ == k,
        RouteSpec::ApiDelete(k) => t matches RouteTarget::ApiDelete(ek) && ek@ == k,
        RouteSpec::NotFound => t is NotFound,
        RouteSpec::MethodNotAllowed => t is MethodNotAllowed,
    }
}

/// Maps a method and a path onto the handler the table names.
pub fn route(m: Method, path: &str) -> (t: RouteTarget)
    ensures
        target_matches(t, route_spec(m, path@)),
{
    let n = path.unicode_len();
    if n > 5
        && path.get_char(0) == '/'
        && path.get_char(1) == 'a'
        && path.get_char(2) == 'p'
        && path.get_char(3) == 'i'
        && path.get_char(4) == '/'
    {
        let mut single_segment = true;
        let mut i: usize = 5;
        while i < n
            invariant
                5 <= i <= n,
                n == path@.len(),
                single_segment <==> (forall|j: int| 5 <= j < i ==> path@[j] != '/'),
            decreases n - i,
        {
            if path.get_char(i) == '/' {
                single_segment = false;
            }
            i = i + 1;
        }
        if single_segment {
            proof {
                assert(path@.subrange(0, 5) =~= api_prefix());
                assert(is_api_path(path@));
            }
            let key = path.substring_char(5, n).to_owned();
            proof {
                assert(key@ =~= api_key(path@));
            }
            match m {
                Method::Get => RouteTarget::ApiGet(key),
                Method::Put => RouteTarget::ApiPut(key),
                Method::Delete => RouteTarget::ApiDelete(key),
                Method::Other => RouteTarget::MethodNotAllowed,
            }
        } else {
            proof {
                assert(!is_api_path(path@));
                assert(path@ != root_path());
                assert(path@ != health_path());
            }
            not_matched(m)
        }
    } else {
        proof {
            if is_api_path(path@) {
                assert(path@[0] == api_prefix()[0]);
                assert(path@[1] == api_prefix()[1]);
                assert(path@[2] == api_prefix()[2]);
                assert(path@[3] == api_prefix()[3]);
                assert(path@[4] == api_prefix()[4]);
                assert(false);
            }
        }
        if n == 1 && path.get_char(0) == '/' {
            proof {
                assert(path@ =~= root_path());
            }
            if matches!(m, Method::Get) {
                RouteTarget::Index
            } else {
                RouteTarget::MethodNotAllowed
            }
        } else if n == 7
            && path.get_char(0) == '/'
            && path.get_char(1) == 'h'
            && path.get_char(2) == 'e'
            && path.get_char(3) == 'a'
            && path.get_char(4) == 'l'
            && path.get_char(5) == 't'
            && path.get_char(6) == 'h'
        {
            proof {
                assert(path@ =~= health_path());
            }
            if matches!(m, Method::Get) {
                RouteTarget::Health
            } else {
                RouteTarget::MethodNotAllowed
            }
        } else {
            proof {
                assert(path@ != root_path());
                assert(path@ != health_path());
            }
            not_matched(m)
        }
    }
}

/// The uniform answer to a request no route matches.
fn not_matched(m: Method) -> (t: RouteTarget)
    ensures
        m is Get ==> t is NotFound,
        !(m is Get) ==> t is MethodNotAllowed,
{
    if matches!(m, Method::Get) {
        RouteTarget::NotFound
    } else {
        RouteTarget::MethodNotAllowed
    }
}

} // verus!
