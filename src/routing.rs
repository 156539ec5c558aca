//! The server's top-level route table, stated over the bytes of a request path.
//!
//! Three mounts exist: the API router nested under `/api`, which takes every
//! request method, a static-file route for `GET /*path`, and a static index
//! route for `GET /`. The static routes also answer `HEAD`, and refuse every
//! other method.
use vstd::prelude::*;
use vstd::string::StringSliceAdditionalSpecFns;
use vstd::utf8::{
    encode_utf8_valid_utf8, is_char_boundary, is_char_boundary_iff_is_leading_byte,
    is_char_boundary_start_end_of_seq,
};

verus! {

/// The byte `/`.
pub const SLASH: u8 = 47;

/// The byte `a`.
pub const LOWER_A: u8 = 97;

/// The byte `p`.
pub const LOWER_P: u8 = 112;

/// The byte `i`.
pub const LOWER_I: u8 = 105;

/// The byte `G`.
pub const UPPER_G: u8 = 71;

/// The byte `E`.
pub const UPPER_E: u8 = 69;

/// The byte `T`.
pub const UPPER_T: u8 = 84;

/// The byte `H`.
pub const UPPER_H: u8 = 72;

/// The byte `A`.
pub const UPPER_A: u8 = 65;

/// The byte `D`.
pub const UPPER_D: u8 = 68;

/// Where the route table sends a request.
///
/// [`resolve`] decides by the path alone, as for a `GET` or `HEAD` request;
/// [`resolve_request`] also weighs the request method.
#[derive(Clone, Copy, Debug, PartialEq, Eq, Structural)]
pub enum Target {
    /// The nested API router (`/api` and everything below it).
    Api,
    /// The static-file handler, for any other path below `/`.
    StaticPath,
    /// The static index page, for `/` itself.
    StaticIndex,
    /// No mount matches: the path does not start with `/`.
    NotFound,
    /// A static route matches the path, but not the method: only `GET` and
    /// `HEAD` are served there.
    MethodNotAllowed,
}

/// The mount point of the API router.
pub open spec fn api_mount() -> Seq<u8> {
    seq![SLASH, LOWER_A, LOWER_P, LOWER_I]
}

/// `p` is `/api` itself or a path below it (`/api/...`); `/apix` is not.
pub open spec fn is_api_path(p: Seq<u8>) -> bool {
    p.len() >= 4 && p.subrange(0, 4) == api_mount() && (p.len() == 4 || p[4] == SLASH)
}

/// The handler that the route table gives to the path `p`.
pub open spec fn target_of(p: Seq<u8>) -> Target {
    if p.len() == 0 || p[0] != SLASH {
        Target::NotFound
    } else if p.len() == 1 {
        Target::StaticIndex
    } else if is_api_path(p) {
        Target::Api
    } else {
        Target::StaticPath
    }
}

/// Picks the handler for a `GET` or `HEAD` request to a path; see
/// [`resolve_request`] for other methods.
///
/// API paths go to the API router and never to a static handler; `/` goes to
/// the index page; every other path below `/` goes to the static-file handler.
pub fn resolve(path: &str) -> (t: Target)
    ensures
        t == target_of(path.spec_bytes()),
        is_api_path(path.spec_bytes()) <==> t == Target::Api,
        path.spec_bytes() == seq![SLASH] <==> t == Target::StaticIndex,
        t == Target::StaticPath <==> (path.spec_bytes().len() > 1 && path.spec_bytes()[0] == SLASH
            && !is_api_path(path.spec_bytes())),
{
    let b = path.as_bytes();
    let n = b.len();
    proof {
        assert(b@ == path.spec_bytes());
    }
    if n == 0 || b[0] != SLASH {
        return Target::NotFound;
    }
    if n == 1 {
        assert(b@ =~= seq![SLASH]);
        return Target::StaticIndex;
    }
    let under_mount = n >= 4 && b[1] == LOWER_A && b[2] == LOWER_P && b[3] == LOWER_I && (n == 4
        || b[4] == SLASH);
    proof {
        if n >= 4 {
            let head = b@.subrange(0, 4);
            assert(head[0] == b@[0] && head[1] == b@[1] && head[2] == b@[2] && head[3] == b@[3]);
            if b[1] == LOWER_A && b[2] == LOWER_P && b[3] == LOWER_I {
                assert(head =~= api_mount());
            } else {
                assert(api_mount()[1] == LOWER_A && api_mount()[2] == LOWER_P && api_mount()[3] == LOWER_I);
                assert(head != api_mount());
            }
        }
    }
    if under_mount {
        Target::Api
    } else {
        Target::StaticPath
    }
}

/// The part of the path `p` that its mount hands on: below `/api`, what follows
/// the mount, or `/` for the bare mount `/api`; below `/`, what follows the leading slash (the `*path` capture);
/// nothing for the index page or for a path that no mount matches.
pub open spec fn handed_on(p: Seq<u8>) -> Option<Seq<u8>> {
    match target_of(p) {
        Target::Api => if p.len() == 4 {
            Some(seq![SLASH])
        } else {
            Some(p.subrange(4, p.len() as int))
        },
        Target::StaticPath => Some(p.subrange(1, p.len() as int)),
        _ => None,
    }
}

/// Splits `s` at byte `k`, where `s` holds an ASCII byte or ends, or which
/// follows an ASCII first byte.
fn split_at_ascii(s: &str, k: usize) -> (r: (&str, &str))
    requires
        k <= s.spec_bytes().len(),
        k == s.spec_bytes().len() || s.spec_bytes()[k as int] < 128 || (k == 1
            && s.spec_bytes()[0] < 128),
    ensures
        r.0.spec_bytes() == s.spec_bytes().subrange(0, k as int),
        r.1.spec_bytes() == s.spec_bytes().subrange(k as int, s.spec_bytes().len() as int),
{
    proof {
        broadcast use encode_utf8_valid_utf8;

        let b = s.spec_bytes();
        if k == b.len() {
            is_char_boundary_start_end_of_seq(b);
        } else if k == 1 && b[0] < 128 {
            reveal_with_fuel(is_char_boundary, 2);
        } else {
            is_char_boundary_iff_is_leading_byte(b, k as int);
        }
        assert(is_char_boundary(b, k as int));
    }
    s.split_at(k)
}

/// The part of a request path that its mount hands on to its handler.
pub fn forwarded_path(path: &str) -> (r: Option<&str>)
    ensures
        r.is_some() <==> handed_on(path.spec_bytes()).is_some(),
        r.is_some() ==> handed_on(path.spec_bytes()) == Some(r.unwrap().spec_bytes()),
{
    match resolve(path) {
        Target::Api => {
            if path.as_bytes().len() == 4 {
                let (slash, _) = split_at_ascii(path, 1);
                assert(slash.spec_bytes() =~= seq![SLASH]);
                Some(slash)
            } else {
                let rest = split_at_ascii(path, 4).1;
                Some(rest)
            }
        },
        Target::StaticPath => Some(split_at_ascii(path, 1).1),
        _ => None,
    }
}

/// `m` is the method `GET` or `HEAD`, which the static routes serve.
pub open spec fn is_get_or_head(m: Seq<u8>) -> bool {
    m == seq![UPPER_G, UPPER_E, UPPER_T] || m == seq![UPPER_H, UPPER_E, UPPER_A, UPPER_D]
}

/// Where the route table sends a request with method `m` to the path `p`.
pub open spec fn request_target_of(m: Seq<u8>, p: Seq<u8>) -> Target {
    let t = target_of(p);
    if (t == Target::StaticPath || t == Target::StaticIndex) && !is_get_or_head(m) {
        Target::MethodNotAllowed
    } else {
        t
    }
}

/// Picks the handler for a request with the given method and path.
///
/// API paths go to the API router whatever the method; a static route
/// serves `GET` and `HEAD` only, and refuses any other method.
pub fn resolve_request(method: &str, path: &str) -> (t: Target)
    ensures
        t == request_target_of(method.spec_bytes(), path.spec_bytes()),
        is_api_path(path.spec_bytes()) <==> t == Target::Api,
        t == Target::MethodNotAllowed <==> (path.spec_bytes().len() > 0 && path.spec_bytes()[0]
            == SLASH && !is_api_path(path.spec_bytes()) && !is_get_or_head(method.spec_bytes())),
{
    let t = resolve(path);
    let m = method.as_bytes();
    let n = m.len();
    let get = n == 3 && m[0] == UPPER_G && m[1] == UPPER_E && m[2] == UPPER_T;
    let head = n == 4 && m[0] == UPPER_H && m[1] == UPPER_E && m[2] == UPPER_A && m[3] == UPPER_D;
    proof {
        let g = seq![UPPER_G, UPPER_E, UPPER_T];
        let h = seq![UPPER_H, UPPER_E, UPPER_A, UPPER_D];
        if get {
            assert(m@ =~= g);
        }
        if head {
            assert(m@ =~= h);
        }
        if m@ == g {
            assert(m@[0] == g[0] && m@[1] == g[1] && m@[2] == g[2]);
        }
        if m@ == h {
            assert(m@[0] == h[0] && m@[1] == h[1] && m@[2] == h[2] && m@[3] == h[3]);
        }
        assert((get || head) == is_get_or_head(m@));
    }
    match t {
        Target::StaticPath | Target::StaticIndex => {
            if get || head {
                t
            } else {
                Target::MethodNotAllowed
            }
        },
        _ => t,
    }
}

} // verus!
