//! Splitting an RPC route path `/{service}/{method}` into its two parts.
use vstd::prelude::*;

verus! {

broadcast use vstd::string::group_string_axioms;

/// `k` is the first `/` after the leading character of `p`.
pub open spec fn is_separator(p: Seq<char>, k: int) -> bool {
    &&& 1 <= k < p.len()
    &&& p[k] == '/'
    &&& forall|j: int| 1 <= j < k ==> p[j] != '/'
}

/// `p` starts with `/` and holds a second `/` after it.
pub open spec fn has_separator(p: Seq<char>) -> bool {
    &&& p.len() > 0
    &&& p[0] == '/'
    &&& exists|k: int| is_separator(p, k)
}

/// Position of the separating `/`, meaningful when `has_separator(p)`.
pub open spec fn separator(p: Seq<char>) -> int {
    choose|k: int| is_separator(p, k)
}

/// Service part of a route path: empty when the path does not parse.
pub open spec fn route_service(p: Seq<char>) -> Seq<char> {
    if has_separator(p) {
        p.subrange(1, separator(p))
    } else {
        Seq::empty()
    }
}

/// Method part of a route path: the whole path when it does not parse.
pub open spec fn route_method(p: Seq<char>) -> Seq<char> {
    if has_separator(p) {
        p.subrange(separator(p) + 1, p.len() as int)
    } else {
        p
    }
}

/// The (service, method) pair that a route path names.
#[derive(Debug, Clone)]
pub struct RouteDescriptor {
    pub service: String,
    pub method: String,
}

/// There is at most one first separator.
proof fn lemma_separator_unique(p: Seq<char>, a: int, b: int)
    requires
        is_separator(p, a),
        is_separator(p, b),
    ensures
        a == b,
{
    if a < b {
        assert(p[a] != '/');
    } else if b < a {
        assert(p[b] != '/');
    }
}

/// Splits `path` at the first `/` after a leading `/`. A path without a
/// leading `/`, or without a second one, gives an empty service and the
/// whole path as method.
pub fn parse_route(path: &str) -> (r: RouteDescriptor)
    ensures
        r.service@ == route_service(path@),
        r.method@ == route_method(path@),
{
    let n = path.unicode_len();
    if n == 0 || path.get_char(0) != '/' {
        return RouteDescriptor { service: String::new(), method: path.to_string() };
    }
    let mut i: usize = 1;
    while i < n
        invariant
            n == path@.len(),
            path@[0] == '/',
            1 <= i <= n,
            forall|j: int| 1 <= j < i ==> path@[j] != '/',
        decreases n - i,
    {
        if path.get_char(i) == '/' {
            proof {
                assert(is_separator(path@, i as int));
                lemma_separator_unique(path@, i as int, separator(path@));
            }
            let service = path.substring_char(1, i).to_string();
            let method = path.substring_char(i + 1, n).to_string();
            return RouteDescriptor { service, method };
        }
        i = i + 1;
    }
    assert(!has_separator(path@));
    RouteDescriptor { service: String::new(), method: path.to_string() }
}

/// A path `/S/M`, where neither `S` nor `M` holds a `/`, names service `S`
/// and method `M`.
pub proof fn lemma_route_of_service_and_method(s: Seq<char>, m: Seq<char>)
    requires
        forall|i: int| 0 <= i < s.len() ==> s[i] != '/',
        forall|i: int| 0 <= i < m.len() ==> m[i] != '/',
    ensures
        route_service(seq!['/'] + s + seq!['/'] + m) == s,
        route_method(seq!['/'] + s + seq!['/'] + m) == m,
{
    let p = seq!['/'] + s + seq!['/'] + m;
    let k: int = s.len() as int + 1;
    assert(p[k] == '/');
    assert forall|j: int| 1 <= j < k implies p[j] != '/' by {
        assert(p[j] == s[j - 1]);
    }
    assert(is_separator(p, k));
    lemma_separator_unique(p, k, separator(p));
    assert(p.subrange(1, k) =~= s);
    assert(p.subrange(k + 1, p.len() as int) =~= m);
}

/// A path that does not start with `/`, or holds no second `/`, names no
/// service, and its method is the whole path.
pub proof fn lemma_route_unparsed(p: Seq<char>)
    requires
        p.len() == 0 || p[0] != '/' || forall|j: int| 1 <= j < p.len() ==> p[j] != '/',
    ensures
        route_service(p) == Seq::<char>::empty(),
        route_method(p) == p,
{
    if has_separator(p) {
        let k = separator(p);
        assert(p[k] == '/');
    }
}

} // verus!
