//! The route table: which body answers which path.
//!
//! A table maps exact path strings to fixed bodies and names one more body
//! for every path it does not hold. It is built once, before the first
//! request, and only read afterwards. A miss is not an error: the lookup
//! always yields a body.

use vstd::prelude::*;
use crate::text::str_eq;

verus! {

/// Path of the greeting route.
pub const ROOT_PATH: &'static str = "/";

/// Body of the greeting route.
pub const ROOT_BODY: &'static str = "Hello from http3 server";

/// Path of the test route.
pub const TEST_PATH: &'static str = "/test";

/// Body of the test route.
pub const TEST_BODY: &'static str = "Hello from http3 test endpoint";

/// Path of the health route.
pub const HEALTH_PATH: &'static str = "/health";

/// Body of the health route.
pub const HEALTH_BODY: &'static str = "hello from http3 health check";

/// Body for every path without a route.
pub const NOT_FOUND_BODY: &'static str = "404 Not Found";

/// One entry of a route table.
pub struct Route {
    pub path: String,
    pub body: String,
}

/// A mapping from exact path to body, with a body for everything else.
///
/// No path occurs twice among the entries.
pub struct RouteTable {
    routes: Vec<Route>,
    not_found: String,
}

/// Whether some entry of `routes` has exactly the path `path`.
pub open spec fn has_route(routes: Seq<Route>, path: Seq<char>) -> bool {
    exists|i: int| 0 <= i < routes.len() && #[trigger] routes[i].path@ == path
}

/// The position of an entry of `routes` with the path `path`, where there is one.
pub open spec fn route_index(routes: Seq<Route>, path: Seq<char>) -> int {
    choose|i: int| 0 <= i < routes.len() && #[trigger] routes[i].path@ == path
}

/// Whether no path occurs twice in `routes`.
pub open spec fn distinct_paths(routes: Seq<Route>) -> bool {
    forall|i: int, j: int|
        0 <= i < j < routes.len() ==> #[trigger] routes[i].path@ != #[trigger] routes[j].path@
}

/// The mapping that a list of entries with distinct paths stands for.
pub open spec fn routes_map(routes: Seq<Route>) -> Map<Seq<char>, Seq<char>> {
    Map::new(
        |path: Seq<char>| has_route(routes, path),
        |path: Seq<char>| routes[route_index(routes, path)].body@,
    )
}

/// The routes every server of this crate starts with.
pub open spec fn standard_routes() -> Map<Seq<char>, Seq<char>> {
    map![
        ROOT_PATH@ => ROOT_BODY@,
        TEST_PATH@ => TEST_BODY@,
        HEALTH_PATH@ => HEALTH_BODY@,
    ]
}

/// The body that a mapping and a fallback give for `path`: the mapped body
/// where the mapping holds exactly this path, the fallback otherwise.
pub open spec fn body_in(
    routes: Map<Seq<char>, Seq<char>>,
    fallback: Seq<char>,
    path: Seq<char>,
) -> Seq<char> {
    if routes.contains_key(path) {
        routes[path]
    } else {
        fallback
    }
}

/// The body the standard table gives for `path`.
pub open spec fn standard_body(path: Seq<char>) -> Seq<char> {
    body_in(standard_routes(), NOT_FOUND_BODY@, path)
}

/// Whether two paths are equal up to the case of ASCII letters.
pub open spec fn same_ignoring_ascii_case(a: Seq<char>, b: Seq<char>) -> bool {
    &&& a.len() == b.len()
    &&& forall|i: int| 0 <= i < a.len() ==> ascii_lower(#[trigger] a[i]) == ascii_lower(b[i])
}

/// The lower-case form of an ASCII capital letter; every other character unchanged.
pub open spec fn ascii_lower(c: char) -> char {
    if 'A' <= c && c <= 'Z' {
        ((c as u8) + 32u8) as char
    } else {
        c
    }
}

impl RouteTable {
    #[verifier::type_invariant]
    spec fn well_formed(self) -> bool {
        distinct_paths(self.routes@)
    }

    /// The mapping from path to body.
    pub closed spec fn view(&self) -> Map<Seq<char>, Seq<char>> {
        routes_map(self.routes@)
    }

    /// The body for paths without an entry.
    pub closed spec fn fallback(&self) -> Seq<char> {
        self.not_found@
    }

    /// The body this table gives for `path`.
    pub open spec fn body_for(&self, path: Seq<char>) -> Seq<char> {
        body_in(self@, self.fallback(), path)
    }

    /// A table without entries: every path gets `not_found`.
    pub fn new(not_found: &str) -> (table: RouteTable)
        ensures
            table@ == Map::<Seq<char>, Seq<char>>::empty(),
            table.fallback() == not_found@,
    {
        let table = RouteTable { routes: Vec::new(), not_found: not_found.to_owned() };
        assert(table@ =~= Map::<Seq<char>, Seq<char>>::empty());
        table
    }

    /// The position of the entry for `path`, if there is one.
    fn position(&self, path: &str) -> (found: Option<usize>)
        ensures
            found is Some <==> has_route(self.routes@, path@),
            found matches Some(i) ==> i < self.routes@.len() && self.routes@[i as int].path@
                == path@ && route_index(self.routes@, path@) == i,
    {
        proof {
            use_type_invariant(self);
        }
        let mut i: usize = 0;
        while i < self.routes.len()
            invariant
                i <= self.routes@.len(),
                distinct_paths(self.routes@),
                forall|j: int| 0 <= j < i ==> #[trigger] self.routes@[j].path@ != path@,
            decreases self.routes@.len() - i,
        {
            if str_eq(self.routes[i].path.as_str(), path) {
                proof {
                    let k = route_index(self.routes@, path@);
                    assert(self.routes@[i as int].path@ == path@);
                    assert(0 <= k < self.routes@.len() && self.routes@[k].path@ == path@);
                    if k < i {
                        assert(self.routes@[k].path@ != self.routes@[i as int].path@);
                    } else if i < k {
                        assert(self.routes@[i as int].path@ != self.routes@[k].path@);
                    }
                }
                return Some(i);
            }
            i += 1;
        }
        None
    }

    /// This table with `path` mapped to `body`. An entry the table already
    /// has for `path` is replaced; every other entry and the fallback stay.
    pub fn with_route(self, path: &str, body: &str) -> (table: RouteTable)
        ensures
            table@ == self@.insert(path@, body@),
            table.fallback() == self.fallback(),
    {
        proof {
            use_type_invariant(&self);
        }
        let found = self.position(path);
        let ghost before = self.routes@;
        let RouteTable { routes, not_found } = self;
        let mut routes = routes;
        let entry = Route { path: path.to_owned(), body: body.to_owned() };
        match found {
            Some(i) => {
                routes.set(i, entry);
                proof {
                    let after = routes@;
                    assert forall|a: int, b: int| 0 <= a < b < after.len() implies #[trigger] after[a].path@
                        != #[trigger] after[b].path@ by {
                        assert(before[a].path@ != before[b].path@);
                    }
                    lemma_replace_entry(before, i as int, path@, body@, after);
                }
            },
            None => {
                routes.push(entry);
                proof {
                    let after = routes@;
                    assert forall|a: int, b: int| 0 <= a < b < after.len() implies #[trigger] after[a].path@
                        != #[trigger] after[b].path@ by {
                        if b < before.len() {
                            assert(before[a].path@ != before[b].path@);
                        } else {
                            assert(before[a].path@ != path@);
                        }
                    }
                    lemma_append_entry(before, path@, body@, after);
                }
            },
        }
        RouteTable { routes, not_found }
    }

    /// The body for `path`: that of the entry whose path is exactly `path`,
    /// or the fallback where there is no such entry.
    pub fn lookup(&self, path: &str) -> (body: &str)
        ensures
            body@ == self.body_for(path@),
    {
        match self.position(path) {
            Some(i) => self.routes[i].body.as_str(),
            None => self.not_found.as_str(),
        }
    }

    /// Whether the table has an entry for exactly `path`.
    pub fn contains(&self, path: &str) -> (present: bool)
        ensures
            present == self@.contains_key(path@),
    {
        self.position(path).is_some()
    }

    /// The body for paths without an entry.
    pub fn not_found(&self) -> (body: &str)
        ensures
            body@ == self.fallback(),
    {
        self.not_found.as_str()
    }

    /// The table every server of this crate starts with: a greeting, a test
    /// and a health route, and a textual not-found body for the rest.
    pub fn standard() -> (table: RouteTable)
        ensures
            table@ == standard_routes(),
            table.fallback() == NOT_FOUND_BODY@,
    {
        let table = RouteTable::new(NOT_FOUND_BODY).with_route(ROOT_PATH, ROOT_BODY).with_route(
            TEST_PATH,
            TEST_BODY,
        ).with_route(HEALTH_PATH, HEALTH_BODY);
        assert(table@ =~= standard_routes());
        table
    }
}

/// The standard table answers its three paths with their bodies and every
/// other path with the not-found body.
pub proof fn lemma_standard_body_by_cases(path: Seq<char>)
    ensures
        path == ROOT_PATH@ ==> standard_body(path) == ROOT_BODY@,
        path == TEST_PATH@ ==> standard_body(path) == TEST_BODY@,
        path == HEALTH_PATH@ ==> standard_body(path) == HEALTH_BODY@,
        path != ROOT_PATH@ && path != TEST_PATH@ && path != HEALTH_PATH@ ==> standard_body(path)
            == NOT_FOUND_BODY@,
{
    lemma_standard_paths_differ();
}

/// The three paths of the standard table have one, five and seven characters.
pub proof fn lemma_standard_paths_differ()
    ensures
        ROOT_PATH@.len() == 1,
        TEST_PATH@.len() == 5,
        HEALTH_PATH@.len() == 7,
        standard_routes().dom() =~= set![ROOT_PATH@, TEST_PATH@, HEALTH_PATH@],
{
    reveal_strlit("/");
    reveal_strlit("/test");
    reveal_strlit("/health");
}

/// Lookup is by exact match: a routed path of the standard table followed by
/// one more slash is not routed, and gets the not-found body.
pub proof fn lemma_trailing_slash_is_unrouted(path: Seq<char>)
    requires
        standard_routes().contains_key(path),
    ensures
        !standard_routes().contains_key(path.push('/')),
        standard_body(path.push('/')) == NOT_FOUND_BODY@,
{
    lemma_standard_paths_differ();
    assert(path.push('/').len() == path.len() + 1);
}

/// Lookup is by exact match: a path that differs from a routed path of the
/// standard table only in the case of its letters is not routed, and gets
/// the not-found body.
pub proof fn lemma_case_variant_is_unrouted(path: Seq<char>, variant: Seq<char>)
    requires
        standard_routes().contains_key(path),
        same_ignoring_ascii_case(variant, path),
        variant != path,
    ensures
        !standard_routes().contains_key(variant),
        standard_body(variant) == NOT_FOUND_BODY@,
{
    lemma_standard_paths_differ();
}

/// A table answers a path it has no entry for with its fallback, whatever
/// else it holds.
pub proof fn lemma_miss_gets_fallback(table: RouteTable, path: Seq<char>)
    requires
        !table@.contains_key(path),
    ensures
        table.body_for(path) == table.fallback(),
{
}

/// Replacing the body of the entry for `path` maps `path` anew and leaves
/// the rest of the mapping as it was.
proof fn lemma_replace_entry(
    before: Seq<Route>,
    at: int,
    path: Seq<char>,
    body: Seq<char>,
    after: Seq<Route>,
)
    requires
        distinct_paths(before),
        distinct_paths(after),
        0 <= at < before.len(),
        before[at].path@ == path,
        after.len() == before.len(),
        after[at].path@ == path,
        after[at].body@ == body,
        forall|k: int| 0 <= k < before.len() && k != at ==> after[k] == before[k],
    ensures
        routes_map(after) == routes_map(before).insert(path, body),
{
    let lhs = routes_map(after);
    let rhs = routes_map(before).insert(path, body);
    assert forall|p: Seq<char>| lhs.contains_key(p) == rhs.contains_key(p) by {
        if has_route(after, p) {
            let k = route_index(after, p);
            if k != at {
                assert(before[k].path@ == p);
            }
        }
        if has_route(before, p) {
            let k = route_index(before, p);
            assert(after[k].path@ == p);
        }
        if p == path {
            assert(after[at].path@ == p);
        }
    }
    assert forall|p: Seq<char>| lhs.contains_key(p) implies lhs[p] == rhs[p] by {
        let k = route_index(after, p);
        lemma_index_is_unique(after, p, k);
        if p == path {
            lemma_index_is_unique(after, p, at);
        } else {
            assert(k != at);
            assert(before[k].path@ == p);
            lemma_index_is_unique(before, p, k);
        }
    }
    assert(lhs =~= rhs);
}

/// Appending an entry for a path the list does not hold maps that path and
/// leaves the rest of the mapping as it was.
proof fn lemma_append_entry(
    before: Seq<Route>,
    path: Seq<char>,
    body: Seq<char>,
    after: Seq<Route>,
)
    requires
        distinct_paths(before),
        distinct_paths(after),
        !has_route(before, path),
        after.len() == before.len() + 1,
        after[before.len() as int].path@ == path,
        after[before.len() as int].body@ == body,
        forall|k: int| 0 <= k < before.len() ==> after[k] == before[k],
    ensures
        routes_map(after) == routes_map(before).insert(path, body),
{
    let lhs = routes_map(after);
    let rhs = routes_map(before).insert(path, body);
    let last = before.len() as int;
    assert forall|p: Seq<char>| lhs.contains_key(p) == rhs.contains_key(p) by {
        if has_route(after, p) {
            let k = route_index(after, p);
            if k != last {
                assert(before[k].path@ == p);
            }
        }
        if has_route(before, p) {
            let k = route_index(before, p);
            assert(after[k].path@ == p);
        }
        if p == path {
            assert(after[last].path@ == p);
        }
    }
    assert forall|p: Seq<char>| lhs.contains_key(p) implies lhs[p] == rhs[p] by {
        let k = route_index(after, p);
        lemma_index_is_unique(after, p, k);
        if p == path {
            lemma_index_is_unique(after, p, last);
        } else {
            assert(k != last);
            assert(before[k].path@ == p);
            lemma_index_is_unique(before, p, k);
        }
    }
    assert(lhs =~= rhs);
}

/// Among entries with distinct paths, the entry for a path is found at one
/// position only.
proof fn lemma_index_is_unique(routes: Seq<Route>, path: Seq<char>, at: int)
    requires
        distinct_paths(routes),
        0 <= at < routes.len(),
        routes[at].path@ == path,
    ensures
        route_index(routes, path) == at,
{
    let k = route_index(routes, path);
    assert(0 <= k < routes.len() && routes[k].path@ == path);
    if k < at {
        assert(routes[k].path@ != routes[at].path@);
    } else if at < k {
        assert(routes[at].path@ != routes[k].path@);
    }
}

} // verus!
