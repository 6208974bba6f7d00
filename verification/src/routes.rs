//! The route table: the paths an application can serve, each with its
//! rendering mode, its methods and its static-generation metadata.
//!
//! Routes are declared by the component tree as sequences of path segments.
//! This module turns each declaration into a listing whose path is written
//! in the router's pattern syntax (`:name` for a parameter, `*name` for a
//! catch-all, `/` for the root), and builds the table from the listings.

use vstd::prelude::*;
use vstd::std_specs::convert::FromSpecImpl;

verus! {

/// How a route is rendered on the server.
#[derive(Clone, Copy, Debug, PartialEq, Eq, Structural)]
pub enum SsrMode {
    /// Stream the shell at once, with placeholders for regions that are
    /// still pending, and fill them in at the end of the stream.
    OutOfOrder,
    /// Like `OutOfOrder`. Kept as a mode of its own for callers that want
    /// blocking regions replaced inline once that is available.
    PartiallyBlocked,
    /// Stream top to bottom, waiting at each pending region.
    InOrder,
    /// Render the whole document before sending anything.
    Async,
}

impl Default for SsrMode {
    fn default() -> (mode: Self)
        ensures
            mode == SsrMode::OutOfOrder,
    {
        SsrMode::OutOfOrder
    }
}

/// An HTTP method that a route accepts.
#[derive(Clone, Copy, Debug, PartialEq, Eq, Structural)]
pub enum Method {
    Get,
    Post,
    Put,
    Delete,
    Patch,
}

impl Default for Method {
    fn default() -> (method: Self)
        ensures
            method == Method::Get,
    {
        Method::Get
    }
}

/// When a statically generated route is rendered.
#[derive(Clone, Copy, Debug, PartialEq, Eq, Structural)]
pub enum StaticMode {
    /// When the server starts.
    Upfront,
    /// On the first request for each path.
    Incremental,
}

impl Default for StaticMode {
    fn default() -> (mode: Self)
        ensures
            mode == StaticMode::Upfront,
    {
        StaticMode::Upfront
    }
}

/// The data that static generation needs, by route path. The route table
/// carries it along and never looks inside.
#[derive(Clone, Debug)]
pub struct StaticDataMap {
    pub entries: Vec<(String, Vec<u8>)>,
}

impl StaticDataMap {
    /// A mapping without entries.
    pub fn new() -> (map: Self)
        ensures
            map.entries@.len() == 0,
    {
        StaticDataMap { entries: Vec::new() }
    }
}

impl Default for StaticDataMap {
    fn default() -> (map: Self)
        ensures
            map.entries@.len() == 0,
    {
        StaticDataMap::new()
    }
}

/// One segment of a declared route path.
#[derive(Clone, Debug)]
pub enum PathSegment {
    /// A segment that contributes nothing to the path.
    Unit,
    /// Literal text.
    Static(String),
    /// A named parameter.
    Param(String),
    /// A named catch-all.
    Splat(String),
}

impl PathSegment {
    /// The text the segment was declared with, without any marker.
    pub open spec fn raw(self) -> Seq<char> {
        match self {
            PathSegment::Unit => Seq::empty(),
            PathSegment::Static(s) => s@,
            PathSegment::Param(s) => s@,
            PathSegment::Splat(s) => s@,
        }
    }

    /// The segment in pattern syntax, without a separator.
    pub open spec fn marked(self) -> Seq<char> {
        match self {
            PathSegment::Unit => Seq::empty(),
            PathSegment::Static(s) => s@,
            PathSegment::Param(s) => seq![':'] + s@,
            PathSegment::Splat(s) => seq!['*'] + s@,
        }
    }

    /// What the segment adds to a path: a `/` unless its text is empty or
    /// brings its own, then the segment in pattern syntax.
    pub open spec fn pattern(self) -> Seq<char> {
        separator(self.raw()) + self.marked()
    }

    /// The text the segment was declared with, without any marker.
    pub fn as_raw_str(&self) -> (raw: &str)
        ensures
            raw@ == self.raw(),
    {
        proof {
            reveal_strlit("");
        }
        match self {
            PathSegment::Unit => "",
            PathSegment::Static(s) => s.as_str(),
            PathSegment::Param(s) => s.as_str(),
            PathSegment::Splat(s) => s.as_str(),
        }
    }
}

/// The separator written before a segment whose text is `raw`.
pub open spec fn separator(raw: Seq<char>) -> Seq<char> {
    if raw.len() > 0 && raw[0] != '/' {
        seq!['/']
    } else {
        Seq::empty()
    }
}

/// The segments written one after another in pattern syntax.
pub open spec fn pavex_path(segments: Seq<PathSegment>) -> Seq<char>
    decreases segments.len(),
{
    if segments.len() == 0 {
        Seq::empty()
    } else {
        pavex_path(segments.drop_last()) + segments.last().pattern()
    }
}

/// The path under which a route is listed: its segments in pattern syntax,
/// or `/` where they come to nothing.
pub open spec fn canonical_path(segments: Seq<PathSegment>) -> Seq<char> {
    if pavex_path(segments).len() == 0 {
        seq!['/']
    } else {
        pavex_path(segments)
    }
}

/// Writes a declared path in pattern syntax.
pub fn to_pavex_path(segments: &[PathSegment]) -> (path: String)
    ensures
        path@ == pavex_path(segments@),
{
    let mut path = String::new();
    let mut i: usize = 0;
    while i < segments.len()
        invariant
            i <= segments@.len(),
            path@ == pavex_path(segments@.take(i as int)),
        decreases segments@.len() - i,
    {
        let segment = &segments[i];
        let ghost before = path@;
        let raw = segment.as_raw_str();
        proof {
            reveal_strlit("/");
            reveal_strlit(":");
            reveal_strlit("*");
        }
        if !raw.is_empty() && raw.get_char(0) != '/' {
            path.append("/");
        }
        assert(path@ =~= before + separator(segment.raw()));
        match segment {
            PathSegment::Static(s) => path.append(s.as_str()),
            PathSegment::Param(s) => {
                path.append(":");
                path.append(s.as_str());
            },
            PathSegment::Splat(s) => {
                path.append("*");
                path.append(s.as_str());
            },
            PathSegment::Unit => {},
        }
        proof {
            assert(path@ =~= before + segment.pattern());
            assert(segments@.take(i + 1).drop_last() =~= segments@.take(i as int));
            assert(segments@.take(i + 1).last() == segments@[i as int]);
        }
        i += 1;
    }
    proof {
        assert(segments@.take(i as int) =~= segments@);
    }
    path
}

/// A route as the component tree declares it.
#[derive(Clone, Debug)]
pub struct RouteListing {
    pub path: Vec<PathSegment>,
    pub mode: SsrMode,
    pub methods: Vec<Method>,
    pub static_mode: Option<(StaticMode, StaticDataMap)>,
}

/// What a listing of the route table says.
pub struct ListingView {
    pub path: Seq<char>,
    pub mode: SsrMode,
    pub methods: Seq<Method>,
    pub static_mode: Option<(StaticMode, StaticDataMap)>,
}

/// The listing that stands for a declared route: the path in pattern
/// syntax, everything else as declared.
pub open spec fn listing_of(route: RouteListing) -> ListingView {
    ListingView {
        path: canonical_path(route.path@),
        mode: route.mode,
        methods: route.methods@,
        static_mode: route.static_mode,
    }
}

/// The listing of an application that declares no route: `GET /` in the
/// default mode.
pub open spec fn fallback_listing() -> ListingView {
    ListingView {
        path: seq!['/'],
        mode: SsrMode::OutOfOrder,
        methods: seq![Method::Get],
        static_mode: None,
    }
}

/// A route that this application can serve.
#[derive(Clone, Debug)]
pub struct PavexRouteListing {
    path: String,
    mode: SsrMode,
    methods: Vec<Method>,
    static_mode: Option<(StaticMode, StaticDataMap)>,
}

impl View for PavexRouteListing {
    type V = ListingView;

    closed spec fn view(&self) -> ListingView {
        ListingView {
            path: self.path@,
            mode: self.mode,
            methods: self.methods@,
            static_mode: self.static_mode,
        }
    }
}

impl Default for PavexRouteListing {
    fn default() -> (listing: Self)
        ensures
            listing@ == (ListingView {
                path: Seq::empty(),
                mode: SsrMode::OutOfOrder,
                methods: Seq::empty(),
                static_mode: None,
            }),
    {
        PavexRouteListing {
            path: String::new(),
            mode: SsrMode::OutOfOrder,
            methods: Vec::new(),
            static_mode: None,
        }
    }
}

impl From<RouteListing> for PavexRouteListing {
    /// Lists a declared route: the path in pattern syntax, `/` for the
    /// root, and the mode, methods and static metadata as declared.
    fn from(value: RouteListing) -> (listing: Self)
        ensures
            listing@ == listing_of(value),
    {
        let path = to_pavex_path(value.path.as_slice());
        proof {
            reveal_strlit("/");
        }
        let path = if path.as_str().is_empty() {
            "/".to_owned()
        } else {
            path
        };
        assert(path@ =~= canonical_path(value.path@));
        PavexRouteListing {
            path,
            mode: value.mode,
            methods: value.methods,
            static_mode: value.static_mode,
        }
    }
}

/// What `from` returns is stated on `from` itself, over the view of the
/// listing: a specification cannot name a listing, only what it says.
impl FromSpecImpl<RouteListing> for PavexRouteListing {
    open spec fn obeys_from_spec() -> bool {
        false
    }

    open spec fn from_spec(value: RouteListing) -> Self {
        arbitrary()
    }
}

impl PavexRouteListing {
    /// Create a route listing from its parts.
    pub fn new(
        path: String,
        mode: SsrMode,
        methods: Vec<Method>,
        static_mode: Option<(StaticMode, StaticDataMap)>,
    ) -> (listing: Self)
        ensures
            listing@ == (ListingView { path: path@, mode, methods: methods@, static_mode }),
    {
        PavexRouteListing { path, mode, methods, static_mode }
    }

    /// The path this route handles.
    pub fn path(&self) -> (path: &str)
        ensures
            path@ == self@.path,
    {
        self.path.as_str()
    }

    /// The rendering mode for this path.
    pub fn mode(&self) -> (mode: SsrMode)
        ensures
            mode == self@.mode,
    {
        self.mode
    }

    /// The HTTP request methods this path can handle.
    pub fn methods(&self) -> (methods: &Vec<Method>)
        ensures
            methods@ == self@.methods,
    {
        &self.methods
    }

    /// Whether this route is statically rendered, and when.
    pub fn static_mode(&self) -> (mode: Option<StaticMode>)
        ensures
            mode == match self@.static_mode {
                Some(parts) => Some(parts.0),
                None => None,
            },
    {
        match &self.static_mode {
            Some(parts) => Some(parts.0),
            None => None,
        }
    }
}

/// The views of the listings of a table, in order.
pub open spec fn table_view(table: Seq<PavexRouteListing>) -> Seq<ListingView> {
    table.map_values(|listing: PavexRouteListing| listing@)
}

/// The texts of a list of strings, in order.
pub open spec fn texts(strings: Seq<String>) -> Seq<Seq<char>> {
    strings.map_values(|s: String| s@)
}

/// The listings whose path is none of `excluded`, in order.
pub open spec fn without_excluded(listings: Seq<ListingView>, excluded: Seq<Seq<char>>) -> Seq<
    ListingView,
> {
    listings.filter(|listing: ListingView| !excluded.contains(listing.path))
}

/// The route table of an application. One that declares no route is served
/// at `/`. Otherwise each declared route is listed, in the order of
/// declaration, but for those whose path is excluded.
pub open spec fn route_table(routes: Seq<RouteListing>, excluded: Option<Seq<Seq<char>>>) -> Seq<
    ListingView,
> {
    if routes.len() == 0 {
        seq![fallback_listing()]
    } else {
        let listings = routes.map_values(|route: RouteListing| listing_of(route));
        match excluded {
            Some(paths) => without_excluded(listings, paths),
            None => listings,
        }
    }
}

/// The excluded paths as the route table's model takes them.
pub open spec fn excluded_view(excluded: Option<Vec<String>>) -> Option<Seq<Seq<char>>> {
    match excluded {
        Some(paths) => Some(texts(paths@)),
        None => None,
    }
}

/// Whether `path` is one of `excluded`.
pub fn is_excluded(excluded: &Vec<String>, path: &str) -> (found: bool)
    ensures
        found == texts(excluded@).contains(path@),
{
    let wanted = path.to_owned();
    let mut i: usize = 0;
    while i < excluded.len()
        invariant
            i <= excluded@.len(),
            wanted@ == path@,
            forall|k: int| 0 <= k < i ==> texts(excluded@)[k] != path@,
        decreases excluded@.len() - i,
    {
        if excluded[i] == wanted {
            assert(texts(excluded@)[i as int] == path@);
            return true;
        }
        i += 1;
    }
    false
}

/// The listings of the declared routes, last declaration first.
fn list_routes_reversed(routes: Vec<RouteListing>) -> (reversed: Vec<PavexRouteListing>)
    ensures
        reversed@.len() == routes@.len(),
        forall|k: int|
            0 <= k < reversed@.len() ==> (#[trigger] reversed@[k])@ == listing_of(
                routes@[routes@.len() - 1 - k],
            ),
{
    let ghost declared = routes@;
    let mut routes = routes;
    let mut reversed: Vec<PavexRouteListing> = Vec::new();
    while routes.len() > 0
        invariant
            routes@.len() + reversed@.len() == declared.len(),
            routes@ == declared.take(routes@.len() as int),
            forall|k: int|
                0 <= k < reversed@.len() ==> (#[trigger] reversed@[k])@ == listing_of(
                    declared[declared.len() - 1 - k],
                ),
        decreases routes@.len(),
    {
        let ghost rest = routes@.len() - 1;
        let route = routes.pop().unwrap();
        assert(route == declared[rest]);
        assert(routes@ =~= declared.take(rest));
        reversed.push(PavexRouteListing::from(route));
    }
    reversed
}

/// The declared routes as the model lists them, in order.
pub open spec fn listings_of(routes: Seq<RouteListing>) -> Seq<ListingView> {
    routes.map_values(|route: RouteListing| listing_of(route))
}

/// Generates the list of all routes that the application declares, in the
/// router's pattern syntax, together with the data for static generation.
///
/// `routes` is what the component tree declared. Routes whose path is one of
/// `excluded_routes` are left out of the table, so that the caller can serve
/// them with a handler of its own. An application that declares no route
/// gets the single listing `GET /`, which no exclusion removes. The
/// static-generation data is empty.
pub fn generate_route_list_with_exclusions_and_ssg_and_context(
    routes: Vec<RouteListing>,
    excluded_routes: Option<Vec<String>>,
) -> (generated: (Vec<PavexRouteListing>, StaticDataMap))
    ensures
        table_view(generated.0@) == route_table(routes@, excluded_view(excluded_routes)),
        generated.0@.len() == route_table(routes@, excluded_view(excluded_routes)).len(),
        generated.1.entries@.len() == 0,
{
    if routes.len() == 0 {
        proof {
            reveal_strlit("/");
        }
        let mut methods: Vec<Method> = Vec::new();
        methods.push(Method::Get);
        let fallback = PavexRouteListing::new("/".to_owned(), SsrMode::default(), methods, None);
        assert(fallback@.path =~= seq!['/']);
        assert(fallback@.methods =~= seq![Method::Get]);
        let mut table: Vec<PavexRouteListing> = Vec::new();
        table.push(fallback);
        assert(table_view(table@) =~= seq![fallback_listing()]);
        return (table, StaticDataMap::new());
    }
    let ghost all = listings_of(routes@);
    let ghost keep = |listing: ListingView|
        match excluded_view(excluded_routes) {
            Some(paths) => !paths.contains(listing.path),
            None => true,
        };
    let mut reversed = list_routes_reversed(routes);
    let ghost listed = reversed@;
    let mut table: Vec<PavexRouteListing> = Vec::new();
    proof {
        reveal(Seq::filter);
        assert(all.take(0).filter(keep) =~= Seq::<ListingView>::empty());
    }
    while reversed.len() > 0
        invariant
            listed.len() == all.len(),
            reversed@.len() <= listed.len(),
            reversed@ == listed.take(reversed@.len() as int),
            forall|k: int|
                0 <= k < listed.len() ==> (#[trigger] listed[k])@ == all[all.len() - 1 - k],
            table_view(table@) == all.take(all.len() - reversed@.len()).filter(keep),
            keep == |listing: ListingView|
                match excluded_view(excluded_routes) {
                    Some(paths) => !paths.contains(listing.path),
                    None => true,
                },
        decreases reversed@.len(),
    {
        let ghost rest = reversed@.len() - 1;
        let ghost done = all.len() - reversed@.len();
        let listing = reversed.pop().unwrap();
        assert(listing == listed[rest]);
        assert(reversed@ =~= listed.take(rest));
        assert(listing@ == all[done]);
        let dropped = match &excluded_routes {
            Some(paths) => is_excluded(paths, listing.path()),
            None => false,
        };
        proof {
            reveal(Seq::filter);
            assert(all.take(done + 1).drop_last() =~= all.take(done));
            assert(all.take(done + 1).last() == all[done]);
            assert(dropped == !keep(listing@));
        }
        let ghost before = table@;
        if !dropped {
            table.push(listing);
            assert(table_view(table@) =~= table_view(before).push(listing@));
        }
    }
    proof {
        assert(all.take(all.len() as int) =~= all);
        match excluded_view(excluded_routes) {
            Some(paths) => {
                assert(keep =~= (|listing: ListingView| !paths.contains(listing.path)));
            },
            None => {
                lemma_filter_all(all, keep);
            },
        }
    }
    (table, StaticDataMap::new())
}

/// A filter that keeps every element changes nothing.
proof fn lemma_filter_all<A>(s: Seq<A>, keep: spec_fn(A) -> bool)
    requires
        forall|a: A| #[trigger] keep(a),
    ensures
        s.filter(keep) == s,
    decreases s.len(),
{
    reveal(Seq::filter);
    if s.len() > 0 {
        lemma_filter_all(s.drop_last(), keep);
        assert(s.drop_last().push(s.last()) =~= s);
    }
}

/// Generates the list of all routes that the application declares, with
/// the data for static generation. Routes whose path is excluded are left
/// out.
pub fn generate_route_list_with_exclusions_and_ssg(
    routes: Vec<RouteListing>,
    excluded_routes: Option<Vec<String>>,
) -> (generated: (Vec<PavexRouteListing>, StaticDataMap))
    ensures
        table_view(generated.0@) == route_table(routes@, excluded_view(excluded_routes)),
        generated.0@.len() == route_table(routes@, excluded_view(excluded_routes)).len(),
        generated.1.entries@.len() == 0,
{
    generate_route_list_with_exclusions_and_ssg_and_context(routes, excluded_routes)
}

/// Generates the list of all routes that the application declares. Routes
/// whose path is excluded are left out.
pub fn generate_route_list_with_exclusions(
    routes: Vec<RouteListing>,
    excluded_routes: Option<Vec<String>>,
) -> (table: Vec<PavexRouteListing>)
    ensures
        table_view(table@) == route_table(routes@, excluded_view(excluded_routes)),
        table@.len() == route_table(routes@, excluded_view(excluded_routes)).len(),
{
    generate_route_list_with_exclusions_and_ssg(routes, excluded_routes).0
}

/// Generates the list of all routes that the application declares, with
/// the data for static generation.
pub fn generate_route_list_with_ssg(routes: Vec<RouteListing>) -> (generated: (
    Vec<PavexRouteListing>,
    StaticDataMap,
))
    ensures
        table_view(generated.0@) == route_table(routes@, None),
        generated.0@.len() == route_table(routes@, None).len(),
        generated.1.entries@.len() == 0,
{
    generate_route_list_with_exclusions_and_ssg(routes, None)
}

/// Generates the list of all routes that the application declares.
pub fn generate_route_list(routes: Vec<RouteListing>) -> (table: Vec<PavexRouteListing>)
    ensures
        table_view(table@) == route_table(routes@, None),
        table@.len() == route_table(routes@, None).len(),
{
    generate_route_list_with_exclusions_and_ssg(routes, None).0
}

/// No route is listed under the empty path: a declaration whose segments
/// come to nothing is listed at `/`.
pub proof fn lemma_root_is_listed_as_slash(route: RouteListing)
    ensures
        listing_of(route).path.len() > 0,
        pavex_path(route.path@).len() == 0 ==> listing_of(route).path == seq!['/'],
{
}

/// No path of a route table is empty.
pub proof fn lemma_table_paths_not_empty(
    routes: Seq<RouteListing>,
    excluded: Option<Seq<Seq<char>>>,
    i: int,
)
    requires
        0 <= i < route_table(routes, excluded).len(),
    ensures
        route_table(routes, excluded)[i].path.len() > 0,
{
    if routes.len() > 0 {
        let all = listings_of(routes);
        assert forall|k: int| 0 <= k < all.len() implies (#[trigger] all[k]).path.len() > 0 by {
            lemma_root_is_listed_as_slash(routes[k]);
        }
        match excluded {
            Some(paths) => {
                let keep = |listing: ListingView| !paths.contains(listing.path);
                all.lemma_filter_contains_rev(keep, all.filter(keep)[i]);
            },
            None => {},
        }
    }
}

/// Excluding the same paths a second time removes nothing more.
pub proof fn lemma_exclusion_idempotent(listings: Seq<ListingView>, excluded: Seq<Seq<char>>)
    ensures
        without_excluded(without_excluded(listings, excluded), excluded) == without_excluded(
            listings,
            excluded,
        ),
    decreases listings.len(),
{
    reveal(Seq::filter);
    let keep = |listing: ListingView| !excluded.contains(listing.path);
    if listings.len() > 0 {
        let rest = listings.drop_last();
        lemma_exclusion_idempotent(rest, excluded);
        if keep(listings.last()) {
            let kept = rest.filter(keep).push(listings.last());
            assert(kept.drop_last() =~= rest.filter(keep));
        }
    }
}

/// The table of an application that declares a route lists no excluded
/// path, and excluding the same paths from it again leaves it as it is.
pub proof fn lemma_route_table_settled(routes: Seq<RouteListing>, excluded: Seq<Seq<char>>)
    requires
        routes.len() > 0,
    ensures
        without_excluded(route_table(routes, Some(excluded)), excluded) == route_table(
            routes,
            Some(excluded),
        ),
        forall|i: int|
            0 <= i < route_table(routes, Some(excluded)).len() ==> !excluded.contains(
                (#[trigger] route_table(routes, Some(excluded))[i]).path,
            ),
{
    let all = listings_of(routes);
    let keep = |listing: ListingView| !excluded.contains(listing.path);
    lemma_exclusion_idempotent(all, excluded);
    assert forall|i: int| 0 <= i < all.filter(keep).len() implies keep(
        #[trigger] all.filter(keep)[i],
    ) by {
        all.lemma_filter_pred(keep, i);
    }
}

/// Two tables generated from the same declarations and the same excluded
/// paths list the same routes in the same order.
pub proof fn lemma_route_table_repeatable(
    first: Seq<PavexRouteListing>,
    second: Seq<PavexRouteListing>,
    routes: Seq<RouteListing>,
    excluded: Option<Seq<Seq<char>>>,
)
    requires
        table_view(first) == route_table(routes, excluded),
        table_view(second) == route_table(routes, excluded),
    ensures
        table_view(first) == table_view(second),
        first.len() == second.len(),
        forall|i: int| 0 <= i < first.len() ==> (#[trigger] first[i])@ == second[i]@,
{
    assert(table_view(first).len() == first.len());
    assert(table_view(second).len() == second.len());
    assert forall|i: int| 0 <= i < first.len() implies (#[trigger] first[i])@ == second[i]@ by {
        assert(table_view(first)[i] == first[i]@);
        assert(table_view(second)[i] == second[i]@);
    }
}

} // verus!
