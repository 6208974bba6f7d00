use leptos_pavex::routes::{
    generate_route_list, generate_route_list_with_exclusions,
    generate_route_list_with_exclusions_and_ssg,
    generate_route_list_with_exclusions_and_ssg_and_context, generate_route_list_with_ssg,
    is_excluded, to_pavex_path, Method, PathSegment, PavexRouteListing, RouteListing, SsrMode,
    StaticDataMap, StaticMode,
};

fn route(path: Vec<PathSegment>) -> RouteListing {
    RouteListing { path, mode: SsrMode::OutOfOrder, methods: vec![Method::Get], static_mode: None }
}

fn root_and_user() -> Vec<RouteListing> {
    vec![
        route(vec![PathSegment::Static("/".to_string())]),
        route(vec![PathSegment::Static("users".to_string()), PathSegment::Param("id".to_string())]),
    ]
}

fn paths(table: &[PavexRouteListing]) -> Vec<String> {
    table.iter().map(|listing| listing.path().to_string()).collect()
}

#[test]
fn static_segment_gets_a_separator() {
    assert_eq!(to_pavex_path(&[PathSegment::Static("about".to_string())]), "/about");
}

#[test]
fn static_segment_with_its_own_slash_gets_no_separator() {
    assert_eq!(to_pavex_path(&[PathSegment::Static("/about".to_string())]), "/about");
}

#[test]
fn param_segment_is_written_with_a_colon() {
    let segments =
        [PathSegment::Static("users".to_string()), PathSegment::Param("id".to_string())];
    assert_eq!(to_pavex_path(&segments), "/users/:id");
}

#[test]
fn splat_segment_is_written_with_a_star() {
    let segments =
        [PathSegment::Static("files".to_string()), PathSegment::Splat("rest".to_string())];
    assert_eq!(to_pavex_path(&segments), "/files/*rest");
}

#[test]
fn unit_segment_adds_nothing() {
    let segments = [
        PathSegment::Unit,
        PathSegment::Static("a".to_string()),
        PathSegment::Unit,
        PathSegment::Static("b".to_string()),
    ];
    assert_eq!(to_pavex_path(&segments), "/a/b");
}

#[test]
fn empty_static_segment_adds_nothing() {
    assert_eq!(to_pavex_path(&[PathSegment::Static(String::new())]), "");
}

#[test]
fn empty_param_keeps_its_marker_without_separator() {
    assert_eq!(to_pavex_path(&[PathSegment::Param(String::new())]), ":");
}

#[test]
fn no_segments_give_the_empty_pattern() {
    assert_eq!(to_pavex_path(&[]), "");
}

#[test]
fn raw_text_of_each_segment() {
    assert_eq!(PathSegment::Unit.as_raw_str(), "");
    assert_eq!(PathSegment::Static("a".to_string()).as_raw_str(), "a");
    assert_eq!(PathSegment::Param("b".to_string()).as_raw_str(), "b");
    assert_eq!(PathSegment::Splat("c".to_string()).as_raw_str(), "c");
}

#[test]
fn empty_declared_path_is_listed_as_slash() {
    let listing = PavexRouteListing::from(route(vec![]));
    assert_eq!(listing.path(), "/");
    let listing = PavexRouteListing::from(route(vec![PathSegment::Unit]));
    assert_eq!(listing.path(), "/");
    let listing = PavexRouteListing::from(route(vec![PathSegment::Static(String::new())]));
    assert_eq!(listing.path(), "/");
}

#[test]
fn listing_keeps_mode_methods_and_static_parts() {
    let data = StaticDataMap { entries: vec![("/blog".to_string(), vec![1, 2, 3])] };
    let declared = RouteListing {
        path: vec![PathSegment::Static("blog".to_string())],
        mode: SsrMode::InOrder,
        methods: vec![Method::Post, Method::Get],
        static_mode: Some((StaticMode::Incremental, data)),
    };
    let listing = PavexRouteListing::from(declared);
    assert_eq!(listing.path(), "/blog");
    assert_eq!(listing.mode(), SsrMode::InOrder);
    assert_eq!(listing.methods(), &vec![Method::Post, Method::Get]);
    assert_eq!(listing.static_mode(), Some(StaticMode::Incremental));
}

#[test]
fn new_listing_holds_its_parts() {
    let listing = PavexRouteListing::new(
        "/x/:y".to_string(),
        SsrMode::Async,
        vec![Method::Put, Method::Delete, Method::Patch],
        None,
    );
    assert_eq!(listing.path(), "/x/:y");
    assert_eq!(listing.mode(), SsrMode::Async);
    assert_eq!(listing.methods(), &vec![Method::Put, Method::Delete, Method::Patch]);
    assert_eq!(listing.static_mode(), None);
}

#[test]
fn default_listing_is_empty() {
    let listing = PavexRouteListing::default();
    assert_eq!(listing.path(), "");
    assert_eq!(listing.mode(), SsrMode::OutOfOrder);
    assert!(listing.methods().is_empty());
    assert_eq!(listing.static_mode(), None);
}

#[test]
fn defaults_of_the_enums() {
    assert_eq!(SsrMode::default(), SsrMode::OutOfOrder);
    assert_eq!(Method::default(), Method::Get);
    assert_eq!(StaticMode::default(), StaticMode::Upfront);
    assert!(StaticDataMap::default().entries.is_empty());
    assert!(StaticDataMap::new().entries.is_empty());
}

#[test]
fn two_declared_routes_give_two_listings() {
    let table = generate_route_list(root_and_user());
    assert_eq!(table.len(), 2);
    assert_eq!(table[0].path(), "/");
    assert_eq!(table[0].methods(), &vec![Method::Get]);
    assert_eq!(table[1].path(), "/users/:id");
    assert_eq!(table[1].methods(), &vec![Method::Get]);
}

#[test]
fn excluded_route_is_left_out() {
    let table = generate_route_list_with_exclusions(
        root_and_user(),
        Some(vec!["/users/:id".to_string()]),
    );
    assert_eq!(paths(&table), vec!["/".to_string()]);
}

#[test]
fn no_declared_route_gives_the_fallback() {
    let table = generate_route_list(Vec::new());
    assert_eq!(table.len(), 1);
    assert_eq!(table[0].path(), "/");
    assert_eq!(table[0].methods(), &vec![Method::Get]);
    assert_eq!(table[0].mode(), SsrMode::default());
    assert_eq!(table[0].static_mode(), None);
}

#[test]
fn fallback_is_not_excluded() {
    let table = generate_route_list_with_exclusions(Vec::new(), Some(vec!["/".to_string()]));
    assert_eq!(paths(&table), vec!["/".to_string()]);
}

#[test]
fn excluding_every_route_leaves_an_empty_table() {
    let table = generate_route_list_with_exclusions(
        root_and_user(),
        Some(vec!["/users/:id".to_string(), "/".to_string()]),
    );
    assert!(table.is_empty());
}

#[test]
fn exclusion_compares_whole_paths() {
    let table = generate_route_list_with_exclusions(
        root_and_user(),
        Some(vec!["/users".to_string(), "/users/:id/".to_string(), "users/:id".to_string()]),
    );
    assert_eq!(paths(&table), vec!["/".to_string(), "/users/:id".to_string()]);
}

#[test]
fn empty_exclusion_list_excludes_nothing() {
    let table = generate_route_list_with_exclusions(root_and_user(), Some(Vec::new()));
    assert_eq!(paths(&table), vec!["/".to_string(), "/users/:id".to_string()]);
}

#[test]
fn table_keeps_the_order_of_declaration() {
    let declared = vec![
        route(vec![PathSegment::Static("c".to_string())]),
        route(vec![PathSegment::Static("a".to_string())]),
        route(vec![PathSegment::Static("b".to_string())]),
        route(vec![PathSegment::Static("a".to_string())]),
    ];
    let table = generate_route_list_with_exclusions(declared, Some(vec!["/b".to_string()]));
    assert_eq!(paths(&table), vec!["/c".to_string(), "/a".to_string(), "/a".to_string()]);
}

#[test]
fn generating_twice_gives_the_same_table() {
    let excluded = Some(vec!["/users/:id".to_string()]);
    let first = generate_route_list_with_exclusions(root_and_user(), excluded.clone());
    let second = generate_route_list_with_exclusions(root_and_user(), excluded);
    assert_eq!(paths(&first), paths(&second));
    assert_eq!(first[0].methods(), second[0].methods());
    assert_eq!(first[0].mode(), second[0].mode());
}

#[test]
fn variants_with_static_data_give_the_same_table_and_no_data() {
    let (table, data) = generate_route_list_with_ssg(root_and_user());
    assert_eq!(paths(&table), vec!["/".to_string(), "/users/:id".to_string()]);
    assert!(data.entries.is_empty());
    let (table, data) =
        generate_route_list_with_exclusions_and_ssg(root_and_user(), Some(vec!["/".to_string()]));
    assert_eq!(paths(&table), vec!["/users/:id".to_string()]);
    assert!(data.entries.is_empty());
    let (table, data) = generate_route_list_with_exclusions_and_ssg_and_context(
        root_and_user(),
        Some(vec!["/".to_string()]),
    );
    assert_eq!(paths(&table), vec!["/users/:id".to_string()]);
    assert!(data.entries.is_empty());
}

#[test]
fn excluded_paths_are_found_by_equality() {
    let excluded = vec!["/a".to_string(), "/b".to_string()];
    assert!(is_excluded(&excluded, "/a"));
    assert!(is_excluded(&excluded, "/b"));
    assert!(!is_excluded(&excluded, "/c"));
    assert!(!is_excluded(&excluded, "/"));
    assert!(!is_excluded(&Vec::new(), "/a"));
}
