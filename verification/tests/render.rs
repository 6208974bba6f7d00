use leptos_pavex::render::{
    fragment_source, handle_response, render_app_async, render_app_async_stream_with_context,
    render_app_async_with_context, render_app_to_stream, render_app_to_stream_in_order,
    render_app_to_stream_in_order_with_context, render_app_to_stream_with_context,
    render_app_to_stream_with_context_and_replace_blocks, render_route,
    render_route_with_context, request_session, route_mode, FragmentSource,
};
use leptos_pavex::request_parts::RequestParts;
use leptos_pavex::response::{PavexBody, PavexResponse};
use leptos_pavex::response_options::ResponseOptions;
use leptos_pavex::routes::{Method, PavexRouteListing, SsrMode};

fn strings(items: &[&str]) -> Vec<String> {
    items.iter().map(|item| item.to_string()).collect()
}

fn stream(response: &PavexResponse) -> Vec<Vec<u8>> {
    match &response.0.body {
        PavexBody::Streaming(chunks) => chunks.clone(),
        PavexBody::Plain(_) => panic!("a rendered response streams its body"),
    }
}

fn bytes(items: &[&str]) -> Vec<Vec<u8>> {
    items.iter().map(|item| item.as_bytes().to_vec()).collect()
}

fn listing(path: &str, mode: SsrMode) -> PavexRouteListing {
    PavexRouteListing::new(path.to_string(), mode, vec![Method::Get], None)
}

#[test]
fn async_route_is_sent_as_one_buffered_body() {
    let table = vec![listing("/", SsrMode::OutOfOrder), listing("/page", SsrMode::Async)];
    let response = render_route(
        table,
        "/page",
        &ResponseOptions::default(),
        strings(&["<h1>", "A</h1>"]),
        Vec::new(),
    );
    assert_eq!(stream(&response), bytes(&["<h1>A</h1>"]));
    assert_eq!(response.0.status_code, 200);
    assert!(response.0.headers.is_empty());
}

#[test]
fn async_sends_trailing_chunks_after_the_document() {
    let response = render_app_async(
        &ResponseOptions::default(),
        strings(&["<p>", "x", "</p>"]),
        strings(&["<script>1</script>", "<script>2</script>"]),
    );
    assert_eq!(stream(&response), bytes(&["<p>x</p>", "<script>1</script>", "<script>2</script>"]));
}

#[test]
fn async_with_no_fragments_sends_an_empty_document() {
    let response =
        render_app_async_with_context(&ResponseOptions::default(), Vec::new(), strings(&["t"]));
    assert_eq!(stream(&response), bytes(&["", "t"]));
    let response =
        render_app_async_stream_with_context(&ResponseOptions::default(), Vec::new(), Vec::new());
    assert_eq!(stream(&response), bytes(&[""]));
}

#[test]
fn out_of_order_sends_each_fragment_then_the_trailing_chunks() {
    let response = render_app_to_stream(
        &ResponseOptions::default(),
        strings(&["<h1>", "A</h1>"]),
        strings(&["<script>fill</script>"]),
    );
    assert_eq!(stream(&response), bytes(&["<h1>", "A</h1>", "<script>fill</script>"]));
    let response = render_app_to_stream_with_context(
        &ResponseOptions::default(),
        strings(&["a", "b"]),
        Vec::new(),
    );
    assert_eq!(stream(&response), bytes(&["a", "b"]));
}

#[test]
fn replacing_blocks_changes_nothing_yet() {
    let plain = render_app_to_stream_with_context_and_replace_blocks(
        &ResponseOptions::default(),
        strings(&["a", "b"]),
        strings(&["c"]),
        false,
    );
    let replaced = render_app_to_stream_with_context_and_replace_blocks(
        &ResponseOptions::default(),
        strings(&["a", "b"]),
        strings(&["c"]),
        true,
    );
    assert_eq!(stream(&plain), bytes(&["a", "b", "c"]));
    assert_eq!(stream(&replaced), stream(&plain));
}

#[test]
fn in_order_sends_each_fragment_then_the_trailing_chunks() {
    let response = render_app_to_stream_in_order(
        &ResponseOptions::default(),
        strings(&["<h1>", "A</h1>"]),
        strings(&["t"]),
    );
    assert_eq!(stream(&response), bytes(&["<h1>", "A</h1>", "t"]));
    let response = render_app_to_stream_in_order_with_context(
        &ResponseOptions::default(),
        Vec::new(),
        Vec::new(),
    );
    assert!(stream(&response).is_empty());
}

#[test]
fn chunks_are_sent_as_utf8() {
    let response =
        handle_response(&ResponseOptions::default(), SsrMode::Async, strings(&["\u{e9}", "\u{20ac}"]), Vec::new());
    assert_eq!(stream(&response), vec![vec![0xc3, 0xa9, 0xe2, 0x82, 0xac]]);
}

#[test]
fn response_takes_status_and_headers_from_the_options() {
    let mut options = ResponseOptions::default();
    options.set_status(302);
    assert_eq!(options.insert_header("location", "/login"), Ok(()));
    let response = handle_response(&options, SsrMode::InOrder, strings(&["x"]), Vec::new());
    assert_eq!(response.0.status_code, 302);
    assert_eq!(response.0.headers.get("location"), Some(&b"/login".to_vec()));
    assert_eq!(response.0.headers.keys_len(), 1);
    assert_eq!(options.status(), Some(302));
    assert_eq!(options.headers().get("location"), Some(&b"/login".to_vec()));
}

#[test]
fn each_mode_has_its_fragment_source() {
    assert_eq!(fragment_source(SsrMode::OutOfOrder), FragmentSource::OutOfOrder);
    assert_eq!(fragment_source(SsrMode::PartiallyBlocked), FragmentSource::OutOfOrder);
    assert_eq!(fragment_source(SsrMode::InOrder), FragmentSource::InOrder);
    assert_eq!(fragment_source(SsrMode::Async), FragmentSource::InOrder);
}

#[test]
fn route_mode_is_that_of_the_first_listing_with_the_path() {
    let table = vec![
        listing("/", SsrMode::OutOfOrder),
        listing("/a", SsrMode::InOrder),
        listing("/b", SsrMode::PartiallyBlocked),
        listing("/a", SsrMode::Async),
    ];
    assert_eq!(route_mode(&table, "/"), Some(SsrMode::OutOfOrder));
    assert_eq!(route_mode(&table, "/a"), Some(SsrMode::InOrder));
    assert_eq!(route_mode(&table, "/b"), Some(SsrMode::PartiallyBlocked));
    assert_eq!(route_mode(&table, "/c"), None);
    assert_eq!(route_mode(&table, ""), None);
    assert_eq!(route_mode(&Vec::new(), "/"), None);
}

#[test]
fn route_is_rendered_in_the_mode_of_its_listing() {
    let table = || {
        vec![
            listing("/o", SsrMode::OutOfOrder),
            listing("/p", SsrMode::PartiallyBlocked),
            listing("/i", SsrMode::InOrder),
            listing("/a", SsrMode::Async),
        ]
    };
    let options = ResponseOptions::default();
    for path in ["/o", "/p", "/i"] {
        let response =
            render_route_with_context(table(), path, &options, strings(&["x", "y"]), strings(&["z"]));
        assert_eq!(stream(&response), bytes(&["x", "y", "z"]));
    }
    let response =
        render_route_with_context(table(), "/a", &options, strings(&["x", "y"]), strings(&["z"]));
    assert_eq!(stream(&response), bytes(&["xy", "z"]));
}

#[test]
fn session_url_is_the_target_behind_a_fixed_origin() {
    let session = request_session("/users/7?tab=posts", RequestParts::new());
    assert_eq!(session.url, "http://leptos.dev/users/7?tab=posts");
    assert_eq!(session.request.method(), "GET");
    assert_eq!(session.response.status(), None);
    assert!(session.response.headers().is_empty());
    let session = request_session("not a target", RequestParts::new());
    assert_eq!(session.url, "http://leptos.devnot a target");
}
