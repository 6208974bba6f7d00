use leptos_pavex::file_helpers::{
    decimal, file_response, file_target, index, lies_beneath, serve_files, site_path, FileLookup,
    SubPath, NOT_FOUND,
};
use leptos_pavex::headers::HeaderError;
use leptos_pavex::response::{PavexBody, PavexResponse, INTERNAL_SERVER_ERROR, OK};

fn plain(response: &PavexResponse) -> Vec<u8> {
    match &response.0.body {
        PavexBody::Plain(bytes) => bytes.clone(),
        PavexBody::Streaming(_) => panic!("the body is one buffer"),
    }
}

fn header(response: &PavexResponse, name: &str) -> Option<Vec<u8>> {
    response.0.headers.get(name).cloned()
}

fn made(result: Result<PavexResponse, HeaderError>) -> PavexResponse {
    match result {
        Ok(response) => response,
        Err(error) => panic!("no response: {error:?}"),
    }
}

fn refused(result: Result<PavexResponse, HeaderError>) -> HeaderError {
    match result {
        Ok(_) => panic!("a response was made"),
        Err(error) => error,
    }
}

#[test]
fn statuses() {
    assert_eq!(OK, 200);
    assert_eq!(NOT_FOUND, 404);
    assert_eq!(INTERNAL_SERVER_ERROR, 500);
}

#[test]
fn response_from_string() {
    let response = made(PavexResponse::try_from_string("text/plain", "h\u{e9}".to_string()));
    assert_eq!(response.0.status_code, 200);
    assert_eq!(header(&response, "content-type"), Some(b"text/plain".to_vec()));
    assert_eq!(response.0.headers.keys_len(), 1);
    assert_eq!(plain(&response), vec![b'h', 0xc3, 0xa9]);
}

#[test]
fn response_from_bytes() {
    let response = made(PavexResponse::try_from_bytes("application/cbor", vec![0, 255, 7]));
    assert_eq!(response.0.status_code, 200);
    assert_eq!(header(&response, "content-type"), Some(b"application/cbor".to_vec()));
    assert_eq!(plain(&response), vec![0, 255, 7]);
}

#[test]
fn response_from_stream() {
    let response =
        made(PavexResponse::try_from_stream("text/event-stream", vec![vec![1], vec![], vec![2, 3]]));
    assert_eq!(response.0.status_code, 200);
    assert_eq!(header(&response, "content-type"), Some(b"text/event-stream".to_vec()));
    match response.0.body {
        PavexBody::Streaming(chunks) => assert_eq!(chunks, vec![vec![1], vec![], vec![2, 3]]),
        PavexBody::Plain(_) => panic!("the body is a stream"),
    }
}

#[test]
fn content_type_that_no_header_can_carry_is_refused() {
    assert_eq!(
        refused(PavexResponse::try_from_string("text/\nplain", String::new())),
        HeaderError::InvalidHeaderValue
    );
    assert_eq!(
        refused(PavexResponse::try_from_bytes("\u{1}", Vec::new())),
        HeaderError::InvalidHeaderValue
    );
    assert_eq!(
        refused(PavexResponse::try_from_stream("a\u{7f}", Vec::new())),
        HeaderError::InvalidHeaderValue
    );
}

#[test]
fn error_response_names_the_path_and_carries_the_payload() {
    let response =
        made(PavexResponse::error_response("/api/add", "ServerError|boom".to_string()));
    assert_eq!(response.0.status_code, 500);
    assert_eq!(header(&response, "serverfnerror"), Some(b"/api/add".to_vec()));
    assert_eq!(response.0.headers.keys_len(), 1);
    assert_eq!(plain(&response), b"ServerError|boom".to_vec());
    assert_eq!(
        refused(PavexResponse::error_response("/api\r\n", String::new())),
        HeaderError::InvalidHeaderValue
    );
}

#[test]
fn redirect_on_a_finished_response_changes_nothing() {
    let mut response = made(PavexResponse::try_from_string("text/plain", "x".to_string()));
    response.redirect("/elsewhere");
    assert_eq!(response.0.status_code, 200);
    assert_eq!(header(&response, "location"), None);
    assert_eq!(response.0.headers.keys_len(), 1);
    assert_eq!(plain(&response), b"x".to_vec());
}

#[test]
fn site_path_is_below_the_site_root() {
    assert_eq!(site_path(&SubPath { path: "" }), "./target/site/");
    assert_eq!(site_path(&SubPath { path: "pkg/app.js" }), "./target/site/pkg/app.js");
    assert_eq!(site_path(&SubPath { path: "../secret" }), "./target/site/../secret");
}

#[test]
fn directory_is_served_by_its_index() {
    assert_eq!(file_target("/srv/site", true), "/srv/site/index.html");
    assert_eq!(file_target("/srv/site/a.css", false), "/srv/site/a.css");
}

#[test]
fn beneath_means_the_root_or_something_in_it() {
    assert!(lies_beneath("/srv/site", "/srv/site"));
    assert!(lies_beneath("/srv/site", "/srv/site/a.css"));
    assert!(lies_beneath("/srv/site", "/srv/site/pkg/app.js"));
    assert!(!lies_beneath("/srv/site", "/srv/site2/a.css"));
    assert!(!lies_beneath("/srv/site", "/srv/secret"));
    assert!(!lies_beneath("/srv/site", "/srv"));
    assert!(!lies_beneath("/srv/site", ""));
}

#[test]
fn numbers_in_decimal() {
    assert_eq!(decimal(0), "0");
    assert_eq!(decimal(7), "7");
    assert_eq!(decimal(10), "10");
    assert_eq!(decimal(1234567890), "1234567890");
    assert_eq!(decimal(usize::MAX), usize::MAX.to_string());
}

#[test]
fn file_is_sent_with_type_and_length() {
    let response = made(file_response("text/css", b"body{}".to_vec()));
    assert_eq!(response.0.status_code, 200);
    assert_eq!(header(&response, "content-type"), Some(b"text/css".to_vec()));
    assert_eq!(header(&response, "content-length"), Some(b"6".to_vec()));
    assert_eq!(response.0.headers.keys_len(), 2);
    assert_eq!(plain(&response), b"body{}".to_vec());
    assert_eq!(refused(file_response("text/\ncss", Vec::new())), HeaderError::InvalidHeaderValue);
}

#[test]
fn found_file_is_served_with_the_type_of_its_extension() {
    let lookup =
        FileLookup::Found { path: "/srv/site/index.html".to_string(), contents: b"<p>".to_vec() };
    let response = made(serve_files("/srv/site", lookup));
    assert_eq!(response.0.status_code, 200);
    assert_eq!(header(&response, "content-type"), Some(b"text/html".to_vec()));
    assert_eq!(header(&response, "content-length"), Some(b"3".to_vec()));
    assert_eq!(plain(&response), b"<p>".to_vec());

    let lookup = FileLookup::Found { path: "/srv/site/pkg/app.wasm".to_string(), contents: vec![0; 12] };
    let response = made(serve_files("/srv/site", lookup));
    assert_eq!(header(&response, "content-type"), Some(b"application/wasm".to_vec()));
    assert_eq!(header(&response, "content-length"), Some(b"12".to_vec()));
}

#[test]
fn file_of_unknown_type_is_served_as_bytes() {
    let lookup = FileLookup::Found { path: "/srv/site/data".to_string(), contents: Vec::new() };
    let response = made(serve_files("/srv/site", lookup));
    assert_eq!(header(&response, "content-type"), Some(b"application/octet-stream".to_vec()));
    assert_eq!(header(&response, "content-length"), Some(b"0".to_vec()));
    assert!(plain(&response).is_empty());
}

#[test]
fn what_is_not_there_is_not_found() {
    for lookup in [FileLookup::Unresolved, FileLookup::Missing { path: "/srv/site/x".to_string() }] {
        let response = made(serve_files("/srv/site", lookup));
        assert_eq!(response.0.status_code, 404);
        assert!(response.0.headers.is_empty());
        assert!(plain(&response).is_empty());
    }
}

#[test]
fn failing_file_system_is_a_server_error() {
    for lookup in [
        FileLookup::Unchecked { path: "/srv/site/x".to_string() },
        FileLookup::Unreadable { path: "/srv/site/x".to_string() },
    ] {
        let response = made(serve_files("/srv/site", lookup));
        assert_eq!(response.0.status_code, 500);
        assert!(response.0.headers.is_empty());
        assert!(plain(&response).is_empty());
    }
}

#[test]
fn path_outside_the_site_is_not_found() {
    for lookup in [
        FileLookup::Found { path: "/etc/passwd".to_string(), contents: b"root".to_vec() },
        FileLookup::Unchecked { path: "/etc/shadow".to_string() },
        FileLookup::Unreadable { path: "/srv/site2/x".to_string() },
        FileLookup::Missing { path: "/etc/none".to_string() },
    ] {
        let response = made(serve_files("/srv/site", lookup));
        assert_eq!(response.0.status_code, 404);
        assert!(response.0.headers.is_empty());
        assert!(plain(&response).is_empty());
    }
}

#[test]
fn front_page_is_served_like_any_file() {
    let lookup =
        FileLookup::Found { path: "/srv/site/index.html".to_string(), contents: b"hi".to_vec() };
    let response = made(index("/srv/site", lookup));
    assert_eq!(response.0.status_code, 200);
    assert_eq!(header(&response, "content-type"), Some(b"text/html".to_vec()));
    assert_eq!(plain(&response), b"hi".to_vec());
    assert_eq!(made(index("/srv/site", FileLookup::Unresolved)).0.status_code, 404);
}
