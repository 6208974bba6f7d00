//! Rendering a request into a response whose body is a stream of HTML.
//!
//! The renderer turns the component tree into fragments of markup, and
//! supplies further chunks that are sent after the tree. How the two are
//! put together depends on the rendering mode. The response takes its
//! status and its headers from the response options of the session.

use crate::context::{provide_contexts, RenderingSession};
use crate::headers::header_map_clone;
use crate::request_parts::RequestParts;
use crate::response::{
    BodyView, PavexBody, PavexResponse, PavexResponseParts, ResponseView, chunks_view, OK,
};
use crate::response_options::{ResponseOptions, ResponseOptionsView};
use crate::routes::{table_view, texts, ListingView, PavexRouteListing, SsrMode};
use vstd::prelude::*;
use vstd::utf8::encode_utf8;

verus! {

/// The two ways in which the renderer can produce the fragments of a tree.
#[derive(Clone, Copy, Debug, PartialEq, Eq, Structural)]
pub enum FragmentSource {
    /// Fragments come as soon as they are ready, with placeholders for
    /// regions that are still pending.
    OutOfOrder,
    /// Fragments come top to bottom; a pending region holds the rest up.
    InOrder,
}

/// The way in which the renderer has to produce the fragments for a mode.
pub open spec fn source_of(mode: SsrMode) -> FragmentSource {
    match mode {
        SsrMode::OutOfOrder | SsrMode::PartiallyBlocked => FragmentSource::OutOfOrder,
        SsrMode::InOrder | SsrMode::Async => FragmentSource::InOrder,
    }
}

/// The way in which the renderer has to produce the fragments for a mode.
pub fn fragment_source(mode: SsrMode) -> (source: FragmentSource)
    ensures
        source == source_of(mode),
{
    match mode {
        SsrMode::OutOfOrder | SsrMode::PartiallyBlocked => FragmentSource::OutOfOrder,
        SsrMode::InOrder | SsrMode::Async => FragmentSource::InOrder,
    }
}

/// The fragments written one after another.
pub open spec fn joined(fragments: Seq<Seq<char>>) -> Seq<char>
    decreases fragments.len(),
{
    if fragments.len() == 0 {
        Seq::empty()
    } else {
        joined(fragments.drop_last()) + fragments.last()
    }
}

/// The chunks of the stream for a mode: the fragments of the tree, then
/// the chunks that follow it. `Async` sends the tree as one chunk; the
/// other modes send each fragment as it comes.
pub open spec fn stream_chunks(mode: SsrMode, app: Seq<Seq<char>>, chunks: Seq<Seq<char>>) -> Seq<
    Seq<char>,
> {
    match mode {
        SsrMode::Async => seq![joined(app)] + chunks,
        _ => app + chunks,
    }
}

/// The bytes of each chunk of text, in order.
pub open spec fn encoded(chunks: Seq<Seq<char>>) -> Seq<Seq<u8>> {
    chunks.map_values(|chunk: Seq<char>| encode_utf8(chunk))
}

/// The response to a request rendered in `mode`: the status that was set
/// (`200` where none was), the headers that were set, and the stream as the
/// body.
pub open spec fn rendered(
    options: ResponseOptionsView,
    mode: SsrMode,
    app: Seq<Seq<char>>,
    chunks: Seq<Seq<char>>,
) -> ResponseView {
    ResponseView {
        status_code: match options.status {
            Some(status) => status,
            None => OK,
        },
        headers: options.headers,
        body: BodyView::Streaming(encoded(stream_chunks(mode, app, chunks))),
    }
}

/// All fragments in one buffer.
fn join_fragments(fragments: &Vec<String>) -> (buffer: String)
    ensures
        buffer@ == joined(texts(fragments@)),
{
    let mut buffer = String::new();
    let mut i: usize = 0;
    while i < fragments.len()
        invariant
            i <= fragments@.len(),
            buffer@ == joined(texts(fragments@).take(i as int)),
        decreases fragments@.len() - i,
    {
        proof {
            let all = texts(fragments@);
            assert(all.take(i + 1).drop_last() =~= all.take(i as int));
            assert(all.take(i + 1).last() == fragments@[i as int]@);
        }
        buffer.append(fragments[i].as_str());
        i += 1;
    }
    proof {
        assert(texts(fragments@).take(i as int) =~= texts(fragments@));
    }
    buffer
}

/// Appends the bytes of each chunk of text to a stream.
fn send_chunks(stream: &mut Vec<Vec<u8>>, chunks: &Vec<String>)
    ensures
        chunks_view(final(stream)@) == chunks_view(old(stream)@) + encoded(texts(chunks@)),
{
    let ghost sent = chunks_view(stream@);
    let mut i: usize = 0;
    while i < chunks.len()
        invariant
            i <= chunks@.len(),
            chunks_view(stream@) == sent + encoded(texts(chunks@).take(i as int)),
        decreases chunks@.len() - i,
    {
        let ghost before = stream@;
        stream.push(chunks[i].as_str().as_bytes_vec());
        proof {
            let all = texts(chunks@);
            assert(chunks_view(stream@) =~= chunks_view(before).push(encode_utf8(all[i as int])));
            assert(encoded(all.take(i + 1)) =~= encoded(all.take(i as int)).push(
                encode_utf8(all[i as int]),
            ));
        }
        i += 1;
    }
    proof {
        assert(texts(chunks@).take(i as int) =~= texts(chunks@));
    }
}

/// Puts the fragments of the tree and the chunks that follow it together
/// as `mode` asks, and answers with the status and the headers that
/// `res_options` hold at that moment.
pub fn handle_response(
    res_options: &ResponseOptions,
    mode: SsrMode,
    app: Vec<String>,
    chunks: Vec<String>,
) -> (response: PavexResponse)
    ensures
        response@ == rendered(res_options@, mode, texts(app@), texts(chunks@)),
{
    let mut stream: Vec<Vec<u8>> = Vec::new();
    assert(chunks_view(stream@) =~= Seq::<Seq<u8>>::empty());
    match mode {
        SsrMode::Async => {
            let document = join_fragments(&app);
            stream.push(document.as_str().as_bytes_vec());
            assert(chunks_view(stream@) =~= encoded(seq![joined(texts(app@))]));
        },
        _ => {
            send_chunks(&mut stream, &app);
        },
    }
    send_chunks(&mut stream, &chunks);
    assert(chunks_view(stream@) =~= encoded(stream_chunks(mode, texts(app@), texts(chunks@))));
    let status_code = match res_options.status() {
        Some(status) => status,
        None => OK,
    };
    PavexResponse(
        PavexResponseParts {
            status_code,
            headers: header_map_clone(res_options.headers()),
            body: PavexBody::Streaming(stream),
        },
    )
}

/// The URL that rendering sees for a request target: the target behind a
/// fixed origin.
pub open spec fn request_url(path_and_query: Seq<char>) -> Seq<char> {
    "http://leptos.dev"@ + path_and_query
}

/// Opens the session of a request: the URL resolved from the path and
/// query of its target, its parts, and response options in which nothing
/// is set. The target is taken as it is, well-formed or not.
pub fn request_session(path_and_query: &str, parts: RequestParts) -> (session: RenderingSession)
    ensures
        session.url@ == request_url(path_and_query@),
        session.request == parts,
        session.response@ == (ResponseOptionsView { status: None, headers: Map::empty() }),
{
    let mut full_path = "http://leptos.dev".to_owned();
    full_path.append(path_and_query);
    provide_contexts(full_path.as_str(), parts, ResponseOptions::default())
}

/// Renders the application as a stream of HTML, out of order.
pub fn render_app_to_stream(
    res_options: &ResponseOptions,
    app: Vec<String>,
    chunks: Vec<String>,
) -> (response: PavexResponse)
    ensures
        response@ == rendered(res_options@, SsrMode::OutOfOrder, texts(app@), texts(chunks@)),
{
    render_app_to_stream_with_context(res_options, app, chunks)
}

/// Renders the application as a stream of HTML, out of order, for a
/// session that the caller has added context to.
pub fn render_app_to_stream_with_context(
    res_options: &ResponseOptions,
    app: Vec<String>,
    chunks: Vec<String>,
) -> (response: PavexResponse)
    ensures
        response@ == rendered(res_options@, SsrMode::OutOfOrder, texts(app@), texts(chunks@)),
{
    render_app_to_stream_with_context_and_replace_blocks(res_options, app, chunks, false)
}

/// Renders the application as a stream of HTML, out of order.
///
/// `replace_blocks` asks for blocking regions to be put into the HTML
/// that is served first. That is not available yet: the stream is the
/// same either way.
pub fn render_app_to_stream_with_context_and_replace_blocks(
    res_options: &ResponseOptions,
    app: Vec<String>,
    chunks: Vec<String>,
    replace_blocks: bool,
) -> (response: PavexResponse)
    ensures
        response@ == rendered(res_options@, SsrMode::OutOfOrder, texts(app@), texts(chunks@)),
        response@ == rendered(
            res_options@,
            SsrMode::PartiallyBlocked,
            texts(app@),
            texts(chunks@),
        ),
{
    let mode = if replace_blocks {
        SsrMode::PartiallyBlocked
    } else {
        SsrMode::OutOfOrder
    };
    handle_response(res_options, mode, app, chunks)
}

/// Renders the application as a stream of HTML, in order.
pub fn render_app_to_stream_in_order(
    res_options: &ResponseOptions,
    app: Vec<String>,
    chunks: Vec<String>,
) -> (response: PavexResponse)
    ensures
        response@ == rendered(res_options@, SsrMode::InOrder, texts(app@), texts(chunks@)),
{
    render_app_to_stream_in_order_with_context(res_options, app, chunks)
}

/// Renders the application as a stream of HTML, in order, for a session
/// that the caller has added context to.
pub fn render_app_to_stream_in_order_with_context(
    res_options: &ResponseOptions,
    app: Vec<String>,
    chunks: Vec<String>,
) -> (response: PavexResponse)
    ensures
        response@ == rendered(res_options@, SsrMode::InOrder, texts(app@), texts(chunks@)),
{
    handle_response(res_options, SsrMode::InOrder, app, chunks)
}

/// Renders the application into one document, sent once all of it is
/// there.
pub fn render_app_async(
    res_options: &ResponseOptions,
    app: Vec<String>,
    chunks: Vec<String>,
) -> (response: PavexResponse)
    ensures
        response@ == rendered(res_options@, SsrMode::Async, texts(app@), texts(chunks@)),
{
    render_app_async_with_context(res_options, app, chunks)
}

/// Renders the application into one document, sent as the first chunk of
/// a stream, for a session that the caller has added context to.
pub fn render_app_async_stream_with_context(
    res_options: &ResponseOptions,
    app: Vec<String>,
    chunks: Vec<String>,
) -> (response: PavexResponse)
    ensures
        response@ == rendered(res_options@, SsrMode::Async, texts(app@), texts(chunks@)),
{
    handle_response(res_options, SsrMode::Async, app, chunks)
}

/// Renders the application into one document, sent once all of it is
/// there, for a session that the caller has added context to.
pub fn render_app_async_with_context(
    res_options: &ResponseOptions,
    app: Vec<String>,
    chunks: Vec<String>,
) -> (response: PavexResponse)
    ensures
        response@ == rendered(res_options@, SsrMode::Async, texts(app@), texts(chunks@)),
{
    handle_response(res_options, SsrMode::Async, app, chunks)
}

/// The mode of the first listing of `table` whose path is `path`.
pub open spec fn mode_for(table: Seq<ListingView>, path: Seq<char>) -> Option<SsrMode>
    decreases table.len(),
{
    if table.len() == 0 {
        None
    } else if table[0].path == path {
        Some(table[0].mode)
    } else {
        mode_for(table.drop_first(), path)
    }
}

/// The rendering mode of the route that matched, or nothing where the
/// table lists no such route.
pub fn route_mode(paths: &Vec<PavexRouteListing>, matched_path: &str) -> (mode: Option<SsrMode>)
    ensures
        mode == mode_for(table_view(paths@), matched_path@),
{
    let wanted = matched_path.to_owned();
    let ghost table = table_view(paths@);
    let mut i: usize = 0;
    assert(table.skip(0) =~= table);
    while i < paths.len()
        invariant
            i <= paths@.len(),
            wanted@ == matched_path@,
            table == table_view(paths@),
            mode_for(table, matched_path@) == mode_for(table.skip(i as int), matched_path@),
        decreases paths@.len() - i,
    {
        proof {
            assert(table.skip(i as int)[0] == paths@[i as int]@);
            assert(table.skip(i as int).drop_first() =~= table.skip(i + 1));
        }
        let listed = paths[i].path().to_owned();
        if listed == wanted {
            return Some(paths[i].mode());
        }
        i += 1;
    }
    None
}

/// Renders the route that matched a request in the mode that the route
/// table gives for it.
///
/// The router that calls this must have been built from the same table: a
/// path that the table does not list cannot be rendered.
pub fn render_route(
    paths: Vec<PavexRouteListing>,
    matched_path: &str,
    res_options: &ResponseOptions,
    app: Vec<String>,
    chunks: Vec<String>,
) -> (response: PavexResponse)
    requires
        mode_for(table_view(paths@), matched_path@) is Some,
    ensures
        response@ == rendered(
            res_options@,
            mode_for(table_view(paths@), matched_path@)->Some_0,
            texts(app@),
            texts(chunks@),
        ),
{
    render_route_with_context(paths, matched_path, res_options, app, chunks)
}

/// Renders the route that matched a request in the mode that the route
/// table gives for it, for a session that the caller has added context to.
///
/// The router that calls this must have been built from the same table: a
/// path that the table does not list cannot be rendered.
pub fn render_route_with_context(
    paths: Vec<PavexRouteListing>,
    matched_path: &str,
    res_options: &ResponseOptions,
    app: Vec<String>,
    chunks: Vec<String>,
) -> (response: PavexResponse)
    requires
        mode_for(table_view(paths@), matched_path@) is Some,
    ensures
        response@ == rendered(
            res_options@,
            mode_for(table_view(paths@), matched_path@)->Some_0,
            texts(app@),
            texts(chunks@),
        ),
{
    let mode = route_mode(&paths, matched_path).unwrap();
    match mode {
        SsrMode::OutOfOrder => render_app_to_stream_with_context(res_options, app, chunks),
        SsrMode::PartiallyBlocked => render_app_to_stream_with_context_and_replace_blocks(
            res_options,
            app,
            chunks,
            true,
        ),
        SsrMode::InOrder => render_app_to_stream_in_order_with_context(res_options, app, chunks),
        SsrMode::Async => render_app_async_stream_with_context(res_options, app, chunks),
    }
}

/// A path has a mode exactly if the table lists it.
pub proof fn lemma_mode_for_listed(table: Seq<ListingView>, path: Seq<char>)
    ensures
        mode_for(table, path) is Some <==> exists|i: int|
            0 <= i < table.len() && (#[trigger] table[i]).path == path,
    decreases table.len(),
{
    if table.len() > 0 && table[0].path != path {
        let rest = table.drop_first();
        lemma_mode_for_listed(rest, path);
        if mode_for(rest, path) is Some {
            let i = choose|i: int| 0 <= i < rest.len() && (#[trigger] rest[i]).path == path;
            assert(table[i + 1].path == path);
        }
        if exists|i: int| 0 <= i < table.len() && (#[trigger] table[i]).path == path {
            let i = choose|i: int| 0 <= i < table.len() && (#[trigger] table[i]).path == path;
            assert(rest[i - 1].path == path);
        }
    }
}

/// In a table in which no two listings share a path, the mode of a listed
/// path is the mode of the one listing that has it.
pub proof fn lemma_mode_of_the_only_listing(table: Seq<ListingView>, i: int)
    requires
        0 <= i < table.len(),
        forall|j: int, k: int|
            0 <= j < k < table.len() ==> (#[trigger] table[j]).path != (#[trigger] table[k]).path,
    ensures
        mode_for(table, table[i].path) == Some(table[i].mode),
    decreases table.len(),
{
    if i > 0 {
        let rest = table.drop_first();
        assert(table[0].path != table[i].path);
        assert forall|j: int, k: int| 0 <= j < k < rest.len() implies (#[trigger] rest[j]).path != (
        #[trigger] rest[k]).path by {
            assert(rest[j] == table[j + 1]);
            assert(rest[k] == table[k + 1]);
        }
        lemma_mode_of_the_only_listing(rest, i - 1);
    }
}

/// In `Async` mode the tree is sent as one chunk, whatever the number of
/// its fragments, and the chunks that follow the tree come after it
/// unchanged.
pub proof fn lemma_async_sends_one_document(app: Seq<Seq<char>>, chunks: Seq<Seq<char>>)
    ensures
        stream_chunks(SsrMode::Async, app, chunks).len() == 1 + chunks.len(),
        stream_chunks(SsrMode::Async, app, chunks)[0] == joined(app),
        stream_chunks(SsrMode::Async, app, chunks).skip(1) == chunks,
{
    assert(stream_chunks(SsrMode::Async, app, chunks).skip(1) =~= chunks);
}

/// In every mode but `Async` each fragment of the tree is sent as a chunk
/// of its own, in order, before the chunks that follow the tree.
pub proof fn lemma_streaming_sends_each_fragment(
    mode: SsrMode,
    app: Seq<Seq<char>>,
    chunks: Seq<Seq<char>>,
)
    requires
        mode != SsrMode::Async,
    ensures
        stream_chunks(mode, app, chunks) == app + chunks,
{
}

/// Of the modes `OutOfOrder` and `InOrder`, it is `OutOfOrder` and no
/// other for which the renderer hands fragments out ahead of the regions
/// that are still pending.
pub proof fn lemma_only_out_of_order_runs_ahead(mode: SsrMode)
    requires
        mode == SsrMode::OutOfOrder || mode == SsrMode::InOrder,
    ensures
        source_of(mode) == FragmentSource::OutOfOrder <==> mode == SsrMode::OutOfOrder,
{
}

/// Every mode sends the same text: the fragments of the tree, then the
/// chunks that follow it.
pub proof fn lemma_modes_send_the_same_text(
    mode: SsrMode,
    app: Seq<Seq<char>>,
    chunks: Seq<Seq<char>>,
)
    ensures
        joined(stream_chunks(mode, app, chunks)) == joined(app) + joined(chunks),
{
    lemma_joined_concat(app, chunks);
    lemma_joined_concat(seq![joined(app)], chunks);
    let whole = seq![joined(app)];
    assert(whole.drop_last() =~= Seq::<Seq<char>>::empty());
    assert(joined(whole.drop_last()) =~= Seq::<char>::empty());
    assert(joined(whole) =~= joined(whole.drop_last()) + whole.last());
    assert(joined(whole) =~= joined(app));
}

/// Joining two lists of fragments one after the other joins their texts.
pub proof fn lemma_joined_concat(first: Seq<Seq<char>>, second: Seq<Seq<char>>)
    ensures
        joined(first + second) == joined(first) + joined(second),
    decreases second.len(),
{
    if second.len() == 0 {
        assert(first + second =~= first);
        assert(joined(first) + joined(second) =~= joined(first));
    } else {
        lemma_joined_concat(first, second.drop_last());
        assert((first + second).drop_last() =~= first + second.drop_last());
        assert((first + second).last() == second.last());
        assert(joined(first + second) =~= joined(first) + joined(second));
    }
}

} // verus!
