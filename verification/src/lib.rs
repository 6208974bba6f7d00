//! Streaming render dispatch and route-table synthesis for serving a
//! Leptos component tree from a Pavex application.

pub mod context;
pub mod file_helpers;
pub mod headers;
pub mod render;
pub mod request_parts;
pub mod response;
pub mod response_options;
pub mod routes;

pub use context::{provide_contexts, redirect, redirect_session, RedirectOutcome, RenderingSession};
pub use render::{
    fragment_source, handle_response, render_app_async, render_app_async_stream_with_context,
    render_app_async_with_context, render_app_to_stream, render_app_to_stream_in_order,
    render_app_to_stream_in_order_with_context, render_app_to_stream_with_context,
    render_app_to_stream_with_context_and_replace_blocks, render_route,
    render_route_with_context, request_session, route_mode, FragmentSource,
};
pub use routes::{
    generate_route_list, generate_route_list_with_exclusions,
    generate_route_list_with_exclusions_and_ssg,
    generate_route_list_with_exclusions_and_ssg_and_context, generate_route_list_with_ssg,
    to_pavex_path, Method, PathSegment, PavexRouteListing, RouteListing, SsrMode, StaticDataMap,
    StaticMode,
};
