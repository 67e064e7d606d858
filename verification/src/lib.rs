//! An embeddable HTTP mocking server core: callers register canned
//! request -> response definitions ("mocks"), incoming requests are matched
//! against the registry and answered with the stored response.
//!
//! This crate holds the verified logic: the request accumulator fed by a
//! grammar engine's events, the mock registry with its matching and deletion
//! semantics, the control-plane dispatch, and the byte-exact rendering of
//! responses. The blocking network loop and the transport-document codec live
//! outside, against this crate's public surface.
mod handler;
mod headers;
mod laws;
mod render;
mod request;
mod startup;
mod store;
mod text;

pub use handler::dispatch;
pub use handler::ErrorTag;
pub use handler::Reply;
pub use headers::Headers;
pub use laws::lemma_delete_preserves_other_matches;
pub use laws::lemma_delete_removes_only_match;
pub use laws::lemma_empty_matches_nothing;
pub use laws::lemma_latest_registration_wins;
pub use laws::lemma_registered_mock_wins;
pub use laws::lemma_round_trip_bytes;
pub use render::render_reply;
pub use render::render_response;
pub use request::ReqModel;
pub use request::Request;
pub use startup::start_step;
pub use startup::StartAction;
pub use store::Mock;
pub use store::MockResponse;
pub use store::MockStore;
pub use text::eq_ignore_ascii_case;
pub use text::parse_usize;
pub use text::str_eq;
