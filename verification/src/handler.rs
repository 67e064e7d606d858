//! Classification and dispatch of a fully-formed request: the control plane
//! (register and deregister under `/mocks`) mutates the registry, everything
//! else is matched against it. The transport-document codec is an external
//! collaborator: its outcome is handed in as an already-decoded mock or as
//! a decode failure.
use vstd::prelude::*;
use crate::headers::lookup;
use crate::headers::lookup_ci;
use crate::request::ReqModel;
use crate::request::Request;
use crate::store::match_of;
use crate::store::remove_id;
use crate::store::Mock;
use crate::store::MockStore;
use crate::text::str_eq;

verus! {

/// Why a register request was refused.
#[derive(Clone, Copy, Debug, PartialEq, Eq, Structural)]
pub enum ErrorTag {
    /// The register request carried no Content-Length header.
    ContentLengthMissing,
    /// The register request body did not decode to a mock.
    InvalidMockResponse,
}

/// The outcome of dispatching one request.
#[derive(Clone, Copy, Debug, PartialEq, Eq, Structural)]
pub enum Reply {
    /// A mock was decoded and stored; answered 200 with an empty body.
    Registered,
    /// A register request was refused; answered 422 with the error tag.
    Rejected(ErrorTag),
    /// A deregister request; always answered 200 with an empty body.
    Deleted,
    /// A data-plane request hit the mock at this registry position.
    Matched(usize),
    /// A data-plane request hit nothing; answered 501 with an empty body.
    Unmatched,
}

/// The request registers a mock: POST to /mocks.
pub open spec fn is_register(r: ReqModel) -> bool {
    r.method == "POST"@ && r.path == "/mocks"@
}

/// The request deregisters mocks: DELETE to /mocks.
pub open spec fn is_deregister(r: ReqModel) -> bool {
    r.method == "DELETE"@ && r.path == "/mocks"@
}

/// The request carries a Content-Length header (of any value).
pub open spec fn has_content_length(r: ReqModel) -> bool {
    lookup(r.headers, "Content-Length"@) is Some
}

/// The value of the X-Mock-Id header, found ignoring ASCII case.
pub open spec fn mock_id_header(r: ReqModel) -> Option<Seq<char>> {
    lookup_ci(r.headers, "X-Mock-Id"@)
}

/// Classify a parsed request and drive the registry. `decoded` is the
/// external codec's reading of the request body; it is consulted only for a
/// register request that carries a Content-Length header, and the registry
/// is mutated only when it holds a mock.
pub fn dispatch(store: &mut MockStore, req: &Request, decoded: Option<Mock>) -> (r: Reply)
    ensures
        is_register(req@) && !has_content_length(req@) ==> final(store)@ == old(store)@ && r
            == Reply::Rejected(ErrorTag::ContentLengthMissing),
        is_register(req@) && has_content_length(req@) ==> match decoded {
            Some(m) => final(store)@ == old(store)@.push(m) && r == Reply::Registered,
            None => final(store)@ == old(store)@ && r == Reply::Rejected(
                ErrorTag::InvalidMockResponse,
            ),
        },
        is_deregister(req@) ==> r == Reply::Deleted && match mock_id_header(req@) {
            Some(id) => final(store)@ == remove_id(old(store)@, id),
            None => final(store)@ == Seq::<Mock>::empty(),
        },
        !is_register(req@) && !is_deregister(req@) ==> final(store)@ == old(store)@ && match
            match_of(old(store)@, req@.method, req@.path) {
            Some(i) => r == Reply::Matched(i as usize),
            None => r == Reply::Unmatched,
        },
{
    proof {
        reveal_strlit("POST");
        reveal_strlit("DELETE");
        assert("POST"@.len() == 4);
        assert("DELETE"@.len() == 6);
        assert("POST"@ != "DELETE"@);
    }
    let to_mocks = str_eq(req.path_str(), "/mocks");
    let register = to_mocks && str_eq(req.method_str(), "POST");
    let deregister = to_mocks && str_eq(req.method_str(), "DELETE");
    if register {
        match req.headers().get("Content-Length") {
            None => Reply::Rejected(ErrorTag::ContentLengthMissing),
            Some(_) => match decoded {
                Some(m) => {
                    store.insert(m);
                    Reply::Registered
                },
                None => Reply::Rejected(ErrorTag::InvalidMockResponse),
            },
        }
    } else if deregister {
        match req.headers().get_ignore_case("X-Mock-Id") {
            Some(id) => store.remove_by_id(id.as_str()),
            None => store.clear(),
        }
        Reply::Deleted
    } else {
        match store.match_index(req.method_str(), req.path_str()) {
            Some(i) => Reply::Matched(i),
            None => Reply::Unmatched,
        }
    }
}

} // verus!
