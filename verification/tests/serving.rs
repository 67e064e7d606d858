//! The registry, the dispatch and the rendered wire bytes, exercised on the
//! scenarios the server is specified by.
use mockserver::dispatch;
use mockserver::start_step;
use mockserver::StartAction;
use mockserver::render_reply;
use mockserver::render_response;
use mockserver::ErrorTag;
use mockserver::Mock;
use mockserver::MockResponse;
use mockserver::MockStore;
use mockserver::Reply;
use mockserver::Request;

fn mock(id: &str, method: &str, path: &str, status: u16, body: &str) -> Mock {
    Mock {
        id: String::from(id),
        method: String::from(method),
        path: String::from(path),
        response: MockResponse {
            status,
            headers: Vec::new(),
            body: String::from(body),
        },
    }
}

fn plain_request(method: &str, path: &str) -> Request {
    let mut req = Request::default();
    req.on_url(path.as_bytes());
    req.on_message_complete();
    req.finish_parsed(String::from(method), (1, 1));
    req
}

fn register_request() -> Request {
    let mut req = Request::default();
    req.on_url(b"/mocks");
    req.on_header_field(b"Content-Length");
    req.on_header_value(b"2");
    req.on_message_complete();
    req.finish_parsed(String::from("POST"), (1, 1));
    req
}

fn delete_request(id: Option<&str>) -> Request {
    let mut req = Request::default();
    req.on_url(b"/mocks");
    if let Some(id) = id {
        req.on_header_field(b"X-MOCK-ID");
        req.on_header_value(id.as_bytes());
    }
    req.on_message_complete();
    req.finish_parsed(String::from("DELETE"), (1, 1));
    req
}

fn register(store: &mut MockStore, m: Mock) {
    let reply = dispatch(store, &register_request(), Some(m));
    assert_eq!(reply, Reply::Registered);
}

#[test]
fn registered_mock_answers_its_request() {
    let mut store = MockStore::new();
    register(&mut store, mock("1", "GET", "/greet", 203, "hello"));
    let req = plain_request("GET", "/greet");
    let reply = dispatch(&mut store, &req, None);
    assert_eq!(reply, Reply::Matched(0));
    let m = store.get(0);
    assert_eq!(m.response.status, 203);
    assert_eq!(m.response.body, "hello");
}

#[test]
fn most_recent_registration_wins() {
    let mut store = MockStore::new();
    register(&mut store, mock("1", "GET", "/x", 200, "old"));
    register(&mut store, mock("2", "GET", "/x", 200, "new"));
    let req = plain_request("GET", "/x");
    let reply = dispatch(&mut store, &req, None);
    assert_eq!(reply, Reply::Matched(1));
    assert_eq!(store.get(1).response.body, "new");
}

#[test]
fn matching_is_exact_on_method_and_path() {
    let mut store = MockStore::new();
    register(&mut store, mock("1", "GET", "/x", 200, "x"));
    assert_eq!(dispatch(&mut store, &plain_request("POST", "/x"), None), Reply::Unmatched);
    assert_eq!(dispatch(&mut store, &plain_request("GET", "/x/"), None), Reply::Unmatched);
    assert_eq!(dispatch(&mut store, &plain_request("get", "/x"), None), Reply::Unmatched);
    assert_eq!(dispatch(&mut store, &plain_request("GET", "/x"), None), Reply::Matched(0));
}

#[test]
fn delete_by_id_removes_only_that_mock() {
    let mut store = MockStore::new();
    register(&mut store, mock("a", "GET", "/only-a", 200, "a"));
    register(&mut store, mock("b", "GET", "/only-b", 200, "b"));
    let reply = dispatch(&mut store, &delete_request(Some("a")), None);
    assert_eq!(reply, Reply::Deleted);
    assert_eq!(store.len(), 1);
    assert_eq!(dispatch(&mut store, &plain_request("GET", "/only-a"), None), Reply::Unmatched);
    assert_eq!(dispatch(&mut store, &plain_request("GET", "/only-b"), None), Reply::Matched(0));
}

#[test]
fn delete_by_unknown_id_is_a_no_op() {
    let mut store = MockStore::new();
    register(&mut store, mock("a", "GET", "/a", 200, "a"));
    let reply = dispatch(&mut store, &delete_request(Some("zzz")), None);
    assert_eq!(reply, Reply::Deleted);
    assert_eq!(store.len(), 1);
}

#[test]
fn delete_by_id_removes_the_first_occurrence_only() {
    let mut store = MockStore::new();
    register(&mut store, mock("dup", "GET", "/first", 200, "1"));
    register(&mut store, mock("dup", "GET", "/second", 200, "2"));
    dispatch(&mut store, &delete_request(Some("dup")), None);
    assert_eq!(store.len(), 1);
    assert_eq!(dispatch(&mut store, &plain_request("GET", "/second"), None), Reply::Matched(0));
}

#[test]
fn delete_without_id_clears_everything() {
    let mut store = MockStore::new();
    register(&mut store, mock("a", "GET", "/a", 200, "a"));
    register(&mut store, mock("b", "POST", "/b", 200, "b"));
    let reply = dispatch(&mut store, &delete_request(None), None);
    assert_eq!(reply, Reply::Deleted);
    assert_eq!(store.len(), 0);
    assert_eq!(dispatch(&mut store, &plain_request("GET", "/a"), None), Reply::Unmatched);
    assert_eq!(dispatch(&mut store, &plain_request("POST", "/b"), None), Reply::Unmatched);
}

#[test]
fn register_without_content_length_is_rejected() {
    let mut store = MockStore::new();
    let mut req = Request::default();
    req.on_url(b"/mocks");
    req.on_message_complete();
    req.finish_parsed(String::from("POST"), (1, 1));
    let reply = dispatch(&mut store, &req, Some(mock("1", "GET", "/x", 200, "x")));
    assert_eq!(reply, Reply::Rejected(ErrorTag::ContentLengthMissing));
    assert_eq!(store.len(), 0);
}

#[test]
fn register_with_undecodable_body_is_rejected() {
    let mut store = MockStore::new();
    let reply = dispatch(&mut store, &register_request(), None);
    assert_eq!(reply, Reply::Rejected(ErrorTag::InvalidMockResponse));
    assert_eq!(store.len(), 0);
}

#[test]
fn partial_request_after_engine_error_is_dispatched_as_data_plane() {
    let mut store = MockStore::new();
    register(&mut store, mock("1", "GET", "/x", 200, "x"));
    let mut req = Request::default();
    req.finish_error(String::from("invalid HTTP method"));
    let reply = dispatch(&mut store, &req, None);
    assert_eq!(reply, Reply::Unmatched);
    assert_eq!(store.len(), 1);
}

#[test]
fn rendered_success_and_failure_lines() {
    let store = MockStore::new();
    assert_eq!(
        render_reply(&store, &Reply::Registered),
        b"HTTP/1.1 200 OK\r\n\r\n".to_vec()
    );
    assert_eq!(
        render_reply(&store, &Reply::Deleted),
        b"HTTP/1.1 200 OK\r\n\r\n".to_vec()
    );
    assert_eq!(
        render_reply(&store, &Reply::Unmatched),
        b"HTTP/1.1 501 Not Implemented\r\n\r\n".to_vec()
    );
    assert_eq!(
        render_reply(&store, &Reply::Rejected(ErrorTag::ContentLengthMissing)),
        b"HTTP/1.1 422 Unprocessable Entity\r\n\r\nContentLengthMissing".to_vec()
    );
    assert_eq!(
        render_reply(&store, &Reply::Rejected(ErrorTag::InvalidMockResponse)),
        b"HTTP/1.1 422 Unprocessable Entity\r\n\r\nInvalidMockResponse".to_vec()
    );
}

#[test]
fn round_trip_keeps_headers_and_body_byte_for_byte() {
    let mut store = MockStore::new();
    let mut m = mock("1", "GET", "/data", 299, "payload \u{00e9}");
    m.response.headers.push((String::from("X-One"), String::from("alpha")));
    m.response.headers.push((String::from("X-One"), String::from("beta")));
    m.response.headers.push((String::from("X-Two"), String::from("gamma")));
    register(&mut store, m);
    let reply = dispatch(&mut store, &plain_request("GET", "/data"), None);
    assert_eq!(reply, Reply::Matched(0));
    let expected =
        b"HTTP/1.1 299\r\nX-One: alpha\r\nX-One: beta\r\nX-Two: gamma\r\n\r\npayload \xc3\xa9";
    assert_eq!(render_reply(&store, &reply), expected.to_vec());
}

#[test]
fn render_response_writes_status_headers_and_body() {
    let headers = vec![(String::from("Content-Type"), String::from("text/plain"))];
    assert_eq!(
        render_response(404, &headers, "gone"),
        b"HTTP/1.1 404\r\nContent-Type: text/plain\r\n\r\ngone".to_vec()
    );
}

#[test]
fn concrete_scenario_hello_then_clear() {
    let mut store = MockStore::new();
    register(&mut store, mock("1", "GET", "/hello", 200, "hi"));

    let reply = dispatch(&mut store, &plain_request("GET", "/hello"), None);
    assert_eq!(reply, Reply::Matched(0));
    assert_eq!(
        render_reply(&store, &reply),
        b"HTTP/1.1 200 OK\r\n\r\nhi".to_vec()
    );

    let reply = dispatch(&mut store, &plain_request("GET", "/other"), None);
    assert_eq!(reply, Reply::Unmatched);
    assert_eq!(
        render_reply(&store, &reply),
        b"HTTP/1.1 501 Not Implemented\r\n\r\n".to_vec()
    );

    dispatch(&mut store, &delete_request(None), None);
    let reply = dispatch(&mut store, &plain_request("GET", "/hello"), None);
    assert_eq!(reply, Reply::Unmatched);
    assert_eq!(
        render_reply(&store, &reply),
        b"HTTP/1.1 501 Not Implemented\r\n\r\n".to_vec()
    );
}

#[test]
fn start_protocol_spawns_only_when_nothing_listens_yet() {
    assert_eq!(start_step(true, false), StartAction::Finish);
    assert_eq!(start_step(true, true), StartAction::Finish);
    assert_eq!(start_step(false, false), StartAction::Spawn);
    assert_eq!(start_step(false, true), StartAction::Probe);
}

#[test]
fn delete_header_name_is_found_ignoring_case() {
    let mut store = MockStore::new();
    register(&mut store, mock("a", "GET", "/a", 200, "a"));
    register(&mut store, mock("b", "GET", "/b", 200, "b"));
    let mut req = Request::default();
    req.on_url(b"/mocks");
    req.on_header_field(b"x-mock-id");
    req.on_header_value(b"b");
    req.on_message_complete();
    req.finish_parsed(String::from("DELETE"), (1, 1));
    dispatch(&mut store, &req, None);
    assert_eq!(store.len(), 1);
    assert_eq!(store.get(0).id, "a");
}
