//! One incoming request, built up by the lifecycle events of a grammar
//! engine: the engine recognizes the HTTP grammar on raw bytes and raises
//! events; this type is the event sink that accumulates the structured
//! request.
use vstd::prelude::*;
use crate::headers::Headers;
use crate::headers::key_index;
use crate::headers::lookup;
use crate::text::dec_val;
use crate::text::parseable_usize;
use crate::text::parse_usize;

verus! {

/// What `String::from_utf8_lossy` decodes the given bytes to: a function of
/// the bytes alone (invalid UTF-8 sequences become replacement characters).
pub uninterp spec fn lossy_utf8(bytes: Seq<u8>) -> Seq<char>;

/// Relies on `String::from_utf8_lossy` (std): the decoding depends on the
/// bytes alone; `into_owned` only detaches the copy-on-write result.
#[verifier::external_body]
fn lossy_string(value: &[u8]) -> (r: String)
    ensures
        r@ == lossy_utf8(value@),
{
    String::from_utf8_lossy(value).into_owned()
}

/// The mathematical content of a `Request`.
pub ghost struct ReqModel {
    /// Negotiated protocol version, major then minor.
    pub version: (u16, u16),
    /// Request method, as the engine reported it.
    pub method: Seq<char>,
    /// Request path, as received on the request line.
    pub path: Seq<char>,
    /// Header mapping, last write wins, names as received.
    pub headers: Seq<(Seq<char>, Seq<char>)>,
    /// Request body, lossily decoded.
    pub body: Seq<char>,
    /// A descriptive grammar-error message, if the engine failed.
    pub error: Option<Seq<char>>,
    /// True once the engine raised message-complete.
    pub is_parsed: bool,
    /// A header name seen whose value has not arrived yet.
    pub pending: Option<Seq<char>>,
}

/// The effect of storing `value` under `name` in the header mapping `s`:
/// overwritten in place if present, appended otherwise.
pub open spec fn header_upsert(
    s: Seq<(Seq<char>, Seq<char>)>,
    name: Seq<char>,
    value: Seq<char>,
) -> Seq<(Seq<char>, Seq<char>)> {
    match key_index(s, name) {
        Some(i) => s.update(i, (name, value)),
        None => s.push((name, value)),
    }
}

/// A structured request, accumulated event by event. Once `is_parsed` is
/// true, method and version are only trustworthy if no error is recorded.
pub struct Request {
    version: (u16, u16),
    method: String,
    path: String,
    headers: Headers,
    body: String,
    error: Option<String>,
    is_parsed: bool,
    last_header_field: Option<String>,
}

impl View for Request {
    type V = ReqModel;

    closed spec fn view(&self) -> ReqModel {
        ReqModel {
            version: self.version,
            method: self.method@,
            path: self.path@,
            headers: self.headers@,
            body: self.body@,
            error: match self.error {
                Some(ref e) => Some(e@),
                None => None,
            },
            is_parsed: self.is_parsed,
            pending: match self.last_header_field {
                Some(ref f) => Some(f@),
                None => None,
            },
        }
    }
}

impl Default for Request {
    /// An empty request: nothing received, version 1.1, no error.
    fn default() -> (r: Request)
        ensures
            r@ == (ReqModel {
                version: (1u16, 1u16),
                method: Seq::<char>::empty(),
                path: Seq::<char>::empty(),
                headers: Seq::<(Seq<char>, Seq<char>)>::empty(),
                body: Seq::<char>::empty(),
                error: None,
                is_parsed: false,
                pending: None,
            }),
    {
        let r = Request {
            version: (1, 1),
            method: String::new(),
            path: String::new(),
            headers: Headers::new(),
            body: String::new(),
            error: None,
            is_parsed: false,
            last_header_field: None,
        };
        r
    }
}

impl Request {
    /// The request method, as the model has it.
    pub fn method_str(&self) -> (r: &str)
        ensures
            r@ == self@.method,
    {
        self.method.as_str()
    }

    /// The request path, as the model has it.
    pub fn path_str(&self) -> (r: &str)
        ensures
            r@ == self@.path,
    {
        self.path.as_str()
    }

    /// The request body, as the model has it.
    pub fn body_str(&self) -> (r: &str)
        ensures
            r@ == self@.body,
    {
        self.body.as_str()
    }

    /// The header mapping of the request.
    pub fn headers(&self) -> (r: &Headers)
        ensures
            r@ == self@.headers,
    {
        &self.headers
    }

    /// Whether the grammar engine reported an error for this request.
    pub fn has_error(&self) -> (r: bool)
        ensures
            r == (self@.error is Some),
    {
        self.error.is_some()
    }

    /// Whether the engine raised message-complete for this request.
    pub fn is_parsed(&self) -> (r: bool)
        ensures
            r == self@.is_parsed,
    {
        self.is_parsed
    }

    /// The integer value of the Content-Length header if it is present and
    /// parseable, 0 otherwise.
    pub fn content_length(&self) -> (r: usize)
        ensures
            match lookup(self@.headers, "Content-Length"@) {
                Some(v) => (parseable_usize(v) ==> r == dec_val(v)) && (!parseable_usize(v)
                    ==> r == 0),
                None => r == 0,
            },
    {
        match self.headers.get("Content-Length") {
            Some(v) => match parse_usize(v.as_str()) {
                Some(n) => n,
                None => 0,
            },
            None => 0,
        }
    }

    /// Message-begin event: no state change.
    pub fn on_message_begin(&mut self)
        ensures
            final(self)@ == old(self)@,
    {
    }

    /// Url event: the bytes, lossily decoded, become the path.
    pub fn on_url(&mut self, value: &[u8])
        ensures
            final(self)@ == (ReqModel { path: lossy_utf8(value@), ..old(self)@ }),
    {
        self.path = lossy_string(value);
    }

    /// Header-field event: remember the name as pending; a new field
    /// overwrites any previous pending name.
    pub fn on_header_field(&mut self, value: &[u8])
        ensures
            final(self)@ == (ReqModel { pending: Some(lossy_utf8(value@)), ..old(self)@ }),
    {
        self.last_header_field = Some(lossy_string(value));
    }

    /// Header-value event: with a pending name, store (name -> value) and
    /// clear the pending name; without one, discard the value silently.
    pub fn on_header_value(&mut self, value: &[u8])
        ensures
            match old(self)@.pending {
                Some(f) => final(self)@ == (ReqModel {
                    headers: header_upsert(old(self)@.headers, f, lossy_utf8(value@)),
                    pending: None,
                    ..old(self)@
                }),
                None => final(self)@ == old(self)@,
            },
    {
        let pending = match &self.last_header_field {
            Some(f) => Some(f.clone()),
            None => None,
        };
        match pending {
            Some(f) => {
                let v = lossy_string(value);
                self.headers.insert(f, v);
                self.last_header_field = None;
            },
            None => {},
        }
    }

    /// Chunk-header event: observed, no state change.
    pub fn on_chunk_header(&mut self)
        ensures
            final(self)@ == old(self)@,
    {
    }

    /// Headers-complete event: observed, no state change.
    pub fn on_headers_complete(&mut self)
        ensures
            final(self)@ == old(self)@,
    {
    }

    /// Body event: the bytes, lossily decoded, become the body; a later
    /// body event overwrites an earlier one.
    pub fn on_body(&mut self, value: &[u8])
        ensures
            final(self)@ == (ReqModel { body: lossy_utf8(value@), ..old(self)@ }),
    {
        self.body = lossy_string(value);
    }

    /// Message-complete event: the request counts as fully parsed.
    pub fn on_message_complete(&mut self)
        ensures
            final(self)@ == (ReqModel { is_parsed: true, ..old(self)@ }),
    {
        self.is_parsed = true;
    }

    /// After the read loop, on an engine error: record the message; method
    /// and version are left as they were.
    pub fn finish_error(&mut self, message: String)
        ensures
            final(self)@ == (ReqModel { error: Some(message@), ..old(self)@ }),
    {
        self.error = Some(message);
    }

    /// After the read loop, without an engine error: copy the negotiated
    /// method and version from the engine.
    pub fn finish_parsed(&mut self, method: String, version: (u16, u16))
        ensures
            final(self)@ == (ReqModel { method: method@, version: version, ..old(self)@ }),
    {
        self.method = method;
        self.version = version;
    }
}

} // verus!
