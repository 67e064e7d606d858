//! Byte-exact rendering of the outgoing HTTP response: status line with the
//! stored status code, the stored header list verbatim and in order, a blank
//! line, then the stored body.
use vstd::prelude::*;
use vstd::string::StringSliceAdditionalSpecFns;
use vstd::utf8::encode_utf8;
use crate::handler::ErrorTag;
use crate::handler::Reply;
use crate::store::Mock;
use crate::store::MockStore;

verus! {

/// The decimal numeral of `n` as ASCII digit bytes, most significant first.
pub open spec fn dec_digits(n: int) -> Seq<u8>
    decreases n,
{
    if n < 10 {
        seq![(48 + n) as u8]
    } else {
        dec_digits(n / 10).push((48 + n % 10) as u8)
    }
}

/// The reason phrase written after the status code; empty for a code
/// without a canonical phrase here.
pub open spec fn reason_spec(status: u16) -> Seq<u8> {
    if status == 200 {
        " OK".spec_bytes()
    } else if status == 422 {
        " Unprocessable Entity".spec_bytes()
    } else if status == 501 {
        " Not Implemented".spec_bytes()
    } else {
        Seq::<u8>::empty()
    }
}

/// The status line: protocol, code, reason phrase, CRLF.
pub open spec fn status_line_spec(status: u16) -> Seq<u8> {
    "HTTP/1.1 ".spec_bytes() + dec_digits(status as int) + reason_spec(status)
        + "\r\n".spec_bytes()
}

/// One header line: name, a colon and a space, value, CRLF.
pub open spec fn header_line_spec(h: (String, String)) -> Seq<u8> {
    encode_utf8(h.0@) + ": ".spec_bytes() + encode_utf8(h.1@) + "\r\n".spec_bytes()
}

/// The header block: one line per entry, in the stored order.
pub open spec fn header_block_spec(hs: Seq<(String, String)>) -> Seq<u8>
    decreases hs.len(),
{
    if hs.len() == 0 {
        Seq::<u8>::empty()
    } else {
        header_block_spec(hs.drop_last()) + header_line_spec(hs.last())
    }
}

/// The full wire response: status line, header block, blank line, body.
pub open spec fn response_bytes_spec(
    status: u16,
    hs: Seq<(String, String)>,
    body: Seq<char>,
) -> Seq<u8> {
    status_line_spec(status) + header_block_spec(hs) + "\r\n".spec_bytes() + encode_utf8(body)
}

/// Append every byte of `s` to `out`.
#[verifier::loop_isolation(false)]
fn push_slice(out: &mut Vec<u8>, s: &[u8])
    ensures
        final(out)@ == old(out)@ + s@,
{
    let n = s.len();
    let mut i: usize = 0;
    while i < n
        invariant
            n == s@.len(),
            i <= n,
            out@ == old(out)@ + s@.take(i as int),
        decreases n - i,
    {
        out.push(s[i]);
        proof {
            assert(out@ =~= old(out)@ + s@.take(i as int + 1));
        }
        i += 1;
    }
    proof {
        assert(old(out)@ + s@.take(n as int) =~= old(out)@ + s@);
    }
}

/// Append the decimal numeral of `n`.
fn push_dec(out: &mut Vec<u8>, n: u16)
    ensures
        final(out)@ == old(out)@ + dec_digits(n as int),
    decreases n,
{
    if n >= 10 {
        push_dec(out, n / 10);
    }
    let d: u8 = (n % 10) as u8 + 48;
    out.push(d);
    proof {
        assert(out@ =~= old(out)@ + dec_digits(n as int));
    }
}

/// Render a response from its parts; the result is exactly the wire bytes.
#[verifier::loop_isolation(false)]
pub fn render_response(status: u16, headers: &Vec<(String, String)>, body: &str) -> (r: Vec<u8>)
    ensures
        r@ == response_bytes_spec(status, headers@, body@),
{
    let mut out: Vec<u8> = Vec::new();
    push_slice(&mut out, "HTTP/1.1 ".as_bytes());
    push_dec(&mut out, status);
    if status == 200 {
        push_slice(&mut out, " OK".as_bytes());
    } else if status == 422 {
        push_slice(&mut out, " Unprocessable Entity".as_bytes());
    } else if status == 501 {
        push_slice(&mut out, " Not Implemented".as_bytes());
    }
    push_slice(&mut out, "\r\n".as_bytes());
    proof {
        assert(out@ =~= status_line_spec(status));
    }
    let n = headers.len();
    let mut i: usize = 0;
    while i < n
        invariant
            n == headers@.len(),
            i <= n,
            out@ == status_line_spec(status) + header_block_spec(headers@.take(i as int)),
        decreases n - i,
    {
        let h = &headers[i];
        push_slice(&mut out, h.0.as_str().as_bytes());
        push_slice(&mut out, ": ".as_bytes());
        push_slice(&mut out, h.1.as_str().as_bytes());
        push_slice(&mut out, "\r\n".as_bytes());
        proof {
            assert(headers@.take(i as int + 1).drop_last() =~= headers@.take(i as int));
            assert(headers@.take(i as int + 1).last() == headers@[i as int]);
            assert(out@ =~= status_line_spec(status) + header_block_spec(
                headers@.take(i as int + 1),
            ));
        }
        i += 1;
    }
    proof {
        assert(headers@.take(n as int) =~= headers@);
    }
    push_slice(&mut out, "\r\n".as_bytes());
    push_slice(&mut out, body.as_bytes());
    proof {
        assert(out@ =~= response_bytes_spec(status, headers@, body@));
    }
    out
}

/// The wire text of an error tag, as written into a 422 body.
pub open spec fn tag_text(tag: ErrorTag) -> Seq<char> {
    match tag {
        ErrorTag::ContentLengthMissing => "ContentLengthMissing"@,
        ErrorTag::InvalidMockResponse => "InvalidMockResponse"@,
    }
}

/// The wire bytes owed for a reply, given the registry it speaks of.
pub open spec fn reply_bytes_spec(s: Seq<Mock>, reply: Reply) -> Seq<u8> {
    match reply {
        Reply::Registered => response_bytes_spec(
            200,
            Seq::<(String, String)>::empty(),
            Seq::<char>::empty(),
        ),
        Reply::Rejected(tag) => response_bytes_spec(
            422,
            Seq::<(String, String)>::empty(),
            tag_text(tag),
        ),
        Reply::Deleted => response_bytes_spec(
            200,
            Seq::<(String, String)>::empty(),
            Seq::<char>::empty(),
        ),
        Reply::Matched(i) => response_bytes_spec(
            s[i as int].response.status,
            s[i as int].response.headers@,
            s[i as int].response.body@,
        ),
        Reply::Unmatched => response_bytes_spec(
            501,
            Seq::<(String, String)>::empty(),
            Seq::<char>::empty(),
        ),
    }
}

/// Render the wire response for a dispatch reply. A matched reply points at
/// the mock whose stored status, header list and body are written verbatim.
pub fn render_reply(store: &MockStore, reply: &Reply) -> (r: Vec<u8>)
    requires
        match *reply {
            Reply::Matched(i) => i < store@.len(),
            _ => true,
        },
    ensures
        r@ == reply_bytes_spec(store@, *reply),
{
    let empty_headers: Vec<(String, String)> = Vec::new();
    proof {
        reveal_strlit("");
        assert(""@ =~= Seq::<char>::empty());
        assert(empty_headers@ =~= Seq::<(String, String)>::empty());
    }
    match reply {
        Reply::Registered => render_response(200, &empty_headers, ""),
        Reply::Rejected(tag) => match tag {
            ErrorTag::ContentLengthMissing => render_response(
                422,
                &empty_headers,
                "ContentLengthMissing",
            ),
            ErrorTag::InvalidMockResponse => render_response(
                422,
                &empty_headers,
                "InvalidMockResponse",
            ),
        },
        Reply::Deleted => render_response(200, &empty_headers, ""),
        Reply::Matched(i) => {
            let m = store.get(*i);
            render_response(m.response.status, &m.response.headers, m.response.body.as_str())
        },
        Reply::Unmatched => render_response(501, &empty_headers, ""),
    }
}

} // verus!
