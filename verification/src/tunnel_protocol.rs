//! The messages the relay and the `tunnel` client exchange over the
//! websocket, and which HTTP headers may cross it.
use vstd::prelude::*;

use crate::text::{ascii_lower_code, chars_eq_ignore_ascii_case, chars_of, eq_ignore_ascii_case};

verus! {

/// Header names that must never be replayed across a proxy hop: the
/// RFC 7230 §6.1 hop-by-hop set, plus `host`, which names the wrong
/// destination on the other side of the tunnel.
pub open spec fn non_forwardable_headers() -> Seq<Seq<char>> {
    seq![
        "connection"@,
        "keep-alive"@,
        "proxy-authenticate"@,
        "proxy-authorization"@,
        "te"@,
        "trailer"@,
        "transfer-encoding"@,
        "upgrade"@,
        "host"@,
    ]
}

/// A header may be forwarded unless its name matches, ignoring ASCII case,
/// one of the non-forwardable names.
pub open spec fn forwardable(name: Seq<char>) -> bool {
    forall|i: int|
        0 <= i < non_forwardable_headers().len() ==> !eq_ignore_ascii_case(
            #[trigger] non_forwardable_headers()[i],
            name,
        )
}

/// `host` and the hop-by-hop headers of RFC 7230 (`connection`,
/// `keep-alive`, `proxy-authenticate`, `proxy-authorization`, `te`,
/// `trailer`, `transfer-encoding`, `upgrade`) never cross the tunnel,
/// whatever their case; every other name does.
pub proof fn hop_by_hop_headers_never_cross(name: Seq<char>)
    ensures
        !forwardable(name) <==> (eq_ignore_ascii_case("connection"@, name) || eq_ignore_ascii_case("keep-alive"@, name) || eq_ignore_ascii_case("proxy-authenticate"@, name) || eq_ignore_ascii_case("proxy-authorization"@, name) || eq_ignore_ascii_case("te"@, name) || eq_ignore_ascii_case("trailer"@, name) || eq_ignore_ascii_case("transfer-encoding"@, name) || eq_ignore_ascii_case("upgrade"@, name) || eq_ignore_ascii_case("host"@, name)),
{
    let hs = non_forwardable_headers();
    assert(hs[0] == "connection"@);
    assert(hs[1] == "keep-alive"@);
    assert(hs[2] == "proxy-authenticate"@);
    assert(hs[3] == "proxy-authorization"@);
    assert(hs[4] == "te"@);
    assert(hs[5] == "trailer"@);
    assert(hs[6] == "transfer-encoding"@);
    assert(hs[7] == "upgrade"@);
    assert(hs[8] == "host"@);
    if !forwardable(name) {
        let i = choose|i: int| 0 <= i < hs.len() && eq_ignore_ascii_case(#[trigger] hs[i], name);
        assert(0 <= i < 9);
    }
}

fn non_forwardable_header(i: usize) -> (h: &'static str)
    requires
        i < 9,
    ensures
        h@ == non_forwardable_headers()[i as int],
{
    match i {
        0 => "connection",
        1 => "keep-alive",
        2 => "proxy-authenticate",
        3 => "proxy-authorization",
        4 => "te",
        5 => "trailer",
        6 => "transfer-encoding",
        7 => "upgrade",
        _ => "host",
    }
}

/// Whether `name` is a header that may be forwarded, rather than dropped,
/// when replaying a request or response across the tunnel.
pub fn is_forwardable_header(name: &str) -> (r: bool)
    ensures
        r == forwardable(name@),
{
    let nv = chars_of(name);
    let mut i: usize = 0;
    while i < 9
        invariant
            i <= 9,
            nv@ == name@,
            forall|k: int| 0 <= k < i ==> !eq_ignore_ascii_case(#[trigger] non_forwardable_headers()[k], name@),
        decreases 9 - i,
    {
        let hv = chars_of(non_forwardable_header(i));
        if chars_eq_ignore_ascii_case(&hv, &nv) {
            return false;
        }
        i = i + 1;
    }
    true
}

/// Whether a header may be forwarded does not depend on the ASCII case of
/// its name.
pub proof fn forwardable_ignores_case(a: Seq<char>, b: Seq<char>)
    requires
        eq_ignore_ascii_case(a, b),
    ensures
        forwardable(a) == forwardable(b),
{
    assert forall|i: int| 0 <= i < non_forwardable_headers().len() implies eq_ignore_ascii_case(
        #[trigger] non_forwardable_headers()[i],
        a,
    ) == eq_ignore_ascii_case(non_forwardable_headers()[i], b) by {
        let h = non_forwardable_headers()[i];
        if eq_ignore_ascii_case(h, a) {
            assert forall|k: int| 0 <= k < h.len() implies ascii_lower_code(#[trigger] h[k]) == ascii_lower_code(b[k]) by {
                assert(ascii_lower_code(a[k]) == ascii_lower_code(b[k]));
            }
        }
        if eq_ignore_ascii_case(h, b) {
            assert forall|k: int| 0 <= k < h.len() implies ascii_lower_code(#[trigger] h[k]) == ascii_lower_code(a[k]) by {
                assert(ascii_lower_code(a[k]) == ascii_lower_code(b[k]));
            }
        }
    }
}

/// An HTTP request the relay received on the public URL, carried across the
/// websocket so it can be replayed locally. The body is UTF-8 text.
#[derive(Debug, Clone)]
pub struct ForwardedRequest {
    /// Correlates this request with its `ForwardedResponse`.
    pub id: String,
    pub method: String,
    pub path: String,
    pub headers: Vec<(String, String)>,
    pub body: String,
}

/// The client's response to a `ForwardedRequest`.
#[derive(Debug, Clone)]
pub struct ForwardedResponse {
    pub id: String,
    pub status: u16,
    pub headers: Vec<(String, String)>,
    pub body: String,
}

/// Messages the relay sends down the websocket to the `tunnel` client.
#[derive(Debug, Clone)]
pub enum RelayToClient {
    /// Sent once, right after the client connects, with the public URL
    /// Daraja callbacks should be pointed at.
    Connected { public_url: String },
    /// An inbound HTTP request to replay against the client's local server.
    Forward(ForwardedRequest),
}

/// Messages the `tunnel` client sends back up the websocket to the relay.
#[derive(Debug, Clone)]
pub enum ClientToRelay {
    Response(ForwardedResponse),
}

} // verus!
