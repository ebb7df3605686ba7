//! Routing decisions of the relay that backs `mpesa-dev tunnel`: which
//! tunnel a request's `Host` belongs to, the ids it hands out, and what it
//! forwards down the websocket.
use vstd::prelude::*;
use vstd::string::StrSliceExecFns;

use rand::Rng;

use crate::text::{same_text, chars_of, first_piece, first_piece_of, has_suffix, matches_at, occurs_at};
use crate::tunnel_protocol::{forwardable, is_forwardable_header, ForwardedRequest};

verus! {

/// `rand`'s thread-local generator, held only to draw from it.
#[verifier::external_type_specification]
#[verifier::external_body]
pub struct ExThreadRng(rand::rngs::ThreadRng);

/// `rand::thread_rng()`: a handle to the lazily seeded thread-local
/// generator. Nothing is claimed of its state.
#[verifier::external_body]
fn thread_rng() -> rand::rngs::ThreadRng {
    rand::thread_rng()
}

/// `Rng::gen_range(0..bound)` on the thread-local generator. `rand`
/// documents that it panics on an empty range, hence `bound > 0`; the only
/// claim is that the result lies in the range.
#[verifier::external_body]
fn gen_index(rng: &mut rand::rngs::ThreadRng, bound: usize) -> (r: usize)
    requires
        bound > 0,
    ensures
        r < bound,
{
    rng.gen_range(0..bound)
}

/// The characters ids are drawn from.
pub open spec fn id_alphabet() -> Seq<char> {
    "abcdefghijklmnopqrstuvwxyz0123456789"@
}

/// A well-formed id: eight characters of the id alphabet.
pub open spec fn is_id(s: Seq<char>) -> bool {
    &&& s.len() == 8
    &&& forall|i: int| 0 <= i < 8 ==> id_alphabet().contains(#[trigger] s[i])
}

/// The id spelled by eight draws from the alphabet: draw `i` picks the
/// `i`-th character.
pub open spec fn id_of_draws(draws: Seq<usize>) -> Seq<char> {
    Seq::new(8, |i: int| id_alphabet()[draws[i] as int])
}

/// The id that eight alphabet positions spell.
pub fn id_from_draws(draws: &Vec<usize>) -> (id: String)
    requires
        draws@.len() == 8,
        forall|i: int| 0 <= i < 8 ==> draws@[i] < 36,
    ensures
        id@ == id_of_draws(draws@),
{
    let alphabet = "abcdefghijklmnopqrstuvwxyz0123456789";
    proof {
        reveal_strlit("abcdefghijklmnopqrstuvwxyz0123456789");
    }
    let mut id = String::new();
    let mut n: usize = 0;
    while n < 8
        invariant
            n <= 8,
            draws@.len() == 8,
            forall|i: int| 0 <= i < 8 ==> draws@[i] < 36,
            alphabet@ == id_alphabet(),
            alphabet@.len() == 36,
            id@ == id_of_draws(draws@).take(n as int),
        decreases 8 - n,
    {
        let k: usize = draws[n];
        let piece = alphabet.substring_char(k, k + 1);
        id.append(piece);
        assert(id@ =~= id_of_draws(draws@).take(n + 1));
        n = n + 1;
    }
    assert(id@ =~= id_of_draws(draws@));
    id
}

/// A fresh random eight-character id over `a`..=`z` and `0`..=`9`: eight
/// independent draws from the generator, spelled by `id_from_draws`.
pub fn generate_id() -> (id: String)
    ensures
        is_id(id@),
        exists|draws: Seq<usize>|
            draws.len() == 8 && (forall|i: int| 0 <= i < 8 ==> draws[i] < 36) && id@ == id_of_draws(draws),
{
    let mut rng = thread_rng();
    let mut draws: Vec<usize> = Vec::new();
    while draws.len() < 8
        invariant
            draws@.len() <= 8,
            forall|i: int| 0 <= i < draws@.len() ==> draws@[i] < 36,
        decreases 8 - draws@.len(),
    {
        draws.push(gen_index(&mut rng, 36));
    }
    let id = id_from_draws(&draws);
    proof {
        reveal_strlit("abcdefghijklmnopqrstuvwxyz0123456789");
        assert forall|i: int| 0 <= i < 8 implies id_alphabet().contains(#[trigger] id@[i]) by {
            assert(id_alphabet()[draws@[i] as int] == id@[i]);
        }
    }
    id
}

/// The host without any `:port` part.
pub open spec fn host_only(host: Seq<char>) -> Seq<char> {
    first_piece(host, seq![':'])
}

/// The tunnel a request addressed to `host` belongs to: the non-empty label
/// in front of `.{public_base}`, once any port is dropped.
pub open spec fn tunnel_id(host: Seq<char>, public_base: Seq<char>) -> Option<Seq<char>> {
    let h = host_only(host);
    let suffix = seq!['.'] + public_base;
    if has_suffix(h, suffix) && h.len() > suffix.len() {
        Some(h.take(h.len() - suffix.len()))
    } else {
        None
    }
}

/// Extracts the tunnel id from a request's `Host` header, given the relay's
/// public base domain: `a1b2c3d4.tunnel.example.com:443` yields `a1b2c3d4`.
pub fn tunnel_id_from_host(host: &str, public_base: &str) -> (r: Option<String>)
    ensures
        match r {
            Some(id) => tunnel_id(host@, public_base@) == Some(id@),
            None => tunnel_id(host@, public_base@) is None,
        },
{
    proof {
        reveal_strlit(":");
        reveal_strlit(".");
    }
    let h = first_piece_of(host, ":");
    assert(":"@ =~= seq![':']);
    assert(h@ == host_only(host@));
    let mut suffix = String::from_str(".");
    suffix.append(public_base);
    assert(suffix@ =~= seq!['.'] + public_base@);
    let hv = chars_of(h);
    let sv = chars_of(suffix.as_str());
    if sv.len() > hv.len() {
        return None;
    }
    let start: usize = hv.len() - sv.len();
    if !matches_at(&hv, &sv, start) {
        return None;
    }
    if start == 0 {
        return None;
    }
    Some(String::from_str(h.substring_char(0, start)))
}

proof fn lemma_host_only_without_port(h: Seq<char>)
    requires
        !h.contains(':'),
    ensures
        host_only(h) == h,
{
    assert forall|i: int| !occurs_at(h, seq![':'], i) by {
        if occurs_at(h, seq![':'], i) {
            assert(h.subrange(i, i + 1)[0] == ':');
            assert(h[i] == ':');
        }
    }
}

proof fn lemma_host_only_with_port(h: Seq<char>, port: Seq<char>)
    requires
        !h.contains(':'),
    ensures
        host_only(h + seq![':'] + port) == h,
{
    let s = h + seq![':'] + port;
    let p: int = h.len() as int;
    assert(s.subrange(p, p + 1) =~= seq![':']);
    assert(occurs_at(s, seq![':'], p));
    assert forall|j: int| 0 <= j < p implies !occurs_at(s, seq![':'], j) by {
        if occurs_at(s, seq![':'], j) {
            assert(s.subrange(j, j + 1)[0] == ':');
            assert(h[j] == s[j]);
        }
    }
    let k = choose|i: int| occurs_at(s, seq![':'], i) && forall|j: int| 0 <= j < i ==> !occurs_at(s, seq![':'], j);
    assert(k == p) by {
        if k < p {
            assert(!occurs_at(s, seq![':'], k));
        } else if k > p {
            assert(!occurs_at(s, seq![':'], p));
        }
    }
    assert(s.take(p) =~= h);
}

proof fn lemma_tunnel_id_of_host_only(id: Seq<char>, public_base: Seq<char>)
    requires
        id.len() > 0,
    ensures
        ({
            let h = id + seq!['.'] + public_base;
            let suffix = seq!['.'] + public_base;
            has_suffix(h, suffix) && h.len() > suffix.len() && h.take(h.len() - suffix.len()) == id
        }),
{
    let h = id + seq!['.'] + public_base;
    let suffix = seq!['.'] + public_base;
    assert(h.subrange(h.len() - suffix.len(), h.len() as int) =~= suffix);
    assert(h.take(h.len() - suffix.len()) =~= id);
}

/// A request that arrives at a tunnel's public host, with or without a
/// port, is routed back to the tunnel whose id names that host: the id is
/// recovered from `{id}.{public_base}` and from `{id}.{public_base}:{port}`.
pub proof fn tunnel_id_of_public_host(id: Seq<char>, public_base: Seq<char>, port: Seq<char>)
    requires
        id.len() > 0,
        !id.contains(':'),
        !public_base.contains(':'),
    ensures
        tunnel_id(id + seq!['.'] + public_base, public_base) == Some(id),
        tunnel_id(id + seq!['.'] + public_base + seq![':'] + port, public_base) == Some(id),
{
    let h = id + seq!['.'] + public_base;
    assert(!h.contains(':')) by {
        if h.contains(':') {
            let i = choose|i: int| 0 <= i < h.len() && h[i] == ':';
            if i < id.len() {
                assert(id[i] == ':');
            } else if i > id.len() {
                assert(public_base[i - id.len() - 1] == ':');
            }
        }
    }
    lemma_host_only_without_port(h);
    lemma_host_only_with_port(h, port);
    lemma_tunnel_id_of_host_only(id, public_base);
}

/// The public URL handed to a freshly connected tunnel client.
pub open spec fn public_url_of(id: Seq<char>, public_base: Seq<char>) -> Seq<char> {
    "https://"@ + id + seq!['.'] + public_base
}

/// `https://{id}.{public_base}`.
pub fn public_url(id: &str, public_base: &str) -> (url: String)
    ensures
        url@ == public_url_of(id@, public_base@),
{
    proof {
        reveal_strlit(".");
    }
    let mut url = String::from_str("https://");
    url.append(id);
    url.append(".");
    url.append(public_base);
    url
}

/// The headers a forwarded request carries: every header whose value is
/// visible text (`None` marks one that is not) and whose name may cross a
/// proxy hop (so neither `host` nor a hop-by-hop header); order is kept.
pub open spec fn kept_headers(headers: Seq<(String, Option<String>)>) -> Seq<(String, String)>
    decreases headers.len(),
{
    if headers.len() == 0 {
        Seq::empty()
    } else {
        let rest = kept_headers(headers.drop_last());
        let (name, value) = headers.last();
        match value {
            Some(v) => if forwardable(name@) {
                rest.push((name, v))
            } else {
                rest
            },
            None => rest,
        }
    }
}

/// A forwarded request carries only headers that may cross the tunnel (no
/// `host`, no hop-by-hop header), and every header it carries is one the
/// inbound request had, with the same value.
pub proof fn forwarded_headers_are_forwardable(headers: Seq<(String, Option<String>)>)
    ensures
        forall|i: int|
            0 <= i < kept_headers(headers).len() ==> forwardable((#[trigger] kept_headers(headers)[i]).0@)
                && exists|j: int|
                0 <= j < headers.len() && headers[j].0 == kept_headers(headers)[i].0 && headers[j].1
                    == Some(kept_headers(headers)[i].1),
    decreases headers.len(),
{
    if headers.len() > 0 {
        let rest = headers.drop_last();
        forwarded_headers_are_forwardable(rest);
        let kept = kept_headers(headers);
        assert forall|i: int| 0 <= i < kept.len() implies forwardable((#[trigger] kept[i]).0@) && exists|j: int|
            0 <= j < headers.len() && headers[j].0 == kept[i].0 && headers[j].1 == Some(kept[i].1) by {
            if i < kept_headers(rest).len() {
                assert(kept[i] == kept_headers(rest)[i]);
                let j = choose|j: int|
                    0 <= j < rest.len() && rest[j].0 == kept_headers(rest)[i].0 && rest[j].1 == Some(
                        kept_headers(rest)[i].1,
                    );
                assert(headers[j] == rest[j]);
            } else {
                let last = headers.len() - 1;
                assert(headers[last] == headers.last());
            }
        }
    }
}

/// The request the relay sends down the websocket for an inbound HTTP
/// request: its method, its path and query (`/` when there is none), its
/// forwardable headers, and its body as text.
pub fn forwarded_request(
    id: String,
    method: String,
    path_and_query: Option<String>,
    headers: &Vec<(String, Option<String>)>,
    body: String,
) -> (r: ForwardedRequest)
    ensures
        r.id == id,
        r.method == method,
        r.path@ == match path_and_query {
            Some(p) => p@,
            None => "/"@,
        },
        r.headers@ == kept_headers(headers@),
        r.body == body,
{
    let path = match path_and_query {
        Some(p) => p,
        None => String::from_str("/"),
    };
    let mut kept: Vec<(String, String)> = Vec::new();
    let mut i: usize = 0;
    while i < headers.len()
        invariant
            i <= headers@.len(),
            kept@ == kept_headers(headers@.take(i as int)),
        decreases headers@.len() - i,
    {
        assert(headers@.take(i + 1).drop_last() =~= headers@.take(i as int));
        let (name, value) = &headers[i];
        if let Some(v) = value {
            if is_forwardable_header(name.as_str()) {
                kept.push((name.clone(), v.clone()));
            }
        }
        i = i + 1;
    }
    assert(headers@.take(headers@.len() as int) =~= headers@);
    ForwardedRequest { id, method, path, headers: kept, body }
}


/// The headers among `headers` that may cross the tunnel, in order.
pub open spec fn forwardable_only(headers: Seq<(String, String)>) -> Seq<(String, String)>
    decreases headers.len(),
{
    if headers.len() == 0 {
        Seq::empty()
    } else if forwardable(headers.last().0@) {
        forwardable_only(headers.drop_last()).push(headers.last())
    } else {
        forwardable_only(headers.drop_last())
    }
}

/// The relay keeps every forwardable response header and drops only the
/// others: filtering a concatenation filters each part, and a single header
/// is kept exactly when its name may cross the tunnel. Repeated names (such
/// as several `set-cookie` headers) are all kept, in order.
pub proof fn response_filter_keeps_each_forwardable_header(a: Seq<(String, String)>, b: Seq<(String, String)>, x: (String, String))
    ensures
        forwardable_only(a + b) == forwardable_only(a) + forwardable_only(b),
        forwardable_only(seq![x]) == if forwardable(x.0@) {
            seq![x]
        } else {
            Seq::<(String, String)>::empty()
        },
    decreases b.len(),
{
    assert(seq![x].drop_last() =~= Seq::<(String, String)>::empty());
    assert(seq![x].last() == x);
    assert(forwardable_only(Seq::<(String, String)>::empty()) == Seq::<(String, String)>::empty());
    assert(Seq::<(String, String)>::empty().push(x) =~= seq![x]);
    if b.len() == 0 {
        assert(a + b =~= a);
        assert(forwardable_only(a) + forwardable_only(b) =~= forwardable_only(a));
    } else {
        response_filter_keeps_each_forwardable_header(a, b.drop_last(), x);
        assert((a + b).drop_last() =~= a + b.drop_last());
        assert((a + b).last() == b.last());
        if forwardable(b.last().0@) {
            assert(forwardable_only(a) + forwardable_only(b.drop_last()).push(b.last()) =~= (forwardable_only(a)
                + forwardable_only(b.drop_last())).push(b.last()));
        }
    }
}

/// A forwarded request keeps every inbound header whose name may cross the
/// tunnel and whose value is text, and drops only the others: filtering a
/// concatenation filters each part, and a single header is kept exactly
/// then. Repeated names are all kept, in order.
pub proof fn request_filter_keeps_each_forwardable_header(
    a: Seq<(String, Option<String>)>,
    b: Seq<(String, Option<String>)>,
    name: String,
    value: Option<String>,
)
    ensures
        kept_headers(a + b) == kept_headers(a) + kept_headers(b),
        kept_headers(seq![(name, value)]) == match value {
            Some(v) => if forwardable(name@) {
                seq![(name, v)]
            } else {
                Seq::<(String, String)>::empty()
            },
            None => Seq::<(String, String)>::empty(),
        },
    decreases b.len(),
{
    assert(seq![(name, value)].drop_last() =~= Seq::<(String, Option<String>)>::empty());
    assert(seq![(name, value)].last() == (name, value));
    assert(kept_headers(Seq::<(String, Option<String>)>::empty()) == Seq::<(String, String)>::empty());
    if let Some(v) = value {
        assert(Seq::<(String, String)>::empty().push((name, v)) =~= seq![(name, v)]);
    }
    if b.len() == 0 {
        assert(a + b =~= a);
        assert(kept_headers(a) + kept_headers(b) =~= kept_headers(a));
    } else {
        request_filter_keeps_each_forwardable_header(a, b.drop_last(), name, value);
        assert((a + b).drop_last() =~= a + b.drop_last());
        assert((a + b).last() == b.last());
        let (n, v) = b.last();
        if v is Some && forwardable(n@) {
            assert(kept_headers(a) + kept_headers(b.drop_last()).push((n, v->0)) =~= (kept_headers(a)
                + kept_headers(b.drop_last())).push((n, v->0)));
        }
    }
}

/// The headers of a tunnel client's response that the relay copies back:
/// those that may cross a proxy hop, in order.
pub fn response_headers(headers: &Vec<(String, String)>) -> (r: Vec<(String, String)>)
    ensures
        r@ == forwardable_only(headers@),
{
    let mut kept: Vec<(String, String)> = Vec::new();
    let mut i: usize = 0;
    while i < headers.len()
        invariant
            i <= headers@.len(),
            kept@ == forwardable_only(headers@.take(i as int)),
        decreases headers@.len() - i,
    {
        assert(headers@.take(i + 1).drop_last() =~= headers@.take(i as int));
        let (name, value) = &headers[i];
        if is_forwardable_header(name.as_str()) {
            kept.push((name.clone(), value.clone()));
        }
        i = i + 1;
    }
    assert(headers@.take(headers@.len() as int) =~= headers@);
    kept
}

/// A tunnel client may connect only when it presents exactly the relay's
/// shared secret.
pub fn accepts_token(presented: &str, expected: &str) -> (ok: bool)
    ensures
        ok == (presented@ == expected@),
{
    same_text(presented, expected)
}

/// The answer to a request that cannot be routed: 404 when its host names
/// no tunnel, 502 when it names one whose client is not connected, and
/// `None` when it can be forwarded.
pub fn route_status(id: &Option<String>, connected: bool) -> (r: Option<(u16, &'static str)>)
    ensures
        match id {
            None => r matches Some((code, msg)) && code == 404 && msg@ == "no tunnel for this host"@,
            Some(_) => if connected {
                r is None
            } else {
                r matches Some((code, msg)) && code == 502 && msg@ == "tunnel client is not connected"@
            },
        },
{
    match id {
        None => Some((404, "no tunnel for this host")),
        Some(_) => if connected {
            None
        } else {
            Some((502, "tunnel client is not connected"))
        },
    }
}

/// The answer to a routed request that got no response: 502 when it could
/// not be sent down the websocket, 504 when the client did not answer in
/// time.
pub fn forward_failure_status(send_failed: bool) -> (r: (u16, &'static str))
    ensures
        send_failed ==> r.0 == 502 && r.1@ == "tunnel client disconnected"@,
        !send_failed ==> r.0 == 504 && r.1@ == "tunnel client did not respond in time"@,
{
    if send_failed {
        (502, "tunnel client disconnected")
    } else {
        (504, "tunnel client did not respond in time")
    }
}

} // verus!
