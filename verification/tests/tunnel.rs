use mpesa_dev::relay::{
    accepts_token,
    forward_failure_status, forwarded_request, generate_id, id_from_draws, public_url, response_headers, route_status,
    tunnel_id_from_host,
};
use mpesa_dev::tunnel_protocol::is_forwardable_header;

#[test]
fn hop_by_hop_headers_are_not_forwarded() {
    for name in [
        "connection",
        "keep-alive",
        "proxy-authenticate",
        "proxy-authorization",
        "te",
        "trailer",
        "transfer-encoding",
        "upgrade",
        "host",
    ] {
        assert!(!is_forwardable_header(name), "{name}");
        assert!(!is_forwardable_header(&name.to_uppercase()), "{name}");
    }
    assert!(!is_forwardable_header("Keep-Alive"));
    assert!(!is_forwardable_header("tE"));
}

#[test]
fn other_headers_are_forwarded() {
    assert!(is_forwardable_header("content-type"));
    assert!(is_forwardable_header("Content-Length"));
    assert!(is_forwardable_header("x-te"));
    assert!(is_forwardable_header("hosts"));
    assert!(is_forwardable_header(""));
    assert!(is_forwardable_header("connectión"));
}

#[test]
fn tunnel_id_comes_from_the_host() {
    let base = "tunnel.example.com";
    assert_eq!(tunnel_id_from_host("a1b2c3d4.tunnel.example.com", base), Some("a1b2c3d4".to_string()));
    assert_eq!(tunnel_id_from_host("a1b2c3d4.tunnel.example.com:443", base), Some("a1b2c3d4".to_string()));
    assert_eq!(tunnel_id_from_host("x.y.tunnel.example.com", base), Some("x.y".to_string()));
    assert_eq!(tunnel_id_from_host("tunnel.example.com", base), None);
    assert_eq!(tunnel_id_from_host(".tunnel.example.com", base), None);
    assert_eq!(tunnel_id_from_host("a1b2c3d4.other.com", base), None);
    assert_eq!(tunnel_id_from_host("", base), None);
    assert_eq!(tunnel_id_from_host(":8080", base), None);
}

#[test]
fn public_url_routes_back_to_its_tunnel() {
    let id = generate_id();
    let url = public_url(&id, "tunnel.example.com");
    assert_eq!(url, format!("https://{id}.tunnel.example.com"));
    let host = url.strip_prefix("https://").unwrap();
    assert_eq!(tunnel_id_from_host(host, "tunnel.example.com"), Some(id.clone()));
    assert_eq!(tunnel_id_from_host(&format!("{host}:7000"), "tunnel.example.com"), Some(id));
}

#[test]
fn generated_ids_use_the_alphabet() {
    for _ in 0..50 {
        let id = generate_id();
        assert_eq!(id.chars().count(), 8);
        assert!(id.chars().all(|c| c.is_ascii_lowercase() || c.is_ascii_digit()), "{id}");
    }
}

#[test]
fn forwarded_request_drops_hop_by_hop_and_opaque_values() {
    let headers = vec![
        ("host".to_string(), Some("abc.tunnel.example.com".to_string())),
        ("connection".to_string(), Some("keep-alive".to_string())),
        ("Transfer-Encoding".to_string(), Some("chunked".to_string())),
        ("content-type".to_string(), Some("application/json".to_string())),
        ("x-binary".to_string(), None),
        ("accept".to_string(), Some("*/*".to_string())),
    ];
    let req = forwarded_request("r1".to_string(), "POST".to_string(), None, &headers, "{}".to_string());
    assert_eq!(req.id, "r1");
    assert_eq!(req.method, "POST");
    assert_eq!(req.path, "/");
    assert_eq!(
        req.headers,
        vec![
            ("content-type".to_string(), "application/json".to_string()),
            ("accept".to_string(), "*/*".to_string()),
        ]
    );
    assert_eq!(req.body, "{}");
    let req = forwarded_request("r2".to_string(), "GET".to_string(), Some("/cb?x=1".to_string()), &Vec::new(), String::new());
    assert_eq!(req.path, "/cb?x=1");
    assert!(req.headers.is_empty());
}

#[test]
fn ids_spell_their_draws() {
    assert_eq!(id_from_draws(&vec![0, 1, 2, 25, 26, 27, 34, 35]), "abcz0189");
    assert_eq!(id_from_draws(&vec![7; 8]), "hhhhhhhh");
}

#[test]
fn generated_ids_vary() {
    let ids: std::collections::HashSet<String> = (0..20).map(|_| generate_id()).collect();
    assert!(ids.len() > 1);
}

#[test]
fn unroutable_requests_get_status_codes() {
    assert_eq!(route_status(&None, false), Some((404, "no tunnel for this host")));
    assert_eq!(route_status(&Some("abc".to_string()), false), Some((502, "tunnel client is not connected")));
    assert_eq!(route_status(&Some("abc".to_string()), true), None);
    assert_eq!(forward_failure_status(true), (502, "tunnel client disconnected"));
    assert_eq!(forward_failure_status(false), (504, "tunnel client did not respond in time"));
}

#[test]
fn response_headers_drop_hop_by_hop() {
    let headers = vec![
        ("content-type".to_string(), "application/json".to_string()),
        ("Connection".to_string(), "close".to_string()),
        ("keep-alive".to_string(), "timeout=5".to_string()),
        ("x-request-id".to_string(), "r1".to_string()),
    ];
    assert_eq!(
        response_headers(&headers),
        vec![
            ("content-type".to_string(), "application/json".to_string()),
            ("x-request-id".to_string(), "r1".to_string()),
        ]
    );
}

#[test]
fn relay_token_must_match_exactly() {
    assert!(accepts_token("s3cret", "s3cret"));
    assert!(!accepts_token("s3cret ", "s3cret"));
    assert!(!accepts_token("S3CRET", "s3cret"));
    assert!(!accepts_token("", "s3cret"));
}
