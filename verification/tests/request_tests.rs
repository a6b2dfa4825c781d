use bench_client::header::Header;
use bench_client::request::{plan_request, request_headers, request_path, RequestError, Target};

fn pairs(list: &[Header]) -> Vec<(Vec<u8>, Vec<u8>)> {
    list.iter().map(|h| (h.name.clone(), h.value.clone())).collect()
}

fn pair(name: &[u8], value: &[u8]) -> (Vec<u8>, Vec<u8>) {
    (name.to_vec(), value.to_vec())
}

#[test]
fn path_without_query_is_the_path() {
    assert_eq!(request_path(&b"/small".to_vec(), &None), b"/small".to_vec());
    assert_eq!(request_path(&b"/".to_vec(), &None), b"/".to_vec());
    assert_eq!(request_path(&Vec::new(), &None), Vec::<u8>::new());
}

#[test]
fn path_with_query_is_joined_by_a_question_mark() {
    assert_eq!(
        request_path(&b"/search".to_vec(), &Some(b"q=1&r=2".to_vec())),
        b"/search?q=1&r=2".to_vec()
    );
    assert_eq!(request_path(&b"/p".to_vec(), &Some(Vec::new())), b"/p?".to_vec());
}

#[test]
fn header_set_has_the_five_fields_in_order() {
    let t = Target {
        scheme: b"https".to_vec(),
        host: Some(b"10.20.0.10".to_vec()),
        path: b"/small".to_vec(),
        query: None,
    };
    assert_eq!(
        pairs(&request_headers(&t)),
        vec![
            pair(b":method", b"GET"),
            pair(b":scheme", b"https"),
            pair(b":authority", b"10.20.0.10"),
            pair(b":path", b"/small"),
            pair(b"user-agent", b"benchmark-client"),
        ]
    );
}

#[test]
fn header_set_defaults_the_authority_to_localhost() {
    let t = Target {
        scheme: b"unix".to_vec(),
        host: None,
        path: b"/run/x".to_vec(),
        query: Some(b"a".to_vec()),
    };
    assert_eq!(
        pairs(&request_headers(&t)),
        vec![
            pair(b":method", b"GET"),
            pair(b":scheme", b"unix"),
            pair(b":authority", b"localhost"),
            pair(b":path", b"/run/x?a"),
            pair(b"user-agent", b"benchmark-client"),
        ]
    );
}

#[test]
fn plan_reads_the_url() {
    let list = plan_request("https://10.20.0.10/small").unwrap();
    assert_eq!(
        pairs(&list),
        vec![
            pair(b":method", b"GET"),
            pair(b":scheme", b"https"),
            pair(b":authority", b"10.20.0.10"),
            pair(b":path", b"/small"),
            pair(b"user-agent", b"benchmark-client"),
        ]
    );
}

#[test]
fn plan_keeps_the_query_and_drops_port_and_fragment() {
    let list = plan_request("HTTPS://Example.COM:8443/a/b?x=1&y=2#frag").unwrap();
    assert_eq!(
        pairs(&list),
        vec![
            pair(b":method", b"GET"),
            pair(b":scheme", b"https"),
            pair(b":authority", b"example.com"),
            pair(b":path", b"/a/b?x=1&y=2"),
            pair(b"user-agent", b"benchmark-client"),
        ]
    );
}

#[test]
fn plan_gives_a_bare_host_the_root_path() {
    let list = plan_request("https://example.org").unwrap();
    assert_eq!(pairs(&list)[3], pair(b":path", b"/"));
    let list = plan_request("https://example.org?k=v").unwrap();
    assert_eq!(pairs(&list)[3], pair(b":path", b"/?k=v"));
}

#[test]
fn plan_of_a_url_without_host_uses_localhost() {
    let list = plan_request("data:text/plain,hello").unwrap();
    assert_eq!(
        pairs(&list),
        vec![
            pair(b":method", b"GET"),
            pair(b":scheme", b"data"),
            pair(b":authority", b"localhost"),
            pair(b":path", b"text/plain,hello"),
            pair(b"user-agent", b"benchmark-client"),
        ]
    );
}

#[test]
fn plan_agrees_with_the_url_crate() {
    for text in [
        "https://10.20.0.10/small",
        "https://[::1]:4433/large?n=5",
        "http://user:pw@host.example/%7Efoo/../bar?q=a%20b",
        "https://xn--nxasmq6b.example/",
        "file:///tmp/x",
    ] {
        let u = url::Url::parse(text).unwrap();
        let mut path = String::from(u.path());
        if let Some(q) = u.query() {
            path.push('?');
            path.push_str(q);
        }
        let list = plan_request(text).unwrap();
        assert_eq!(
            pairs(&list),
            vec![
                pair(b":method", b"GET"),
                pair(b":scheme", u.scheme().as_bytes()),
                pair(b":authority", u.host_str().unwrap_or("localhost").as_bytes()),
                pair(b":path", path.as_bytes()),
                pair(b"user-agent", b"benchmark-client"),
            ]
        );
    }
}

#[test]
fn plan_refuses_what_is_no_absolute_url() {
    assert_eq!(plan_request("").unwrap_err(), RequestError::InvalidUrl);
    assert_eq!(plan_request("/small").unwrap_err(), RequestError::InvalidUrl);
    assert_eq!(plan_request("10.20.0.10/small").unwrap_err(), RequestError::InvalidUrl);
    assert_eq!(plan_request("https://").unwrap_err(), RequestError::InvalidUrl);
    assert_eq!(plan_request("https://host:99999/").unwrap_err(), RequestError::InvalidUrl);
}
