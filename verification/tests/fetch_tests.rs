use ws_proxy::fetch::{
    fetch_success_frame, header_map_from_hash, headers_to_hash, prepare_fetch, FetchRequest,
    FetchStep,
};

fn text(frame: Vec<u8>) -> String {
    String::from_utf8(frame).unwrap()
}

fn fetch_req(method: Option<&str>, headers: Option<Vec<(&str, &str)>>) -> FetchRequest {
    FetchRequest {
        id: 1,
        url: "http://test/echo".to_string(),
        method: method.map(|m| m.to_string()),
        headers: headers.map(|hs| {
            hs.into_iter().map(|(k, v)| (k.to_string(), v.to_string())).collect()
        }),
        body: Some("aGk=".to_string()),
        body_encoding: Some("base64".to_string()),
    }
}

#[test]
fn fetch_success_shape() {
    let req = fetch_req(Some("POST"), None);
    let plan = match prepare_fetch(&req) {
        FetchStep::Send(p) => p,
        FetchStep::Reply(_) => panic!("a valid request must become a plan"),
    };
    assert_eq!(plan.body, b"hi".to_vec());
    let headers = vec![("content-length".to_string(), "2".to_string())];
    let f = fetch_success_frame(req.id, 200, &headers, b"hi");
    assert_eq!(
        text(f),
        r#"{"type":"fetch","id":1,"status":200,"headers":{"content-length":"2"},"body":"aGk=","bodyEncoding":"base64","error":null}"#
    );
}

#[test]
fn default_method_is_get() {
    let req = fetch_req(None, None);
    match prepare_fetch(&req) {
        FetchStep::Send(plan) => assert_eq!(plan.method, "GET"),
        FetchStep::Reply(_) => panic!("a GET without a method must pass"),
    }
}

#[test]
fn the_plan_carries_the_given_headers() {
    let req = fetch_req(Some("GET"), Some(vec![("x-a", "1"), ("x-b", "2")]));
    match prepare_fetch(&req) {
        FetchStep::Send(plan) => assert_eq!(
            plan.headers,
            vec![("x-a".to_string(), "1".to_string()), ("x-b".to_string(), "2".to_string())]
        ),
        FetchStep::Reply(_) => panic!("valid headers must pass"),
    }
}

#[test]
fn invalid_method_settles_a_status_zero_frame() {
    let req = fetch_req(Some("NOT A METHOD"), None);
    match prepare_fetch(&req) {
        FetchStep::Reply(f) => {
            let t = text(f);
            assert!(t.contains(r#""status":0"#), "{t}");
            assert!(t.contains("invalid method: "), "{t}");
        },
        FetchStep::Send(_) => panic!("an invalid method must not be sent"),
    }
}

#[test]
fn invalid_header_name_settles_a_status_zero_frame() {
    let req = fetch_req(Some("GET"), Some(vec![("bad name", "v")]));
    match prepare_fetch(&req) {
        FetchStep::Reply(f) => {
            let t = text(f);
            assert!(t.contains(r#""status":0"#), "{t}");
            assert!(t.contains("invalid header name bad name: "), "{t}");
        },
        FetchStep::Send(_) => panic!("an invalid header must not be sent"),
    }
}

#[test]
fn invalid_header_value_names_the_key() {
    let e = header_map_from_hash(&Some(vec![("x-a".to_string(), "bad\nvalue".to_string())]))
        .unwrap_err();
    assert!(e.starts_with("invalid header value x-a: "), "{e}");
}

#[test]
fn valid_headers_come_back_as_given() {
    let given = vec![
        ("content-type".to_string(), "text/plain".to_string()),
        ("x-a".to_string(), "1".to_string()),
    ];
    assert_eq!(header_map_from_hash(&Some(given.clone())).unwrap(), given);
}

#[test]
fn absent_headers_yield_the_empty_list() {
    assert_eq!(header_map_from_hash(&None).unwrap(), Vec::new());
}

#[test]
fn bad_body_encoding_settles_a_status_zero_frame() {
    let mut req = fetch_req(Some("GET"), None);
    req.body_encoding = Some("hex".to_string());
    match prepare_fetch(&req) {
        FetchStep::Reply(f) => {
            let t = text(f);
            assert!(t.contains(r#""status":0"#), "{t}");
            assert!(t.contains("unsupported body encoding: hex"), "{t}");
        },
        FetchStep::Send(_) => panic!("an undecodable body must not be sent"),
    }
}

#[test]
fn duplicate_response_headers_keep_the_last_valid_value() {
    let pairs = vec![
        ("x-a".to_string(), b"1".to_vec()),
        ("x-a".to_string(), b"2".to_vec()),
        ("x-b".to_string(), b"3".to_vec()),
    ];
    assert_eq!(
        headers_to_hash(&pairs),
        vec![("x-a".to_string(), "2".to_string()), ("x-b".to_string(), "3".to_string())]
    );
}

#[test]
fn an_invalid_later_duplicate_does_not_oust_a_valid_value() {
    let pairs = vec![
        ("x-a".to_string(), b"1".to_vec()),
        ("x-a".to_string(), vec![0xff, 0xfe]),
    ];
    assert_eq!(headers_to_hash(&pairs), vec![("x-a".to_string(), "1".to_string())]);
}

#[test]
fn response_headers_drop_non_utf8_values() {
    let pairs = vec![
        ("good".to_string(), b"value".to_vec()),
        ("bad".to_string(), vec![0xff, 0xfe]),
        ("also-good".to_string(), b"x".to_vec()),
    ];
    let out = headers_to_hash(&pairs);
    assert_eq!(
        out,
        vec![
            ("good".to_string(), "value".to_string()),
            ("also-good".to_string(), "x".to_string()),
        ]
    );
}
