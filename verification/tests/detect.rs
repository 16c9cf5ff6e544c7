use hyper_websocket::{Headers, HttpVersion, Method, WsHandshake};

fn headers_of(pairs: &[(&str, &str)]) -> Headers {
    let mut h = Headers::new();
    for (name, value) in pairs {
        h.add(name.as_bytes().to_vec(), value.as_bytes().to_vec());
    }
    h
}

const SAMPLE_KEY: &str = "r3MGDiK57a1jWWkCmkiK5g==";

fn well_formed() -> Headers {
    headers_of(&[
        ("Connection", "Upgrade"),
        ("Upgrade", "websocket"),
        ("Sec-WebSocket-Version", "13"),
        ("Sec-WebSocket-Key", SAMPLE_KEY),
    ])
}

fn detect(method: &Method, version: HttpVersion, headers: &Headers) -> Option<WsHandshake> {
    WsHandshake::detect_from_parts(method, version, headers)
}

#[test]
fn detect_well_formed_request() {
    let token = detect(&Method::Get, HttpVersion::Http11, &well_formed())
        .expect("a well-formed upgrade request must be detected");
    assert_eq!(token.key(), SAMPLE_KEY.as_bytes());
    assert_eq!(token.version(), HttpVersion::Http11);
}

#[test]
fn detect_copies_key_bytes_exactly() {
    let key = "dGhlIHNhbXBsZSBub25jZQ==";
    let h = headers_of(&[
        ("Connection", "Upgrade"),
        ("Upgrade", "websocket"),
        ("Sec-WebSocket-Version", "13"),
        ("Sec-WebSocket-Key", key),
    ]);
    let token = detect(&Method::Get, HttpVersion::Http11, &h).expect("detected");
    assert_eq!(token.key(), key.as_bytes());
    assert_eq!(token.into_key(), key.as_bytes().to_vec());
}

#[test]
fn detect_rejects_non_get() {
    for method in [
        Method::Post,
        Method::Head,
        Method::Put,
        Method::Options,
        Method::Extension("QUERY".to_string()),
    ] {
        assert!(detect(&method, HttpVersion::Http11, &well_formed()).is_none());
    }
}

#[test]
fn detect_rejects_versions_below_http11() {
    assert!(detect(&Method::Get, HttpVersion::Http09, &well_formed()).is_none());
    assert!(detect(&Method::Get, HttpVersion::Http10, &well_formed()).is_none());
    assert!(detect(&Method::Get, HttpVersion::Http11, &well_formed()).is_some());
    assert!(detect(&Method::Get, HttpVersion::H2, &well_formed()).is_some());
}

#[test]
fn detect_requires_single_key_header() {
    let missing = headers_of(&[
        ("Connection", "Upgrade"),
        ("Upgrade", "websocket"),
        ("Sec-WebSocket-Version", "13"),
    ]);
    assert!(detect(&Method::Get, HttpVersion::Http11, &missing).is_none());

    let mut doubled = well_formed();
    doubled.add(b"Sec-WebSocket-Key".to_vec(), b"AAAAAAAAAAAAAAAAAAAAAA==".to_vec());
    assert!(detect(&Method::Get, HttpVersion::Http11, &doubled).is_none());
}

#[test]
fn detect_requires_upgrade_header() {
    let missing = headers_of(&[
        ("Connection", "Upgrade"),
        ("Sec-WebSocket-Version", "13"),
        ("Sec-WebSocket-Key", SAMPLE_KEY),
    ]);
    assert!(detect(&Method::Get, HttpVersion::Http11, &missing).is_none());

    let wrong = headers_of(&[
        ("Connection", "Upgrade"),
        ("Upgrade", "h2c"),
        ("Sec-WebSocket-Version", "13"),
        ("Sec-WebSocket-Key", SAMPLE_KEY),
    ]);
    assert!(detect(&Method::Get, HttpVersion::Http11, &wrong).is_none());
}

#[test]
fn detect_requires_connection_header() {
    let missing = headers_of(&[
        ("Upgrade", "websocket"),
        ("Sec-WebSocket-Version", "13"),
        ("Sec-WebSocket-Key", SAMPLE_KEY),
    ]);
    assert!(detect(&Method::Get, HttpVersion::Http11, &missing).is_none());

    let wrong = headers_of(&[
        ("Connection", "keep-alive"),
        ("Upgrade", "websocket"),
        ("Sec-WebSocket-Version", "13"),
        ("Sec-WebSocket-Key", SAMPLE_KEY),
    ]);
    assert!(detect(&Method::Get, HttpVersion::Http11, &wrong).is_none());
}

#[test]
fn detect_version_header_must_say_13_when_single() {
    let wrong = headers_of(&[
        ("Connection", "Upgrade"),
        ("Upgrade", "websocket"),
        ("Sec-WebSocket-Version", "12"),
        ("Sec-WebSocket-Key", SAMPLE_KEY),
    ]);
    assert!(detect(&Method::Get, HttpVersion::Http11, &wrong).is_none());
}

#[test]
fn detect_tolerates_absent_version_header() {
    let absent = headers_of(&[
        ("Connection", "Upgrade"),
        ("Upgrade", "websocket"),
        ("Sec-WebSocket-Key", SAMPLE_KEY),
    ]);
    let token = detect(&Method::Get, HttpVersion::Http11, &absent).expect("detected");
    assert_eq!(token.key(), SAMPLE_KEY.as_bytes());
}

#[test]
fn detect_ignores_repeated_version_headers() {
    let mut doubled = well_formed();
    doubled.add(b"Sec-WebSocket-Version".to_vec(), b"12".to_vec());
    // Two version entries are not "a single value"; the lenient path applies.
    assert!(detect(&Method::Get, HttpVersion::Http11, &doubled).is_some());
}

#[test]
fn detect_header_names_are_case_insensitive() {
    let h = headers_of(&[
        ("CONNECTION", "Upgrade"),
        ("UpGrAdE", "websocket"),
        ("SEC-WEBSOCKET-VERSION", "13"),
        ("Sec-WebSocket-KEY", SAMPLE_KEY),
    ]);
    assert!(detect(&Method::Get, HttpVersion::Http11, &h).is_some());
}

#[test]
fn detect_connection_list_semantics() {
    let accepted = [
        "Upgrade",
        "upgrade",
        "UPGRADE",
        "keep-alive, Upgrade",
        "keep-alive,upgrade",
        "  upgrade  ",
        "\tupgrade\t",
        ",upgrade,",
        "close , upgrade , keep-alive",
        "upgrade,upgrade",
        "Keep-Alive,\t UpGrAdE ,close",
    ];
    for value in accepted {
        let h = headers_of(&[
            ("Connection", value),
            ("Upgrade", "websocket"),
            ("Sec-WebSocket-Version", "13"),
            ("Sec-WebSocket-Key", SAMPLE_KEY),
        ]);
        assert!(
            detect(&Method::Get, HttpVersion::Http11, &h).is_some(),
            "Connection: {:?} must match",
            value
        );
    }

    let refused =
        ["", "   ", ",", " , ", ",,,", "upgrader", "up grade", "keep-alive", "upgrade extra", "upgrad"];
    for value in refused {
        let h = headers_of(&[
            ("Connection", value),
            ("Upgrade", "websocket"),
            ("Sec-WebSocket-Version", "13"),
            ("Sec-WebSocket-Key", SAMPLE_KEY),
        ]);
        assert!(
            detect(&Method::Get, HttpVersion::Http11, &h).is_none(),
            "Connection: {:?} must not match",
            value
        );
    }
}

#[test]
fn detect_upgrade_list_semantics() {
    let accepted = ["websocket", "WebSocket", "WEBSOCKET", "h2c, websocket", "websocket , h2c", "\twebsocket"];
    for value in accepted {
        let h = headers_of(&[
            ("Connection", "Upgrade"),
            ("Upgrade", value),
            ("Sec-WebSocket-Version", "13"),
            ("Sec-WebSocket-Key", SAMPLE_KEY),
        ]);
        assert!(
            detect(&Method::Get, HttpVersion::Http11, &h).is_some(),
            "Upgrade: {:?} must match",
            value
        );
    }

    let refused = ["", "  ", "websockets", "web socket", "websocket2", "h2c"];
    for value in refused {
        let h = headers_of(&[
            ("Connection", "Upgrade"),
            ("Upgrade", value),
            ("Sec-WebSocket-Version", "13"),
            ("Sec-WebSocket-Key", SAMPLE_KEY),
        ]);
        assert!(
            detect(&Method::Get, HttpVersion::Http11, &h).is_none(),
            "Upgrade: {:?} must not match",
            value
        );
    }
}

#[test]
fn detect_upgrade_token_may_sit_on_second_entry_line() {
    let mut h = headers_of(&[
        ("Connection", "Upgrade"),
        ("Upgrade", "h2c"),
        ("Sec-WebSocket-Version", "13"),
        ("Sec-WebSocket-Key", SAMPLE_KEY),
    ]);
    // A second Upgrade header line carrying the token also satisfies the check.
    h.add(b"Upgrade".to_vec(), b"websocket".to_vec());
    assert!(detect(&Method::Get, HttpVersion::Http11, &h).is_some());
}
