use pdos::http::{
    attachment_head, download_head, http_get_request, http_get_request_with_port, http_post_request, json_body_len,
    json_response, parse_query_param, parse_request_head, parse_url, remote_entry, requested_file_name,
    response_body, route, sort_listing, url_decode, url_encode, DirEntry, Route, UrlError,
};
use pdos::http::{html_response, not_found_response, push_file_head,
};

#[test]
fn query_param_first_match() {
    let q = "node_id=abc&filename=a%20b.txt&filename=second";
    assert_eq!(parse_query_param(q, "filename"), Some("a%20b.txt".to_string()));
    assert_eq!(parse_query_param(q, "node_id"), Some("abc".to_string()));
    assert_eq!(parse_query_param(q, "missing"), None);
    assert_eq!(parse_query_param("flag&a=3", "flag"), None);
    assert_eq!(parse_query_param("flag&a=3", "a"), Some("3".to_string()));
    assert_eq!(parse_query_param("k=v=w", "k"), Some("v=w".to_string()));
    assert_eq!(parse_query_param("", "k"), None);
    assert_eq!(parse_query_param("k=", "k"), Some(String::new()));
}

#[test]
fn url_decode_cases() {
    assert_eq!(url_decode("a%20b+c"), "a b c");
    assert_eq!(url_decode("%2Ftmp%2Fx"), "/tmp/x");
    // A missing digit reads as 0.
    assert_eq!(url_decode("%4"), "@");
    // An invalid pair is dropped.
    assert_eq!(url_decode("a%zzb"), "ab");
    // Each byte becomes one character.
    assert_eq!(url_decode("%C3%A9"), "\u{c3}\u{a9}");
    assert_eq!(url_decode("plain"), "plain");
    assert_eq!(url_decode(""), "");
}

#[test]
fn parse_url_cases() {
    let p = parse_url("http://192.168.1.5:8080/api/notify").unwrap();
    assert_eq!(p.host, "192.168.1.5");
    assert_eq!(p.port, 8080);
    assert_eq!(p.path, "/api/notify");
    let p = parse_url("example.com").unwrap();
    assert_eq!(p.host, "example.com");
    assert_eq!(p.port, 80);
    assert_eq!(p.path, "/");
    let p = parse_url("h:+81/x/y").unwrap();
    assert_eq!(p.port, 81);
    assert_eq!(p.path, "/x/y");
    assert!(matches!(parse_url("h:abc/x"), Err(UrlError::InvalidPort)));
    assert!(matches!(parse_url("h:70000"), Err(UrlError::InvalidPort)));
    assert!(matches!(parse_url("http://h:/"), Err(UrlError::InvalidPort)));
}

#[test]
fn request_head_fields() {
    let head = "GET /api/list-files?path=%2Ftmp HTTP/1.1\r\nHost: x\r\ncontent-LENGTH: 12\r\nContent-Type:  text/plain \r\n\r\n";
    let h = parse_request_head(head).unwrap();
    assert_eq!(h.method, "GET");
    assert_eq!(h.path, "/api/list-files");
    assert_eq!(h.query, "path=%2Ftmp");
    assert_eq!(h.content_length, 12);
    assert_eq!(h.content_type, "text/plain");

    let h = parse_request_head("POST\r\n\r\n").unwrap();
    assert_eq!(h.method, "POST");
    assert_eq!(h.path, "/");
    assert_eq!(h.query, "");
    assert_eq!(h.content_length, 0);
    assert_eq!(h.content_type, "");

    let h = parse_request_head("POST /a HTTP/1.1\r\nContent-Length: lots\r\n\r\n").unwrap();
    assert_eq!(h.content_length, 0);
    assert!(parse_request_head("").is_none());
}

#[test]
fn routes() {
    assert_eq!(route("GET", "/", 0), Route::DashboardPage);
    assert_eq!(route("GET", "/api/list-files", 0), Route::ListFiles);
    assert_eq!(route("GET", "/api/files/a.txt", 0), Route::FileDownload);
    assert_eq!(route("POST", "/api/send-to-device", 100), Route::SendToDevice);
    assert_eq!(route("POST", "/api/send-to-device", 65536), Route::NotFound);
    assert_eq!(route("POST", "/api/send-to-device", 0), Route::NotFound);
    assert_eq!(route("POST", "/api/notify", 0), Route::Notify);
    assert_eq!(route("GET", "/api/notify", 0), Route::NotFound);
    assert_eq!(route("GET", "/api/buffer-analysis", 0), Route::BufferAnalysis);
    assert_eq!(route("DELETE", "/", 0), Route::NotFound);
}

#[test]
fn file_download_name() {
    assert_eq!(requested_file_name("/api/files/report.pdf"), Some("report.pdf".to_string()));
    assert_eq!(requested_file_name("/api/files/"), Some(String::new()));
    assert_eq!(requested_file_name("/api/list"), None);
}

#[test]
fn json_responses() {
    assert_eq!(
        json_response(200, "{\"a\":1}"),
        "HTTP/1.1 200 OK\r\nContent-Type: application/json\r\nContent-Length: 7\r\nConnection: close\r\nAccess-Control-Allow-Origin: *\r\n\r\n{\"a\":1}"
    );
    assert_eq!(
        json_response(400, "{}"),
        "HTTP/1.1 400 BAD REQUEST\r\nContent-Type: application/json\r\nContent-Length: 2\r\nConnection: close\r\nAccess-Control-Allow-Origin: *\r\n\r\n{}"
    );
    // Unknown codes read as 200; the length counts bytes.
    let r = json_response(404, "\"\u{e9}\"");
    assert!(r.starts_with("HTTP/1.1 200 OK\r\n"));
    assert!(r.contains("Content-Length: 4\r\n"));
    assert!(json_response(500, "").starts_with("HTTP/1.1 500 INTERNAL SERVER ERROR\r\n"));
}

#[test]
fn outgoing_requests() {
    assert_eq!(
        http_post_request("/api/notify", "10.0.0.2", "{}"),
        "POST /api/notify HTTP/1.1\r\nHost: 10.0.0.2\r\nContent-Type: application/json\r\nContent-Length: 2\r\nConnection: close\r\n\r\n{}"
    );
    assert_eq!(
        http_get_request("/f.bin", "h"),
        "GET /f.bin HTTP/1.1\r\nHost: h\r\nConnection: close\r\n\r\n"
    );
    assert_eq!(
        http_get_request_with_port("/f.bin", "h", 7894),
        "GET /f.bin HTTP/1.1\r\nHost: h:7894\r\nConnection: close\r\n\r\n"
    );
    assert_eq!(
        attachment_head("a b.txt", 10),
        "HTTP/1.1 200 OK\r\nContent-Length: 10\r\nContent-Disposition: attachment; filename=\"a b.txt\"\r\nConnection: close\r\n\r\n"
    );
}

#[test]
fn json_body_limits() {
    assert_eq!(json_body_len("POST", 20), 20);
    assert_eq!(json_body_len("POST", 20_000_000), 10 * 1024 * 1024);
    assert_eq!(json_body_len("POST", 0), 0);
    assert_eq!(json_body_len("GET", 5), 0);
}

#[test]
fn download_heads() {
    assert_eq!(download_head("HTTP/1.1 200 OK\r\nContent-Length: 1234\r\n\r\n"), Some(1234));
    assert_eq!(download_head("HTTP/1.1 200 OK\r\nCONTENT-LENGTH:99\r\n\r\n"), Some(99));
    assert_eq!(download_head("HTTP/1.0 200 OK\r\n\r\n"), Some(0));
    assert_eq!(download_head("HTTP/1.1 404 Not Found\r\n\r\n"), None);
}

#[test]
fn response_bodies() {
    assert_eq!(response_body("HTTP/1.1 200 OK\r\nX: y\r\n\r\n[1,2]"), "[1,2]");
    assert_eq!(response_body("a\r\n\r\nb\r\n\r\nc"), "b\r\n\r\nc");
    assert_eq!(response_body("no separator"), "no separator");
    assert_eq!(response_body("\r\n\r\n"), "");
}

fn entry(name: &str, is_dir: bool) -> DirEntry {
    DirEntry {
        name: name.to_string(),
        path: format!("/d/{}", name),
        is_dir,
        is_file: !is_dir,
        size: 1,
        modified: None,
    }
}

#[test]
fn listing_order_dirs_first_then_name() {
    let sorted = sort_listing(vec![entry("b", false), entry("z", true), entry("a", false), entry("c", true), entry("B", false)]);
    let names: Vec<(String, bool)> = sorted.iter().map(|e| (e.name.clone(), e.is_dir)).collect();
    assert_eq!(
        names,
        vec![
            ("c".to_string(), true),
            ("z".to_string(), true),
            ("B".to_string(), false),
            ("a".to_string(), false),
            ("b".to_string(), false),
        ]
    );
    assert!(sort_listing(vec![]).is_empty());
}

#[test]
fn listing_order_by_code_point() {
    let sorted = sort_listing(vec![entry("\u{e9}", false), entry("z", false), entry("ab", false), entry("a", false)]);
    let names: Vec<String> = sorted.iter().map(|e| e.name.clone()).collect();
    assert_eq!(names, vec!["a", "ab", "z", "\u{e9}"]);
}

#[test]
fn remote_entry_defaults() {
    let e = remote_entry(None, None, None, None, None);
    assert_eq!(e.name, "");
    assert_eq!(e.path, "");
    assert!(!e.is_dir);
    assert!(e.is_file);
    assert_eq!(e.size, 0);
    let e = remote_entry(Some("x".into()), Some("/x".into()), Some(true), Some(false), Some(7));
    assert_eq!(e.name, "x");
    assert_eq!(e.path, "/x");
    assert!(e.is_dir);
    assert!(!e.is_file);
    assert_eq!(e.size, 7);
}

#[test]
fn percent_encoding_round_trip() {
    assert_eq!(url_decode("my+file%2Etxt"), "my file.txt");
    assert_eq!(url_encode("a b/c+d.txt"), "a%20b/c%2Bd.txt");
    assert_eq!(url_encode("Notes-1_v2.~/x"), "Notes-1_v2.~/x");
    assert_eq!(url_encode("100%"), "100%25");
    assert_eq!(url_encode("\u{e9}"), "%C3%A9");
    for s in ["", "plain", "a b+c", "50% off & more?", "/tmp/My Files/r\u{0}port (1).pdf", "~!@#$^*()=[]{}|;:'\",<>"] {
        assert_eq!(url_decode(&url_encode(s)), s);
    }
    // Every byte escaped, in either case.
    assert_eq!(url_decode("%6d%79%2B%41"), "my+A");
    assert_eq!(url_decode("%6D%79%2b%41"), "my+A");
    // Without `%` only `+` changes.
    assert_eq!(url_decode("a+b-c.d"), "a b-c.d");
}

#[test]
fn page_and_not_found_replies() {
    assert_eq!(
        html_response("<p>h\u{e9}</p>"),
        "HTTP/1.1 200 OK\r\nContent-Type: text/html\r\nContent-Length: 10\r\nConnection: close\r\n\r\n<p>h\u{e9}</p>"
    );
    assert_eq!(
        not_found_response(),
        "HTTP/1.1 404 NOT FOUND\r\nContent-Type: text/plain\r\nContent-Length: 13\r\nConnection: close\r\n\r\n404 Not Found"
    );
    assert_eq!(
        push_file_head("10.0.0.2", 7894, 1234, "a b.txt"),
        "POST /api/receive-file HTTP/1.1\r\nHost: 10.0.0.2:7894\r\nContent-Length: 1234\r\nX-Filename: a b.txt\r\nX-Total-Size: 1234\r\nConnection: close\r\n\r\n"
    );
}

#[test]
fn percent_decoding_with_mixed_case_digits() {
    // Each digit in its own case.
    assert_eq!(url_decode("%4a%4B%2f%2F%7e"), "JK//~");
    assert_eq!(url_decode("%c3%A9"), "\u{c3}\u{a9}");
    let s = "Mixed Case/Path?x=1&y=2";
    let mut enc = String::new();
    for (i, b) in s.bytes().enumerate() {
        let hi = b >> 4;
        let lo = b & 15;
        let digit = |d: u8, upper: bool| {
            let c = if d < 10 { (b'0' + d) as char } else if upper { (b'A' + d - 10) as char } else { (b'a' + d - 10) as char };
            c
        };
        enc.push('%');
        enc.push(digit(hi, i % 2 == 0));
        enc.push(digit(lo, i % 3 == 0));
    }
    assert_eq!(url_decode(&enc), s);
}
