use yaak_http::auth::{auth_context_id, hex_lower};
use yaak_http::headers::{insert_header, merge_headers, remove_header, request_headers};
use yaak_http::models::{HttpRequestHeader, HttpUrlParameter};
use yaak_http::request::body_file_name;
use yaak_http::url::{check_url, ensure_proto, proto_for_host, query_params};

fn header(enabled: bool, name: &str, value: &str) -> HttpRequestHeader {
    HttpRequestHeader { enabled, name: name.to_string(), value: value.to_string(), id: None }
}

fn param(enabled: bool, name: &str, value: &str) -> HttpUrlParameter {
    HttpUrlParameter { enabled, name: name.to_string(), value: value.to_string(), id: None }
}

fn pairs(v: &[(&str, &str)]) -> Vec<(String, String)> {
    v.iter().map(|(a, b)| (a.to_string(), b.to_string())).collect()
}

#[test]
fn https_only_domains_get_https() {
    assert_eq!(ensure_proto("example.dev"), "https://example.dev");
    assert_eq!(ensure_proto("my.app/path?q=1"), "https://my.app/path?q=1");
    assert_eq!(ensure_proto("docs.page"), "https://docs.page");
}

#[test]
fn other_hosts_get_http() {
    assert_eq!(ensure_proto("example.com"), "http://example.com");
    assert_eq!(ensure_proto("localhost:8080/x"), "http://localhost:8080/x");
    assert_eq!(ensure_proto("dev.example.com"), "http://dev.example.com");
}

#[test]
fn urls_with_a_scheme_stay() {
    assert_eq!(ensure_proto("https://x.test"), "https://x.test");
    assert_eq!(ensure_proto("http://example.dev"), "http://example.dev");
}

#[test]
fn scheme_from_a_given_host() {
    assert_eq!(proto_for_host("a.dev/x", Some("a.dev")), "https://a.dev/x");
    assert_eq!(proto_for_host("a.dev/x", Some("a.com")), "http://a.dev/x");
    assert_eq!(proto_for_host("whatever", None), "http://whatever");
}

#[test]
fn url_check_writes_the_uri_out_again() {
    assert_eq!(check_url("http://example.com").unwrap(), "http://example.com/");
}

#[test]
fn url_check_accepts_and_refuses() {
    assert_eq!(check_url("http://example.com/a?b=c").unwrap(), "http://example.com/a?b=c");
    let err = check_url("http://exa mple.com").unwrap_err();
    assert!(err.starts_with("Failed to parse URL \"http://exa mple.com\": "));
    assert!(err.len() > "Failed to parse URL \"http://exa mple.com\": ".len());
}

#[test]
fn query_keeps_enabled_named_params_in_order() {
    let ps = vec![
        param(true, "a", "1"),
        param(false, "b", "2"),
        param(true, "", "3"),
        param(true, "c", ""),
        param(true, "a", "4"),
    ];
    assert_eq!(query_params(&ps), pairs(&[("a", "1"), ("c", ""), ("a", "4")]));
}

#[test]
fn default_headers_come_first() {
    assert_eq!(request_headers(&vec![]), pairs(&[("user-agent", "yaak"), ("accept", "*/*")]));
}

#[test]
fn later_headers_replace_earlier_ones() {
    let hs = vec![
        header(true, "X-Token", "one"),
        header(true, "Accept", "application/json"),
        header(true, "x-token", "two"),
    ];
    assert_eq!(
        request_headers(&hs),
        pairs(&[("user-agent", "yaak"), ("accept", "application/json"), ("x-token", "two")])
    );
}

#[test]
fn unusable_headers_are_skipped() {
    let hs = vec![
        header(false, "X-Off", "1"),
        header(true, "", ""),
        header(true, "bad name", "1"),
        header(true, "X-Bad-Value", "a\nb"),
        header(true, "X-Ok", "a\tb"),
    ];
    assert_eq!(
        request_headers(&hs),
        pairs(&[("user-agent", "yaak"), ("accept", "*/*"), ("x-ok", "a\tb")])
    );
}

#[test]
fn removing_a_header_moves_the_last_into_its_place() {
    let mut list = pairs(&[("a", "1"), ("b", "2"), ("c", "3")]);
    remove_header(&mut list, &"a".to_string());
    assert_eq!(list, pairs(&[("c", "3"), ("b", "2")]));
    remove_header(&mut list, &"zz".to_string());
    assert_eq!(list, pairs(&[("c", "3"), ("b", "2")]));
    insert_header(&mut list, "b".to_string(), "9".to_string());
    insert_header(&mut list, "d".to_string(), "4".to_string());
    assert_eq!(list, pairs(&[("c", "3"), ("b", "9"), ("d", "4")]));
}

#[test]
fn auth_headers_overwrite_and_invalid_ones_are_ignored() {
    let mut list = pairs(&[("user-agent", "yaak"), ("authorization", "old")]);
    let set = pairs(&[("Authorization", "Bearer abc"), ("bad name", "x"), ("X-Sig", "a\u{7f}"), ("X-Extra", "1")]);
    merge_headers(&mut list, &set);
    assert_eq!(list, pairs(&[("user-agent", "yaak"), ("authorization", "Bearer abc"), ("x-extra", "1")]));
}

#[test]
fn context_id_is_md5_of_request_id() {
    assert_eq!(auth_context_id("rq_123"), "a18cb1f84cb01f7f3dab51cb4ba7c845");
    assert_eq!(auth_context_id(""), "d41d8cd98f00b204e9800998ecf8427e");
    assert_eq!(auth_context_id("rq_123"), auth_context_id("rq_123"));
}

#[test]
fn hex_is_two_lower_digits_per_byte() {
    assert_eq!(hex_lower(&vec![0x00, 0xff, 0x1a, 0x09]), "00ff1a09");
    assert_eq!(hex_lower(&vec![]), "");
}

#[test]
fn body_file_is_named_by_response_id() {
    assert_eq!(body_file_name("rs_1", "fresh".to_string()), "rs_1");
    assert_eq!(body_file_name("", "fresh".to_string()), "fresh");
}
