use yaak_http::body::{
    build_body, build_graphql_body, fit_headers_to_body, form_params, graphql_body, multipart_parts,
    part_mime, BodyPlan, PartSource,
};
use yaak_http::json::JsonValue;

fn s(v: &str) -> JsonValue {
    JsonValue::Str(v.to_string())
}

fn obj(members: Vec<(&str, JsonValue)>) -> JsonValue {
    JsonValue::Object(members.into_iter().map(|(k, v)| (k.to_string(), v)).collect())
}

fn fields(members: Vec<(&str, JsonValue)>) -> Vec<(String, JsonValue)> {
    members.into_iter().map(|(k, v)| (k.to_string(), v)).collect()
}

fn kind(k: &str) -> Option<String> {
    Some(k.to_string())
}

#[test]
fn graphql_without_variables_leaves_them_out() {
    let body = fields(vec![("query", s("{ me }")), ("variables", s(""))]);
    match build_body(&kind("graphql"), &body) {
        BodyPlan::Text(t) => assert_eq!(t, r#"{"query":"{ me }"}"#),
        other => panic!("unexpected {other:?}"),
    }
    assert_eq!(build_graphql_body("{ me }", "  \n"), r#"{"query":"{ me }"}"#);
}

#[test]
fn graphql_variables_are_embedded_raw() {
    let body = fields(vec![("query", s("query Q($id: ID)")), ("variables", s(r#"{"id":"1"}"#))]);
    match build_body(&kind("graphql"), &body) {
        BodyPlan::Text(t) => assert_eq!(t, r#"{"query":"query Q($id: ID)","variables":{"id":"1"}}"#),
        other => panic!("unexpected {other:?}"),
    }
}

#[test]
fn graphql_query_is_escaped() {
    assert_eq!(build_graphql_body("say \"hi\"\n", ""), "{\"query\":\"say \\\"hi\\\"\\n\"}");
    assert_eq!(graphql_body("\"q\"", "[1]"), "{\"query\":\"q\",\"variables\":[1]}");
}

#[test]
fn graphql_without_query_sends_empty_query() {
    match build_body(&kind("graphql"), &vec![]) {
        BodyPlan::Text(t) => assert_eq!(t, r#"{"query":""}"#),
        other => panic!("unexpected {other:?}"),
    }
}

#[test]
fn form_keeps_enabled_named_entries() {
    let form = JsonValue::Array(vec![
        obj(vec![("name", s("a")), ("value", s("1"))]),
        obj(vec![("name", s("b")), ("value", s("2")), ("enabled", JsonValue::Bool(false))]),
        obj(vec![("name", s("")), ("value", s("3"))]),
        obj(vec![("name", s("c")), ("enabled", JsonValue::Bool(true))]),
    ]);
    let body = fields(vec![("form", form)]);
    match build_body(&kind("application/x-www-form-urlencoded"), &body) {
        BodyPlan::Form(ps) => assert_eq!(
            ps,
            vec![("a".to_string(), "1".to_string()), ("c".to_string(), "".to_string())]
        ),
        other => panic!("unexpected {other:?}"),
    }
}

#[test]
fn form_that_is_no_array_is_empty() {
    let body = fields(vec![("form", s("oops"))]);
    match build_body(&kind("application/x-www-form-urlencoded"), &body) {
        BodyPlan::Form(ps) => assert!(ps.is_empty()),
        other => panic!("unexpected {other:?}"),
    }
    assert!(form_params(&vec![]).is_empty());
}

#[test]
fn binary_reads_the_named_file() {
    let body = fields(vec![("filePath", s("/tmp/payload.bin"))]);
    match build_body(&kind("binary"), &body) {
        BodyPlan::File(p) => assert_eq!(p, "/tmp/payload.bin"),
        other => panic!("unexpected {other:?}"),
    }
}

#[test]
fn multipart_parts_skip_disabled_and_blank_entries() {
    let form = JsonValue::Array(vec![
        obj(vec![("name", s("greeting")), ("value", s("hello"))]),
        obj(vec![("name", s("off")), ("value", s("x")), ("enabled", JsonValue::Bool(false))]),
        obj(vec![("name", s("")), ("value", s("y"))]),
        obj(vec![("name", s("photo")), ("file", s("/home/u/pics/cat.png"))]),
        obj(vec![("name", s("blob")), ("file", s("/tmp/data.zzqx"))]),
        obj(vec![("name", s("doc")), ("file", s("/tmp/a.png")), ("contentType", s("text/x-custom"))]),
    ]);
    let body = fields(vec![("form", form)]);
    let parts = match build_body(&kind("multipart/form-data"), &body) {
        BodyPlan::Multipart(p) => p,
        other => panic!("unexpected {other:?}"),
    };
    assert_eq!(parts.len(), 4);
    assert_eq!(parts[0].name, "greeting");
    assert!(matches!(&parts[0].source, PartSource::Text(t) if t == "hello"));
    assert_eq!(parts[0].mime, None);
    assert_eq!(parts[0].file_name, None);
    assert_eq!(parts[1].name, "photo");
    assert!(matches!(&parts[1].source, PartSource::File(f) if f == "/home/u/pics/cat.png"));
    assert_eq!(parts[1].mime.as_deref(), Some("image/png"));
    assert_eq!(parts[1].file_name.as_deref(), Some("cat.png"));
    assert_eq!(parts[2].mime.as_deref(), Some("application/octet-stream"));
    assert_eq!(parts[2].file_name.as_deref(), Some("data.zzqx"));
    assert_eq!(parts[3].mime.as_deref(), Some("text/x-custom"));
}

#[test]
fn text_part_with_content_type() {
    let entries = vec![obj(vec![("name", s("j")), ("value", s("{}")), ("contentType", s("application/json"))])];
    let parts = multipart_parts(&entries);
    assert_eq!(parts.len(), 1);
    assert_eq!(parts[0].mime.as_deref(), Some("application/json"));
    assert_eq!(parts[0].file_name, None);
}

#[test]
fn part_mime_choices() {
    assert_eq!(part_mime("text/plain", "a.png", Some("image/png".to_string())).as_deref(), Some("text/plain"));
    assert_eq!(part_mime("", "a.png", Some("image/png".to_string())).as_deref(), Some("image/png"));
    assert_eq!(part_mime("", "a.qqq", None).as_deref(), Some("application/octet-stream"));
    assert_eq!(part_mime("", "", None), None);
}

#[test]
fn multipart_drops_content_type_header() {
    let mut headers = vec![
        ("user-agent".to_string(), "yaak".to_string()),
        ("content-type".to_string(), "multipart/form-data".to_string()),
        ("accept".to_string(), "*/*".to_string()),
    ];
    fit_headers_to_body(&mut headers, &BodyPlan::Multipart(vec![]));
    assert_eq!(
        headers,
        vec![("user-agent".to_string(), "yaak".to_string()), ("accept".to_string(), "*/*".to_string())]
    );
    let mut kept = vec![("content-type".to_string(), "text/plain".to_string())];
    fit_headers_to_body(&mut kept, &BodyPlan::Text("x".to_string()));
    assert_eq!(kept.len(), 1);
}

#[test]
fn text_and_other_kinds() {
    let body = fields(vec![("text", s("plain body"))]);
    assert!(matches!(build_body(&kind("application/json"), &body), BodyPlan::Text(t) if t == "plain body"));
    assert!(matches!(build_body(&kind("binary"), &body), BodyPlan::Text(t) if t == "plain body"));
    assert!(matches!(build_body(&kind("something/else"), &vec![]), BodyPlan::Unsupported(k) if k == "something/else"));
    assert!(matches!(build_body(&None, &body), BodyPlan::Empty));
}
