use datum_connect::fake_apiserver::selector::{
    json_path_str, matches_field_selector, query_param, urlencoding_decode,
};
use datum_connect::fake_apiserver::server::{FakeApiServer, Response};
use datum_connect::json::{merge_patch, Json, JsonNumber};
use serde_json::Value;

fn to_json(value: &Value) -> Json {
    match value {
        Value::Null => Json::Null,
        Value::Bool(b) => Json::Bool(*b),
        Value::Number(n) => Json::Number(match (n.as_u64(), n.as_i64()) {
            (Some(n), _) => JsonNumber::Unsigned(n),
            (None, Some(n)) => JsonNumber::Negative(n),
            (None, None) => JsonNumber::Other(n.to_string()),
        }),
        Value::String(s) => Json::Text(s.clone()),
        Value::Array(items) => Json::Array(items.iter().map(to_json).collect()),
        Value::Object(members) => Json::Object(
            members
                .iter()
                .map(|(k, v)| (k.clone(), to_json(v)))
                .collect(),
        ),
    }
}

fn to_value(json: &Json) -> Value {
    match json {
        Json::Null => Value::Null,
        Json::Bool(b) => Value::Bool(*b),
        Json::Number(JsonNumber::Unsigned(n)) => Value::from(*n),
        Json::Number(JsonNumber::Negative(n)) => Value::from(*n),
        Json::Number(JsonNumber::Other(s)) => serde_json::from_str(s).unwrap(),
        Json::Text(s) => Value::String(s.clone()),
        Json::Array(items) => Value::Array(items.iter().map(to_value).collect()),
        Json::Object(members) => Value::Object(
            members
                .iter()
                .map(|(k, v)| (k.clone(), to_value(v)))
                .collect(),
        ),
    }
}

fn parse(text: &str) -> Json {
    to_json(&serde_json::from_str(text).unwrap())
}

fn merged(target: &str, patch: &str) -> Value {
    let mut target = parse(target);
    merge_patch(&mut target, &parse(patch));
    to_value(&target)
}

fn value(text: &str) -> Value {
    serde_json::from_str(text).unwrap()
}

#[test]
fn merge_patch_deletes_null_leaves_and_merges_nested_objects() {
    let target = merged(
        r#"{"spec": {"a": 1, "b": 2}, "keep": "me"}"#,
        r#"{"spec": {"a": null, "c": 3}}"#,
    );
    assert_eq!(target, value(r#"{"spec": {"b": 2, "c": 3}, "keep": "me"}"#));
}

#[test]
fn merge_patch_follows_the_examples_of_the_standard() {
    let cases = [
        (r#"{"a":"b"}"#, r#"{"a":"c"}"#, r#"{"a":"c"}"#),
        (r#"{"a":"b"}"#, r#"{"b":"c"}"#, r#"{"a":"b","b":"c"}"#),
        (r#"{"a":"b"}"#, r#"{"a":null}"#, r#"{}"#),
        (r#"{"a":"b","b":"c"}"#, r#"{"a":null}"#, r#"{"b":"c"}"#),
        (r#"{"a":["b"]}"#, r#"{"a":"c"}"#, r#"{"a":"c"}"#),
        (r#"{"a":"c"}"#, r#"{"a":["b"]}"#, r#"{"a":["b"]}"#),
        (
            r#"{"a":{"b":"c"}}"#,
            r#"{"a":{"b":"d","c":null}}"#,
            r#"{"a":{"b":"d"}}"#,
        ),
        (r#"{"a":[{"b":"c"}]}"#, r#"{"a":[1]}"#, r#"{"a":[1]}"#),
        (r#"["a","b"]"#, r#"["c","d"]"#, r#"["c","d"]"#),
        (r#"{"a":"b"}"#, r#"["c"]"#, r#"["c"]"#),
        (r#"{"a":"foo"}"#, r#"null"#, r#"null"#),
        (r#"{"a":"foo"}"#, r#""bar""#, r#""bar""#),
        (r#"{"e":null}"#, r#"{"a":1}"#, r#"{"e":null,"a":1}"#),
        (r#"[1,2]"#, r#"{"a":"b","c":null}"#, r#"{"a":"b"}"#),
        (r#"{}"#, r#"{"a":{"bb":{"ccc":null}}}"#, r#"{"a":{"bb":{}}}"#),
    ];
    for (target, patch, expected) in cases {
        assert_eq!(merged(target, patch), value(expected), "{target} + {patch}");
        let once = merged(target, patch).to_string();
        assert_eq!(merged(&once, patch), value(expected), "twice: {target} + {patch}");
    }
}

#[test]
fn field_selector_matches_dotted_path() {
    let obj = parse(r#"{"status": {"connectionDetails": {"publicKey": {"id": "abc123"}}}}"#);
    assert!(matches_field_selector(
        &obj,
        "status.connectionDetails.publicKey.id=abc123"
    ));
    assert!(!matches_field_selector(
        &obj,
        "status.connectionDetails.publicKey.id=other"
    ));
}

#[test]
fn every_clause_of_a_selector_counts() {
    let obj = parse(r#"{"a": "1", "b": {"c": "2"}, "n": 3}"#);
    assert!(matches_field_selector(&obj, "a=1,b.c=2"));
    assert!(!matches_field_selector(&obj, "a=1,b.c=3"));
    assert!(matches_field_selector(&obj, "a"));
    assert!(!matches_field_selector(&obj, "n=3"));
    assert!(!matches_field_selector(&obj, "missing=1"));
    assert_eq!(json_path_str(&obj, "b.c").as_deref(), Some("2"));
    assert_eq!(json_path_str(&obj, "b"), None);
}

#[test]
fn parameters_are_decoded() {
    assert_eq!(urlencoding_decode("a%2Cb+c"), "a,b c");
    assert_eq!(urlencoding_decode("100%"), "100%");
    assert_eq!(urlencoding_decode("%zz%4"), "%zz\u{4}");
    assert_eq!(urlencoding_decode("%e9"), "\u{e9}");
    assert_eq!(urlencoding_decode("plain.text/1"), "plain.text/1");
    assert_eq!(
        query_param("limit=5&fieldSelector=a%3Db&fieldSelector=c", "fieldSelector").as_deref(),
        Some("a=b")
    );
    assert_eq!(query_param("flag&x=1", "flag"), None);
}

const BASE: &str = "/apis/networking.datumapis.com/v1alpha1/namespaces/default/connectors";

fn call(server: &mut FakeApiServer, method: &str, path: &str, body: &str) -> Response {
    let body = serde_json::from_str(body).ok().map(|v: Value| to_json(&v));
    assert!(server.can_handle(method, path, &body));
    server.handle(method, path, "", body)
}

fn text_at(response: &Response, path: &str) -> Option<String> {
    json_path_str(&response.body, path)
}

#[test]
fn create_list_get_patch_delete_round_trip() {
    let mut server = FakeApiServer::new();
    let created = call(
        &mut server,
        "POST",
        BASE,
        r#"{"metadata": {"generateName": "conn-"}, "spec": {"connectorClassName": "datum-connect"}}"#,
    );
    assert_eq!(created.status, 201);
    assert_eq!(
        to_value(&created.body),
        value(
            r#"{"metadata": {"generateName": "conn-", "name": "conn-00001", "namespace": "default", "generation": 1},
                "spec": {"connectorClassName": "datum-connect"}}"#
        )
    );
    let one = format!("{BASE}/conn-00001");

    let list = call(&mut server, "GET", BASE, "");
    assert_eq!(list.status, 200);
    assert_eq!(text_at(&list, "kind").as_deref(), Some("List"));
    assert_eq!(text_at(&list, "apiVersion").as_deref(), Some("v1"));
    assert!(matches!(list.body.get("items"), Some(Json::Array(items)) if items.len() == 1));

    let fetched = call(&mut server, "GET", &one, "");
    assert_eq!(fetched.status, 200);
    assert_eq!(to_value(&fetched.body), to_value(&created.body));

    let patched = call(
        &mut server,
        "PATCH",
        &one,
        r#"{"spec": {"connectorClassName": "other-class"}}"#,
    );
    assert_eq!(patched.status, 200);
    assert_eq!(
        text_at(&patched, "spec.connectorClassName").as_deref(),
        Some("other-class")
    );
    assert_eq!(to_value(&patched.body)["metadata"]["generation"], 2);

    let status = call(
        &mut server,
        "PATCH",
        &format!("{one}/status"),
        r#"{"status": {"x": "y"}}"#,
    );
    assert_eq!(to_value(&status.body)["metadata"]["generation"], 2);
    assert_eq!(text_at(&status, "status.x").as_deref(), Some("y"));

    let deleted = call(&mut server, "DELETE", &one, "");
    assert_eq!(deleted.status, 200);
    assert_eq!(to_value(&deleted.body), to_value(&status.body));
    assert_eq!(call(&mut server, "GET", &one, "").status, 404);
}

#[test]
fn what_is_not_there_is_not_found() {
    let mut server = FakeApiServer::new();
    let missing = call(&mut server, "GET", &format!("{BASE}/missing"), "");
    assert_eq!(missing.status, 404);
    assert_eq!(
        to_value(&missing.body),
        value(
            r#"{"kind": "Status", "apiVersion": "v1", "status": "Failure",
                "message": "connectors \"missing\" not found", "reason": "NotFound", "code": 404}"#
        )
    );
    let path = format!("{BASE}/missing");
    assert_eq!(call(&mut server, "PATCH", &path, "{}").status, 404);
    assert_eq!(call(&mut server, "DELETE", &path, "").status, 404);
}

#[test]
fn requests_that_make_no_sense_are_refused() {
    let mut server = FakeApiServer::new();
    let short = call(&mut server, "GET", "/apis/x", "");
    assert_eq!(short.status, 404);
    assert_eq!(text_at(&short, "message").as_deref(), Some("unrecognised path"));
    let plural = call(&mut server, "GET", "/apis/g/v1", "");
    assert_eq!(
        text_at(&plural, "message").as_deref(),
        Some("missing resource plural")
    );
    let method = call(&mut server, "PUT", BASE, "{}");
    assert_eq!(method.status, 405);
    assert_eq!(
        text_at(&method, "message").as_deref(),
        Some("fake apiserver does not support PUT on connectors")
    );
    assert_eq!(text_at(&method, "reason").as_deref(), Some("MethodNotAllowed"));
    let body = call(&mut server, "POST", BASE, "{not json");
    assert_eq!(body.status, 400);
    assert_eq!(text_at(&body, "reason").as_deref(), Some("BadRequest"));
    assert!(server.names("connectors").is_empty());
}

#[test]
fn objects_are_listed_by_name_and_by_selector() {
    let mut server = FakeApiServer::new();
    for name in ["b", "c", "a"] {
        let owner = if name == "c" { "two" } else { "one" };
        server.insert(
            "things",
            "default",
            name,
            parse(&format!(r#"{{"spec": {{"owner": "{owner}", "name": "{name}"}}}}"#)),
        );
    }
    server.insert("things", "other", "z", parse("{}"));
    server.insert("kinds", "", "cluster-wide", parse("{}"));
    assert_eq!(server.names("things"), vec!["a", "b", "c", "z"]);
    assert_eq!(server.names("kinds"), vec!["cluster-wide"]);
    assert!(server.get("kinds", "", "cluster-wide").is_some());
    assert!(server.get("kinds", "default", "cluster-wide").is_none());

    let names = |response: Response| -> Vec<String> {
        match response.body.get("items") {
            Some(Json::Array(items)) => items
                .iter()
                .map(|item| json_path_str(item, "spec.name").unwrap())
                .collect(),
            other => panic!("{other:?}"),
        }
    };
    assert_eq!(names(server.list("things", "default", "")), vec!["a", "b", "c"]);
    assert_eq!(
        names(server.list("things", "default", "fieldSelector=spec.owner%3Done")),
        vec!["a", "b"]
    );
    let cluster = call(&mut server, "GET", "/apis/g/v1/kinds/cluster-wide", "");
    assert_eq!(cluster.status, 200);
}

#[test]
fn own_names_come_before_made_up_ones() {
    let mut server = FakeApiServer::new();
    let own = call(&mut server, "POST", BASE, r#"{"metadata": {"name": "mine", "generation": 7}}"#);
    assert_eq!(text_at(&own, "metadata.name").as_deref(), Some("mine"));
    assert_eq!(to_value(&own.body)["metadata"]["generation"], 7);
    let first = call(&mut server, "POST", BASE, r#"{"metadata": {"name": ""}}"#);
    assert_eq!(
        text_at(&first, "metadata.name").as_deref(),
        Some("generated-00001")
    );
    let second = call(&mut server, "POST", "/apis/g/v1/classes", r#"{"metadata": {}}"#);
    assert_eq!(
        text_at(&second, "metadata.name").as_deref(),
        Some("generated-00002")
    );
    assert_eq!(text_at(&second, "metadata.namespace"), None);
}

#[test]
fn a_generation_that_cannot_be_counted_up_is_known_beforehand() {
    let mut server = FakeApiServer::new();
    server.insert(
        "things",
        "",
        "x",
        parse(r#"{"metadata": {"generation": 9223372036854775807}}"#),
    );
    let patch = Some(parse("{}"));
    assert!(!server.can_handle("PATCH", "/apis/g/v1/things/x", &patch));
    assert!(server.can_handle("PATCH", "/apis/g/v1/things/x/status", &patch));
    assert!(server.can_handle("GET", "/apis/g/v1/things/x", &patch));
}

#[test]
fn get_opt_returns_none_on_404_not_err() {
    let server = FakeApiServer::new();
    assert!(server.get("connectors", "default", "missing").is_none());
    assert_eq!(server.get_one("connectors", "default", "missing").status, 404);
}
