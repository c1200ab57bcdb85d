use dali::client::{Client, ClientBuilder, ExecutionError, RequestMethod};
use dali::client::decode_body;

#[test]
fn can_build_client() {
    let client = ClientBuilder::default()
        .username("test")
        .password("test")
        .build()
        .unwrap();
    assert_eq!(client.username, "test");
}

#[test]
fn can_build_client_with_defaults() {
    let client = ClientBuilder::default().build().unwrap();
    assert_eq!(client.host, "localhost");
    assert_eq!(client.port, 8000);
    assert_eq!(client.username, "root");
    assert_eq!(client.password, "root");
    assert_eq!(client.namespace, "test");
    assert_eq!(client.database, "test");
}

#[test]
fn can_auth() {
    let client = ClientBuilder::default()
        .username("test")
        .password("test")
        .build()
        .unwrap();
    let auth = client.auth();
    assert_eq!(auth, "Basic dGVzdDp0ZXN0");
}

#[test]
fn can_build_client_with_new() {
    let client = Client::new()
        .username("test")
        .password("test")
        .build()
        .unwrap();
    assert_eq!(client.username, "test");
}

#[test]
fn auth_with_default_credentials() {
    let client = ClientBuilder::default().build().unwrap();
    assert_eq!(client.auth(), "Basic cm9vdDpyb290");
}

#[test]
fn auth_with_empty_credentials() {
    let client = ClientBuilder::default()
        .username("")
        .password("")
        .build()
        .unwrap();
    assert_eq!(client.auth(), "Basic Og==");
}

#[test]
fn auth_distinct_pairs_give_distinct_headers() {
    let a = ClientBuilder::default()
        .username("a")
        .password("b")
        .build()
        .unwrap();
    let b = ClientBuilder::default()
        .username("b")
        .password("a")
        .build()
        .unwrap();
    assert_ne!(a.auth(), b.auth());
}

#[test]
fn version_is_semantic() {
    assert_eq!(dali::version(), "0.1.0");
}

#[test]
fn prepare_shapes_the_request() {
    let client = ClientBuilder::default().build().unwrap();
    let req = client.prepare("http://127.0.0.1:8000/sql", "select * from account;");
    assert!(matches!(req.method, RequestMethod::POST));
    assert_eq!(req.uri, "http://127.0.0.1:8000/sql");
    assert_eq!(req.accept, "application/json");
    assert_eq!(req.authorization, "Basic cm9vdDpyb290");
    assert_eq!(req.db, "test");
    assert_eq!(req.ns, "test");
    assert_eq!(req.user_agent, "dali-rs/0.1.0");
    assert_eq!(req.body, "select * from account;");
}

#[test]
fn prepare_keeps_configured_namespace_and_database() {
    let client = ClientBuilder::default()
        .namespace("myns")
        .database("mydb")
        .build()
        .unwrap();
    let req = client.prepare("http://localhost:8000/sql", "info for db;");
    assert_eq!(req.ns, "myns");
    assert_eq!(req.db, "mydb");
}

#[test]
fn decode_body_accepts_the_response_envelope() {
    let body = "{\"time\":\"1ms\",\"status\":\"OK\",\"result\":[]}";
    let value = decode_body(body).unwrap();
    assert_eq!(value["time"], "1ms");
    assert_eq!(value["status"], "OK");
    assert_eq!(value["result"], serde_json::Value::Array(vec![]));
}

#[test]
fn decode_body_rejects_a_non_json_body() {
    let result = decode_body("this is not json");
    assert!(matches!(result, Err(ExecutionError::Decode(_))));
}

#[test]
fn round_trip_copying_each_field() {
    let first = ClientBuilder::default()
        .host("db.example")
        .port(9001)
        .username("alice")
        .password("secret")
        .namespace("ns1")
        .database("db1")
        .build()
        .unwrap();
    let second = ClientBuilder::default()
        .host(&first.host)
        .port(first.port)
        .username(&first.username)
        .password(&first.password)
        .namespace(&first.namespace)
        .database(&first.database)
        .build()
        .unwrap();
    assert_eq!(second.host, first.host);
    assert_eq!(second.port, first.port);
    assert_eq!(second.username, first.username);
    assert_eq!(second.password, first.password);
    assert_eq!(second.namespace, first.namespace);
    assert_eq!(second.database, first.database);
}
