use atproto_client::client::Client;
use atproto_client::dispatch::Progress;
use atproto_client::error::GetError;
use atproto_client::record::GetRecord;
use atproto_client::record::ListRecords;
use atproto_client::session::Jwt;
use atproto_client::session::Session;
use atproto_client::storage::MemoryStorage;
use atproto_client::wire::Method;
use atproto_client::wire::Reply;

#[derive(Debug, PartialEq)]
struct Post {
    text: String,
}

fn client() -> Client<MemoryStorage> {
    let session = Session {
        did: "did:plc:alice".to_string(),
        handle: "alice.example".to_string(),
        jwt: Jwt::new("access-1".to_string(), "refresh-1".to_string()).unwrap(),
    };
    Client::with_session("https://bsky.social".to_string(), MemoryStorage::new(), session)
}

fn no_json() -> serde_json::Error {
    serde_json::from_str::<serde_json::Value>("[").unwrap_err()
}

fn record(key: &str, text: &str) -> GetRecord<Post> {
    GetRecord {
        uri: format!("at://did:plc:alice/app.example.post/{}", key),
        cid: format!("cid-{}", key),
        value: Post { text: text.to_string() },
    }
}

fn pair(key: &str, value: &str) -> (String, String) {
    (key.to_string(), value.to_string())
}

#[test]
fn get_record_asks_for_the_repo_and_the_collection() {
    let call = client().repo_get_record("did:plc:alice", "app.example.post", None).unwrap();
    let request = call.request();
    assert_eq!(request.method, Method::Get);
    assert_eq!(request.url, "https://bsky.social/xrpc/com.atproto.repo.getRecord");
    assert_eq!(request.authorization.as_deref(), Some("Bearer access-1"));
    assert_eq!(
        request.query,
        vec![pair("repo", "did:plc:alice"), pair("collection", "app.example.post")]
    );
    assert_eq!(request.body, None);
}

#[test]
fn get_record_asks_for_the_key_where_one_is_given() {
    let call = client().repo_get_record("did:plc:alice", "app.example.post", Some("3k2a")).unwrap();
    assert_eq!(
        call.request().query,
        vec![
            pair("repo", "did:plc:alice"),
            pair("collection", "app.example.post"),
            pair("rkey", "3k2a"),
        ]
    );
}

#[test]
fn get_record_keeps_an_empty_key() {
    let call = client().repo_get_record("r", "c", Some("")).unwrap();
    assert_eq!(call.request().query, vec![pair("repo", "r"), pair("collection", "c"), pair("rkey", "")]);
}

#[test]
fn list_records_asks_for_the_repo_and_the_collection() {
    let call = client().repo_list_records("did:plc:alice", "app.example.post", None).unwrap();
    let request = call.request();
    assert_eq!(request.method, Method::Get);
    assert_eq!(request.url, "https://bsky.social/xrpc/com.atproto.repo.listRecords");
    assert_eq!(
        request.query,
        vec![pair("repo", "did:plc:alice"), pair("collection", "app.example.post")]
    );
    let call = client().repo_list_records("did:plc:alice", "app.example.post", Some("3k2a")).unwrap();
    assert_eq!(call.request().query.last(), Some(&pair("rkey", "3k2a")));
    assert_eq!(call.request().query.len(), 3);
}

#[test]
fn get_record_gives_the_value_of_the_envelope() {
    let call = client().repo_get_record("did:plc:alice", "app.example.post", Some("3k2a")).unwrap();
    let answer = Ok(Reply { status: 200, refused: None, error: Err(no_json()), payload: Ok(record("3k2a", "hello")) });
    let result = match call.receive::<GetRecord<Post>, MemoryStorage>(answer) {
        Progress::Done(result) => result,
        other => panic!("{:?}", other),
    };
    let value = result.map(GetRecord::into_value).ok().unwrap();
    assert_eq!(value, Post { text: "hello".to_string() });
}

#[test]
fn list_records_gives_the_values_in_the_servers_order() {
    let call = client().repo_list_records("did:plc:alice", "app.example.post", None).unwrap();
    assert_eq!(call.request().query.len(), 2);
    let list = ListRecords { records: vec![record("b", "second written"), record("a", "first written")] };
    let answer = Ok(Reply { status: 200, refused: None, error: Err(no_json()), payload: Ok(list) });
    let result = match call.receive::<ListRecords<Post>, MemoryStorage>(answer) {
        Progress::Done(result) => result,
        other => panic!("{:?}", other),
    };
    let values = result.map(ListRecords::into_values).ok().unwrap();
    assert_eq!(
        values,
        vec![Post { text: "second written".to_string() }, Post { text: "first written".to_string() }]
    );
}

#[test]
fn list_of_no_records_gives_no_values() {
    let list: ListRecords<Post> = ListRecords { records: Vec::new() };
    assert!(list.into_values().is_empty());
}

#[test]
fn list_of_many_records_keeps_every_value_in_place() {
    let records: Vec<GetRecord<u32>> = (0..100u32)
        .map(|n| GetRecord { uri: n.to_string(), cid: n.to_string(), value: n * 3 })
        .collect();
    let values = ListRecords { records }.into_values();
    assert_eq!(values.len(), 100);
    for (index, value) in values.iter().enumerate() {
        assert_eq!(*value as usize, index * 3);
    }
}

#[test]
fn a_record_call_fails_like_any_call() {
    let call = client().repo_get_record("did:plc:alice", "app.example.post", Some("none")).unwrap();
    let answer: Result<Reply<GetRecord<Post>>, reqwest::Error> =
        Ok(Reply { status: 404, refused: None, error: Err(no_json()), payload: Err(no_json()) });
    let result = match call.receive::<GetRecord<Post>, MemoryStorage>(answer) {
        Progress::Done(result) => result,
        other => panic!("{:?}", other),
    };
    match result.map(GetRecord::into_value) {
        Err(GetError::Api(error)) => {
            assert_eq!(error.error, "UnexpectedStatus");
            assert_eq!(error.message, "404");
        }
        other => panic!("{:?}", other),
    }
}
