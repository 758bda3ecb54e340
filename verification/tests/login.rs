use atproto_client::login::login_request;
use atproto_client::client::Client;
use atproto_client::error::ApiError;
use atproto_client::error::LoginError;
use atproto_client::session::CreateSession;
use atproto_client::session::Session;
use atproto_client::storage::MemoryStorage;
use atproto_client::storage::Storage;
use atproto_client::wire::Method;
use atproto_client::wire::Reply;

#[derive(Debug, PartialEq)]
struct Full;

/// A storage that counts what is asked of it, and can be told to refuse.
#[derive(Debug)]
struct Watched {
    refuse: bool,
    saves: usize,
    loads: usize,
    slot: Option<Session>,
}

impl Watched {
    fn new(refuse: bool) -> Watched {
        Watched { refuse, saves: 0, loads: 0, slot: None }
    }
}

impl Storage for Watched {
    type Error = Full;

    fn load(&mut self) -> Result<Session, Full> {
        self.loads += 1;
        self.slot.clone().ok_or(Full)
    }

    fn save(&mut self, session: &Session) -> Result<(), Full> {
        self.saves += 1;
        if self.refuse {
            Err(Full)
        } else {
            self.slot = Some(session.clone());
            Ok(())
        }
    }
}

fn no_json() -> serde_json::Error {
    serde_json::from_str::<serde_json::Value>("{").unwrap_err()
}

fn no_response() -> reqwest::Error {
    reqwest::Client::new().get("no url").build().unwrap_err()
}

fn granted() -> CreateSession {
    CreateSession::new(
        "did:plc:alice".to_string(),
        "alice.example".to_string(),
        "access-1".to_string(),
        "refresh-1".to_string(),
    )
    .unwrap()
}

fn refusal(code: &str, message: &str) -> ApiError {
    ApiError { error: code.to_string(), message: message.to_string() }
}

#[test]
fn login_request_goes_to_the_create_session_procedure() {
    let request = login_request("https://bsky.social", "alice.example", "hunter2").unwrap();
    assert_eq!(request.method, Method::Post);
    assert_eq!(request.url, "https://bsky.social/xrpc/com.atproto.server.createSession");
    assert_eq!(request.authorization, None);
    assert!(request.query.is_empty());
    assert_eq!(
        request.body.as_deref(),
        Some("{\"identifier\":\"alice.example\",\"password\":\"hunter2\"}")
    );
}

#[test]
fn login_request_body_is_the_json_object_of_the_credentials() {
    let identifier = "al\"ice\\example";
    let password = "line\nbreak\ttab \u{1} caf\u{e9}";
    let request = login_request("https://bsky.social", identifier, password).unwrap();
    let mut object = serde_json::Map::new();
    object.insert("identifier".to_string(), serde_json::Value::from(identifier));
    object.insert("password".to_string(), serde_json::Value::from(password));
    assert_eq!(request.body, Some(serde_json::Value::Object(object).to_string()));
    assert_eq!(
        request.body.as_deref(),
        Some("{\"identifier\":\"al\\\"ice\\\\example\",\"password\":\"line\\nbreak\\ttab \\u0001 caf\u{e9}\"}")
    );
}

#[test]
fn login_request_body_reads_back_as_the_credentials() {
    let request = login_request("https://bsky.social", "a\"b", "c\\d").unwrap();
    let body: serde_json::Value = serde_json::from_str(&request.body.unwrap()).unwrap();
    assert_eq!(body.get("identifier").and_then(|v| v.as_str()), Some("a\"b"));
    assert_eq!(body.get("password").and_then(|v| v.as_str()), Some("c\\d"));
    assert_eq!(body.as_object().map(|o| o.len()), Some(2));
}

#[test]
fn login_request_joins_the_procedure_to_the_service() {
    let under = login_request("https://pds.example/base/", "a", "b").unwrap();
    assert_eq!(under.url, "https://pds.example/base/xrpc/com.atproto.server.createSession");
    let beside = login_request("https://pds.example/base", "a", "b").unwrap();
    assert_eq!(beside.url, "https://pds.example/xrpc/com.atproto.server.createSession");
    let local = login_request("http://localhost:2583", "a", "b").unwrap();
    assert_eq!(local.url, "http://localhost:2583/xrpc/com.atproto.server.createSession");
}

#[test]
fn login_request_needs_a_service_that_is_a_base_url() {
    assert!(login_request("not a url", "a", "b").is_none());
    assert!(login_request("", "a", "b").is_none());
    assert!(login_request("mailto:alice@example.com", "a", "b").is_none());
}

#[test]
fn login_stores_the_session_of_the_answer() {
    let mut storage = MemoryStorage::new();
    let reply = Reply { status: 200, refused: None, error: Err(no_json()), payload: Ok(granted()) };
    let outcome = Client::login(Ok(reply), &mut storage);
    assert!(outcome.is_ok());
    let stored = storage.load().unwrap();
    assert_eq!(stored, Session::from(granted()));
    assert_eq!(stored.did, "did:plc:alice");
    assert_eq!(stored.handle, "alice.example");
    assert_eq!(stored.jwt.access(), "access-1");
    assert_eq!(stored.jwt.refresh(), "refresh-1");
}

#[test]
fn login_saves_once_and_loads_never() {
    let mut storage = Watched::new(false);
    let reply = Reply { status: 200, refused: None, error: Err(no_json()), payload: Ok(granted()) };
    assert!(Client::login(Ok(reply), &mut storage).is_ok());
    assert_eq!(storage.saves, 1);
    assert_eq!(storage.loads, 0);
    assert_eq!(storage.slot, Some(Session::from(granted())));
}

#[test]
fn login_with_wrong_credentials_returns_the_servers_error() {
    let mut storage = Watched::new(false);
    let reply: Reply<CreateSession> = Reply {
        status: 401,
        refused: None,
        error: Ok(refusal("AuthenticationRequired", "Invalid identifier or password")),
        payload: Err(no_json()),
    };
    match Client::login(Ok(reply), &mut storage) {
        Err(LoginError::Api(error)) => {
            assert_eq!(error.error, "AuthenticationRequired");
            assert_eq!(error.message, "Invalid identifier or password");
        }
        other => panic!("{:?}", other),
    }
    assert_eq!(storage.saves, 0);
    assert_eq!(storage.loads, 0);
    assert_eq!(storage.slot, None);
}

#[test]
fn login_refused_without_an_envelope_is_a_json_error() {
    let mut storage = Watched::new(false);
    let reply: Reply<CreateSession> =
        Reply { status: 401, refused: None, error: Err(no_json()), payload: Ok(granted()) };
    let outcome = Client::login(Ok(reply), &mut storage);
    assert!(matches!(outcome, Err(LoginError::Json(_))));
    assert_eq!(storage.saves, 0);
}

#[test]
fn login_accepted_without_a_session_is_a_json_error() {
    let mut storage = Watched::new(false);
    let reply: Reply<CreateSession> =
        Reply { status: 200, refused: None, error: Ok(refusal("X", "y")), payload: Err(no_json()) };
    let outcome = Client::login(Ok(reply), &mut storage);
    assert!(matches!(outcome, Err(LoginError::Json(_))));
    assert_eq!(storage.saves, 0);
}

#[test]
fn login_under_any_other_status_returns_the_servers_error() {
    for status in [100u16, 199, 201, 204, 299, 301, 400, 402, 403, 404, 429, 500, 503] {
        let mut storage = Watched::new(false);
        let reply = Reply {
            status,
            refused: None,
            error: Ok(refusal("InternalServerError", "oops")),
            payload: Ok(granted()),
        };
        match Client::login(Ok(reply), &mut storage) {
            Err(LoginError::Api(error)) => {
                assert_eq!(error.error, "InternalServerError");
                assert_eq!(error.message, "oops");
            }
            other => panic!("{}: {:?}", status, other),
        }
        assert_eq!(storage.saves, 0);
        assert_eq!(storage.loads, 0);
    }
}

#[test]
fn login_under_any_other_status_without_an_envelope_is_an_api_error() {
    for (status, text) in [(100u16, "100"), (204, "204"), (302, "302"), (400, "400"), (500, "500")] {
        let mut storage = Watched::new(false);
        let reply: Reply<CreateSession> = Reply {
            status,
            refused: Some(no_response()),
            error: Err(no_json()),
            payload: Ok(granted()),
        };
        match Client::login(Ok(reply), &mut storage) {
            Err(LoginError::Api(error)) => {
                assert_eq!(error.error, "UnexpectedStatus");
                assert_eq!(error.message, text);
            }
            other => panic!("{}: {:?}", status, other),
        }
        assert_eq!(storage.saves, 0);
        assert_eq!(storage.slot, None);
    }
}

#[test]
fn login_without_a_response_is_a_transport_error() {
    let mut storage = Watched::new(false);
    let outcome = Client::login(Err(no_response()), &mut storage);
    match outcome {
        Err(LoginError::Reqwest(e)) => assert!(e.is_builder()),
        other => panic!("{:?}", other),
    }
    assert_eq!(storage.saves, 0);
}

#[test]
fn login_that_cannot_be_stored_is_a_storage_error() {
    let mut storage = Watched::new(true);
    let reply = Reply { status: 200, refused: None, error: Err(no_json()), payload: Ok(granted()) };
    let outcome = Client::login(Ok(reply), &mut storage);
    assert!(matches!(outcome, Err(LoginError::Storage(Full))));
    assert_eq!(storage.saves, 1);
    assert_eq!(storage.slot, None);
}

#[test]
fn login_saved_follows_the_storage() {
    assert!(Client::<Watched>::login_saved(Ok(())).is_ok());
    assert!(matches!(Client::<Watched>::login_saved(Err(Full)), Err(LoginError::Storage(Full))));
}

#[test]
fn login_error_takes_a_transport_error() {
    let error: LoginError<MemoryStorage> = LoginError::from(no_response());
    assert!(matches!(error, LoginError::Reqwest(_)));
}

#[test]
fn client_opens_on_the_stored_session() {
    let mut storage = MemoryStorage::new();
    let reply = Reply { status: 200, refused: None, error: Err(no_json()), payload: Ok(granted()) };
    Client::login(Ok(reply), &mut storage).unwrap();
    let client = Client::new("https://bsky.social".to_string(), storage).unwrap();
    assert_eq!(client.get_service(), "https://bsky.social");
    assert_eq!(client.access_token(), "access-1");
    assert_eq!(*client.session(), Session::from(granted()));
}

#[test]
fn client_does_not_open_without_a_session() {
    let opened = Client::new("https://bsky.social".to_string(), MemoryStorage::new());
    assert!(opened.is_err());
    let opened = Client::new("https://bsky.social".to_string(), Watched::new(false));
    assert!(matches!(opened, Err(Full)));
}

#[test]
fn client_opened_follows_the_storage() {
    let storage = Watched::new(false);
    let opened =
        Client::opened("https://bsky.social".to_string(), storage, Ok(Session::from(granted())));
    let client = opened.ok().unwrap();
    assert_eq!(client.access_token(), "access-1");
    assert_eq!(client.storage().loads, 0);
    let refused = Client::opened("https://bsky.social".to_string(), Watched::new(false), Err(Full));
    assert!(matches!(refused, Err(Full)));
}

#[test]
fn client_takes_a_session_from_elsewhere() {
    let client = Client::with_session(
        "https://bsky.social".to_string(),
        MemoryStorage::new(),
        Session::from(granted()),
    );
    assert_eq!(client.get_service(), "https://bsky.social");
    assert_eq!(client.session().handle, "alice.example");
    assert_eq!(client.access_token(), "access-1");
}
