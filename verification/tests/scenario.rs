use std::collections::HashMap;

use paste_client::command::{dispatch, Operation, Plan};
use paste_client::endpoint::Endpoint;
use paste_client::resolver::{resolve, AddressFamily};
use paste_client::transfer::{
    accept_submission, delete, fetch_text, response_text, submit_text, Body, Method, Request,
    Response,
};

/// A store held in memory. It mints the tokens it is given, in order, and
/// answers requests as the wire protocol of the flat namespace says.
struct StubStore {
    base: String,
    tokens: Vec<String>,
    texts: HashMap<String, String>,
}

impl StubStore {
    fn new(base: &str, tokens: &[&str]) -> StubStore {
        StubStore {
            base: base.to_string(),
            tokens: tokens.iter().rev().map(|token| token.to_string()).collect(),
            texts: HashMap::new(),
        }
    }

    fn answer(&mut self, request: &Request) -> Response {
        match (request.method, &request.body) {
            (Method::Post, Body::Text(text)) if request.url == self.base => {
                let token = self.tokens.pop().expect("a token to mint");
                self.texts.insert(format!("{}/{}", self.base, token), text.clone());
                Response { status: 200, body: token }
            }
            (Method::Get, Body::Empty) => match self.texts.get(&request.url) {
                Some(text) => Response { status: 200, body: text.clone() },
                None => Response { status: 404, body: String::new() },
            },
            (Method::Delete, _) => match self.texts.remove(&request.url) {
                Some(_) => Response { status: 200, body: String::from("deleted") },
                None => Response { status: 404, body: String::new() },
            },
            _ => Response { status: 405, body: String::from("method not allowed") },
        }
    }
}

fn round_trip(payload: &str) {
    let endpoint = Endpoint::new("https://paste.example/api", None).unwrap();
    let mut store = StubStore::new("https://paste.example/api", &["tok"]);
    let answer = store.answer(&submit_text(endpoint.base(), payload.to_string()));
    let token = accept_submission(answer).unwrap();
    let address = resolve(&endpoint, AddressFamily::Flat, token.as_str()).unwrap();
    let fetched = response_text(store.answer(&fetch_text(&address)));
    assert_eq!(fetched, payload);
}

#[test]
fn submitted_text_comes_back_unchanged() {
    round_trip("hello");
    round_trip("");
    round_trip("two\nlines\n");
    round_trip("  spaces kept  ");
    round_trip("na\u{ef}ve \u{2603} text");
}

#[test]
fn paste_scenario_end_to_end() {
    let endpoint = Endpoint::new("https://paste.example/api", None).unwrap();
    let mut store = StubStore::new("https://paste.example/api", &["abc123"]);

    let submitted = store.answer(&submit_text(endpoint.base(), String::from("hello")));
    let token = accept_submission(submitted).unwrap();
    assert_eq!(token.as_str(), "abc123");

    let address = resolve(&endpoint, AddressFamily::Flat, token.as_str()).unwrap();
    assert_eq!(address.as_str(), "https://paste.example/api/abc123");
    assert_eq!(response_text(store.answer(&fetch_text(&address))), "hello");

    let confirmation = response_text(store.answer(&delete(&address, None)));
    assert_eq!(confirmation, "deleted");

    let gone = store.answer(&fetch_text(&address));
    assert_eq!(gone.status, 404);
    assert_eq!(response_text(gone), "");
}

#[test]
fn paste_scenario_through_dispatch() {
    let endpoint = Endpoint::new("https://paste.example/api", None).unwrap();
    let mut store = StubStore::new("https://paste.example/api", &["abc123"]);

    let token = match dispatch(&endpoint, Operation::Send { message: String::from("hello") }) {
        Ok(Plan::Submit { request }) => accept_submission(store.answer(&request)).unwrap(),
        other => panic!("unexpected plan: {:?}", other),
    };
    let history = token.as_str().to_string();

    match dispatch(&endpoint, Operation::Last { token: history.clone() }) {
        Ok(Plan::Locate { address }) => {
            assert_eq!(address.as_str(), "https://paste.example/api/abc123")
        }
        other => panic!("unexpected plan: {:?}", other),
    }
    match dispatch(&endpoint, Operation::Get { token: history.clone() }) {
        Ok(Plan::Show { request }) => {
            assert_eq!(response_text(store.answer(&request)), "hello")
        }
        other => panic!("unexpected plan: {:?}", other),
    }
    match dispatch(&endpoint, Operation::Delete { token: history.clone() }) {
        Ok(Plan::Show { request }) => {
            assert_eq!(response_text(store.answer(&request)), "deleted")
        }
        other => panic!("unexpected plan: {:?}", other),
    }
    match dispatch(&endpoint, Operation::Get { token: history }) {
        Ok(Plan::Show { request }) => assert_eq!(response_text(store.answer(&request)), ""),
        other => panic!("unexpected plan: {:?}", other),
    }
}

#[test]
fn refused_submission_mints_no_token() {
    let endpoint = Endpoint::new("https://paste.example/api", None).unwrap();
    let mut store = StubStore::new("https://paste.example/elsewhere", &["abc123"]);
    let answer = store.answer(&submit_text(endpoint.base(), String::from("hello")));
    let error = accept_submission(answer).unwrap_err();
    assert_eq!(error.status, 405);
    assert_eq!(error.body, "method not allowed");
}
