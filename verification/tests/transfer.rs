use paste_client::command::{dispatch, Operation, Plan};
use paste_client::endpoint::Endpoint;
use paste_client::error::AddressError;
use paste_client::resolver::{resolve, root_of, AddressFamily};
use paste_client::transfer::{
    accept_submission, delete, fetch_stream, fetch_text, probe, response_text, status_is_success,
    submit_stream, submit_text, Body, Method, Request, Response, Token,
};

fn endpoint() -> Endpoint {
    Endpoint::new("https://paste.example/api", None).unwrap()
}

fn text_of(body: &Body) -> Option<&str> {
    match body {
        Body::Text(text) => Some(text.as_str()),
        _ => None,
    }
}

fn is_empty(request: &Request) -> bool {
    matches!(request.body, Body::Empty)
}

#[test]
fn submit_text_posts_the_whole_text() {
    let endpoint = endpoint();
    let request = submit_text(endpoint.base(), String::from("hello\nworld"));
    assert_eq!(request.method, Method::Post);
    assert_eq!(request.url, "https://paste.example/api");
    assert_eq!(text_of(&request.body), Some("hello\nworld"));
}

#[test]
fn fetch_text_gets_the_address() {
    let address = resolve(&endpoint(), AddressFamily::Flat, "abc123").unwrap();
    let request = fetch_text(&address);
    assert_eq!(request.method, Method::Get);
    assert_eq!(request.url, "https://paste.example/api/abc123");
    assert!(is_empty(&request));
}

#[test]
fn delete_carries_the_confirmation_if_given() {
    let address = resolve(&endpoint(), AddressFamily::Flat, "abc123").unwrap();
    let plain = delete(&address, None);
    assert_eq!(plain.method, Method::Delete);
    assert_eq!(plain.url, "https://paste.example/api/abc123");
    assert!(is_empty(&plain));
    let confirmed = delete(&address, Some(String::from("yes")));
    assert_eq!(confirmed.method, Method::Delete);
    assert_eq!(text_of(&confirmed.body), Some("yes"));
}

#[test]
fn submit_stream_is_one_file_part() {
    let endpoint = endpoint();
    let root = root_of(endpoint.base(), AddressFamily::Versioned).unwrap();
    let request = submit_stream(&root, "a.png", "image/png");
    assert_eq!(request.method, Method::Post);
    assert_eq!(request.url, "https://paste.example/api/v2/");
    match request.body {
        Body::File { part, filename, media_type } => {
            assert_eq!(part, "file");
            assert_eq!(filename, "a.png");
            assert_eq!(media_type, "image/png");
        }
        other => panic!("not a file body: {:?}", other),
    }
}

#[test]
fn probe_and_fetch_stream_name_the_same_object() {
    let address = resolve(&endpoint(), AddressFamily::Versioned, "a.png").unwrap();
    let head = probe(&address);
    let get = fetch_stream(&address);
    assert_eq!(head.method, Method::Head);
    assert_eq!(get.method, Method::Get);
    assert_eq!(head.url, "https://paste.example/api/v2/a.png");
    assert_eq!(get.url, head.url);
    assert!(is_empty(&head) && is_empty(&get));
}

#[test]
fn success_is_the_two_hundreds() {
    assert!(!status_is_success(0));
    assert!(!status_is_success(199));
    assert!(status_is_success(200));
    assert!(status_is_success(201));
    assert!(status_is_success(204));
    assert!(status_is_success(299));
    assert!(!status_is_success(300));
    assert!(!status_is_success(404));
    assert!(!status_is_success(500));
    assert!(!status_is_success(u16::MAX));
}

#[test]
fn successful_submission_yields_the_body_as_token() {
    let token = accept_submission(Response { status: 200, body: String::from("abc123") }).unwrap();
    assert_eq!(token.as_str(), "abc123");
    let untrimmed = accept_submission(Response { status: 201, body: String::from(" t\n") });
    assert_eq!(untrimmed.unwrap().as_str(), " t\n");
    let empty = accept_submission(Response { status: 204, body: String::new() }).unwrap();
    assert_eq!(empty.as_str(), "");
}

#[test]
fn refused_submission_carries_status_and_body() {
    let error =
        accept_submission(Response { status: 500, body: String::from("out of space") }).unwrap_err();
    assert_eq!(error.status, 500);
    assert_eq!(error.body, "out of space");
    let moved = accept_submission(Response { status: 302, body: String::new() }).unwrap_err();
    assert_eq!(moved.status, 302);
    assert_eq!(moved.body, "");
}

#[test]
fn retrieval_hands_the_body_back_whatever_the_status() {
    for status in [200, 404, 500] {
        let text = response_text(Response { status, body: String::from("as it came\n") });
        assert_eq!(text, "as it came\n");
    }
    assert_eq!(response_text(Response { status: 404, body: String::new() }), "");
}

#[test]
fn token_is_its_text() {
    assert_eq!(Token::new(String::from("abc123")).as_str(), "abc123");
}

#[test]
fn dispatch_get_shows_the_flat_address() {
    match dispatch(&endpoint(), Operation::Get { token: String::from("abc123") }).unwrap() {
        Plan::Show { request } => {
            assert_eq!(request.method, Method::Get);
            assert_eq!(request.url, "https://paste.example/api/abc123");
            assert!(is_empty(&request));
        }
        other => panic!("unexpected plan: {:?}", other),
    }
}

#[test]
fn dispatch_send_submits_to_the_base() {
    match dispatch(&endpoint(), Operation::Send { message: String::from("hello") }).unwrap() {
        Plan::Submit { request } => {
            assert_eq!(request.method, Method::Post);
            assert_eq!(request.url, "https://paste.example/api");
            assert_eq!(text_of(&request.body), Some("hello"));
        }
        other => panic!("unexpected plan: {:?}", other),
    }
}

#[test]
fn dispatch_delete_shows_the_answer() {
    match dispatch(&endpoint(), Operation::Delete { token: String::from("abc123") }).unwrap() {
        Plan::Show { request } => {
            assert_eq!(request.method, Method::Delete);
            assert_eq!(request.url, "https://paste.example/api/abc123");
            assert!(is_empty(&request));
        }
        other => panic!("unexpected plan: {:?}", other),
    }
}

#[test]
fn dispatch_last_locates_the_token() {
    match dispatch(&endpoint(), Operation::Last { token: String::from("abc123") }).unwrap() {
        Plan::Locate { address } => {
            assert_eq!(address.as_str(), "https://paste.example/api/abc123");
        }
        other => panic!("unexpected plan: {:?}", other),
    }
}

#[test]
fn dispatch_file_get_probes_then_fetches() {
    match dispatch(&endpoint(), Operation::FileGet { filename: String::from("a.png") }).unwrap() {
        Plan::Download { probe, fetch, destination } => {
            assert_eq!(probe.method, Method::Head);
            assert_eq!(probe.url, "https://paste.example/api/v2/a.png");
            assert_eq!(fetch.method, Method::Get);
            assert_eq!(fetch.url, "https://paste.example/api/v2/a.png");
            assert_eq!(destination, "a.png");
        }
        other => panic!("unexpected plan: {:?}", other),
    }
}

#[test]
fn dispatch_file_send_uploads_with_the_inferred_type() {
    match dispatch(&endpoint(), Operation::FileSend { filename: String::from("a.png") }).unwrap() {
        Plan::Upload { request } => {
            assert_eq!(request.method, Method::Post);
            assert_eq!(request.url, "https://paste.example/api/v2/");
            match request.body {
                Body::File { part, filename, media_type } => {
                    assert_eq!(part, "file");
                    assert_eq!(filename, "a.png");
                    assert_eq!(media_type, "image/png");
                }
                other => panic!("not a file body: {:?}", other),
            }
        }
        other => panic!("unexpected plan: {:?}", other),
    }
    match dispatch(&endpoint(), Operation::FileSend { filename: String::from("blob") }).unwrap() {
        Plan::Upload { request } => match request.body {
            Body::File { media_type, .. } => assert_eq!(media_type, "application/octet-stream"),
            other => panic!("not a file body: {:?}", other),
        },
        other => panic!("unexpected plan: {:?}", other),
    }
}

#[test]
fn dispatch_file_delete_uses_the_versioned_address() {
    match dispatch(&endpoint(), Operation::FileDelete { filename: String::from("a.png") }).unwrap()
    {
        Plan::Show { request } => {
            assert_eq!(request.method, Method::Delete);
            assert_eq!(request.url, "https://paste.example/api/v2/a.png");
        }
        other => panic!("unexpected plan: {:?}", other),
    }
}

#[test]
fn dispatch_hands_address_errors_on() {
    let endpoint = endpoint();
    let empty = dispatch(&endpoint, Operation::Get { token: String::new() });
    assert_eq!(empty.unwrap_err(), AddressError::EmptyKey);
    let foreign = dispatch(&endpoint, Operation::Delete { token: String::from("//evil.example/") });
    assert_eq!(foreign.unwrap_err(), AddressError::ForeignAuthority);
    let nameless = dispatch(&endpoint, Operation::FileGet { filename: String::new() });
    assert_eq!(nameless.unwrap_err(), AddressError::EmptyKey);
    let last = dispatch(&endpoint, Operation::Last { token: String::new() });
    assert_eq!(last.unwrap_err(), AddressError::EmptyKey);

    let mail = Endpoint::new("mailto:someone@paste.example", None).unwrap();
    let upload = dispatch(&mail, Operation::FileSend { filename: String::from("a.png") });
    assert_eq!(upload.unwrap_err(), AddressError::InvalidBase);
    let send = dispatch(&mail, Operation::Send { message: String::from("hello") });
    assert!(send.is_ok());
}

#[test]
fn dispatch_on_a_base_path_with_an_empty_first_segment() {
    let endpoint = Endpoint::new("https://paste.example//api", None).unwrap();
    match dispatch(&endpoint, Operation::FileSend { filename: String::from("a.png") }).unwrap() {
        Plan::Upload { request } => {
            assert_eq!(request.method, Method::Post);
            assert_eq!(request.url, "https://paste.example//api/v2/");
        }
        other => panic!("unexpected plan: {:?}", other),
    }
    match dispatch(&endpoint, Operation::Last { token: String::from("abc") }).unwrap() {
        Plan::Locate { address } => {
            assert_eq!(address.as_str(), "https://paste.example//api/abc");
            assert_eq!(address.authority(), endpoint.base().authority());
        }
        other => panic!("unexpected plan: {:?}", other),
    }
    match dispatch(&endpoint, Operation::FileGet { filename: String::from("a.png") }).unwrap() {
        Plan::Download { probe, fetch, .. } => {
            assert_eq!(probe.url, "https://paste.example//api/v2/a.png");
            assert_eq!(fetch.url, "https://paste.example//api/v2/a.png");
        }
        other => panic!("unexpected plan: {:?}", other),
    }
    match dispatch(&endpoint, Operation::Get { token: String::from("abc") }).unwrap() {
        Plan::Show { request } => assert_eq!(request.url, "https://paste.example//api/abc"),
        other => panic!("unexpected plan: {:?}", other),
    }
}

#[test]
fn upload_goes_to_the_base_authority_for_every_base_tried() {
    let bases = [
        "https://paste.example",
        "https://paste.example/",
        "https://paste.example/api",
        "https://paste.example/api/",
        "https://paste.example//",
        "https://paste.example//api",
        "https://paste.example//evil.example/",
        "https://paste.example/api?x=//evil.example/",
    ];
    for base in bases {
        let endpoint = Endpoint::new(base, None).unwrap();
        let root = root_of(endpoint.base(), AddressFamily::Versioned).unwrap();
        assert_eq!(root.authority(), "paste.example");
        assert!(root.as_str().starts_with("https://paste.example/"));
        assert!(root.as_str().ends_with("/v2/"));
        match dispatch(&endpoint, Operation::FileSend { filename: String::from("f") }).unwrap() {
            Plan::Upload { request } => assert_eq!(request.url, root.as_str()),
            other => panic!("unexpected plan: {:?}", other),
        }
    }
}
