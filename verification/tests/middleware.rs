use surf_vcr::stream::split_documents;
use surf_vcr::{
    Action, Body, CassetteStore, Interaction, Method, RecorderRegistry, Request, Response, Tagged,
    VcrError, VcrMiddleware, VcrMode, VcrRequest, VcrResponse,
};

fn get_items() -> Request {
    Request {
        method: Method::Get,
        url: "https://api.example.com/items".to_string(),
        headers: vec![("accept".to_string(), vec!["application/json".to_string()])],
        body: Vec::new(),
    }
}

fn ok_true() -> Response {
    Response {
        status: 200,
        version: None,
        headers: vec![("content-type".to_string(), vec!["application/json".to_string()])],
        body: b"{\"ok\":true}".to_vec(),
    }
}

fn recorded_documents() -> Vec<(Tagged, Tagged)> {
    let exchange = Interaction {
        request: VcrRequest::from_request(&get_items()),
        response: VcrResponse::try_from_response(&ok_true()),
    };
    vec![exchange.into_tagged()]
}

#[test]
fn a_recorded_get_is_replayed_without_a_call() {
    let mut cassettes = CassetteStore::new();
    let mut recorders = RecorderRegistry::new();

    let recorder =
        VcrMiddleware::new(VcrMode::Record, "items.yml", &mut cassettes, &mut recorders, Vec::new())
            .unwrap();
    let request = VcrRequest::from_request(&get_items());
    assert!(matches!(recorder.handle(&cassettes, &request), Ok(Action::Forward)));
    let documents = recorded_documents();

    assert!(VcrMiddleware::must_load(VcrMode::Replay, "items.yml", &cassettes));
    let player =
        VcrMiddleware::new(VcrMode::Replay, "items.yml", &mut cassettes, &mut recorders, documents)
            .unwrap();
    let request = VcrRequest::from_request(&get_items());
    match player.handle(&cassettes, &request) {
        Ok(Action::Respond(found)) => {
            assert_eq!(found.status(), 200);
            assert_eq!(*found.body(), Body::Str("{\"ok\":true}".to_string()));
            let rebuilt = Response::from(found);
            assert_eq!(rebuilt, ok_true());
        },
        other => panic!("expected the recorded response, got {:?}", other),
    }
}

#[test]
fn a_request_that_was_not_recorded_is_an_error_when_replaying() {
    let mut cassettes = CassetteStore::new();
    let mut recorders = RecorderRegistry::new();
    let player = VcrMiddleware::new(
        VcrMode::Replay,
        "items.yml",
        &mut cassettes,
        &mut recorders,
        recorded_documents(),
    )
    .unwrap();
    let mut other = get_items();
    other.method = Method::Post;
    let asked = VcrRequest::from_request(&other);
    assert!(matches!(player.handle(&cassettes, &asked), Err(VcrError::NoMatch)));
    let mut other = get_items();
    other.headers.push(("x-extra".to_string(), vec!["1".to_string()]));
    let asked = VcrRequest::from_request(&other);
    assert!(matches!(player.handle(&cassettes, &asked), Err(VcrError::NoMatch)));
}

#[test]
fn replaying_against_a_store_without_the_cassette_is_a_miss() {
    let mut cassettes = CassetteStore::new();
    let mut recorders = RecorderRegistry::new();
    let player = VcrMiddleware::new(
        VcrMode::Replay,
        "items.yml",
        &mut cassettes,
        &mut recorders,
        recorded_documents(),
    )
    .unwrap();
    let elsewhere = CassetteStore::new();
    let asked = VcrRequest::from_request(&get_items());
    assert!(matches!(player.handle(&elsewhere, &asked), Err(VcrError::NoMatch)));
}

#[test]
fn making_a_player_loads_the_cassette_once() {
    let mut cassettes = CassetteStore::new();
    let mut recorders = RecorderRegistry::new();
    assert!(VcrMiddleware::must_load(VcrMode::Replay, "items.yml", &cassettes));
    assert!(!VcrMiddleware::must_load(VcrMode::Record, "items.yml", &cassettes));
    let first = VcrMiddleware::new(
        VcrMode::Replay,
        "items.yml",
        &mut cassettes,
        &mut recorders,
        recorded_documents(),
    )
    .unwrap();
    assert!(!VcrMiddleware::must_load(VcrMode::Replay, "items.yml", &cassettes));
    assert!(VcrMiddleware::must_load(VcrMode::Replay, "other.yml", &cassettes));
    let second =
        VcrMiddleware::new(VcrMode::Replay, "items.yml", &mut cassettes, &mut recorders, Vec::new())
            .unwrap();
    assert_eq!(first, second);
    assert_eq!(first.clone(), first);
    assert_eq!(cassettes.cassette("items.yml").map(|c| c.len()), Some(1));
    assert_eq!(recorders.len(), 0);
    let asked = VcrRequest::from_request(&get_items());
    assert!(matches!(second.handle(&cassettes, &asked), Ok(Action::Respond(_))));
}

#[test]
fn a_malformed_cassette_makes_no_player() {
    let mut cassettes = CassetteStore::new();
    let mut recorders = RecorderRegistry::new();
    let request = VcrRequest::from_request(&get_items());
    let malformed = vec![(Tagged::Request(request.clone()), Tagged::Request(request))];
    let made =
        VcrMiddleware::new(VcrMode::Replay, "bad.yml", &mut cassettes, &mut recorders, malformed);
    assert!(matches!(made, Err(VcrError::Parse(_))));
    assert!(!cassettes.is_loaded("bad.yml"));
}

#[test]
fn making_a_recorder_registers_the_file() {
    let mut cassettes = CassetteStore::new();
    let mut recorders = RecorderRegistry::new();
    let a = VcrMiddleware::new(VcrMode::Record, "a.yml", &mut cassettes, &mut recorders, Vec::new())
        .unwrap();
    let b = VcrMiddleware::new(VcrMode::Record, "b.yml", &mut cassettes, &mut recorders, Vec::new())
        .unwrap();
    let a_again =
        VcrMiddleware::new(VcrMode::Record, "a.yml", &mut cassettes, &mut recorders, Vec::new())
            .unwrap();
    assert_eq!(a.mode(), VcrMode::Record);
    assert_eq!(a.file(), "a.yml");
    assert_eq!(a, a_again);
    assert_ne!(a, b);
    assert_eq!(recorders.len(), 2);
    assert_eq!(recorders.slot("a.yml"), Some(0));
    assert_eq!(recorders.slot("b.yml"), Some(1));
    assert!(!cassettes.is_loaded("a.yml"));
}

#[test]
fn a_recording_is_appended_as_a_framed_document_under_the_lock_of_its_file() {
    let mut cassettes = CassetteStore::new();
    let mut recorders = RecorderRegistry::new();
    let a = VcrMiddleware::new(VcrMode::Record, "a.yml", &mut cassettes, &mut recorders, Vec::new())
        .unwrap();
    let b = VcrMiddleware::new(VcrMode::Record, "b.yml", &mut cassettes, &mut recorders, Vec::new())
        .unwrap();
    let append = b.record(&recorders, b"- Request: {}\n- Response: {}\n").unwrap();
    assert_eq!(append.slot, 1);
    assert_eq!(append.bytes, b"- Request: {}\n- Response: {}\n\n---\n".to_vec());
    let mut file: Vec<u8> = Vec::new();
    for doc in [&b"one"[..], &b"two"[..], &b"three"[..]] {
        let append = a.record(&recorders, doc).unwrap();
        assert_eq!(append.slot, 0);
        file.extend_from_slice(&append.bytes);
    }
    assert_eq!(split_documents(&file), vec![b"one".to_vec(), b"two".to_vec(), b"three".to_vec()]);
}

#[test]
fn nothing_is_appended_when_replaying_or_for_an_unregistered_file() {
    let mut cassettes = CassetteStore::new();
    let mut recorders = RecorderRegistry::new();
    let player =
        VcrMiddleware::new(VcrMode::Replay, "a.yml", &mut cassettes, &mut recorders, Vec::new())
            .unwrap();
    let recorder =
        VcrMiddleware::new(VcrMode::Record, "a.yml", &mut cassettes, &mut recorders, Vec::new())
            .unwrap();
    assert!(player.record(&recorders, b"doc").is_none());
    assert!(recorder.record(&recorders, b"doc").is_some());
    assert!(recorder.record(&RecorderRegistry::new(), b"doc").is_none());
}
