use surf_vcr::{
    Body, Cassette, Headers, Interaction, Method, Request, Response, Tagged, VcrError, VcrRequest,
    VcrResponse,
};

fn request(url: &str) -> VcrRequest {
    VcrRequest::from_request(&Request {
        method: Method::Get,
        url: url.to_string(),
        headers: Vec::new(),
        body: Vec::new(),
    })
}

fn response(status: u16, body: &str) -> VcrResponse {
    VcrResponse::new(status, None, Headers::new(), Body::Str(body.to_string()))
}

fn exchange(url: &str, status: u16, body: &str) -> Interaction {
    Interaction { request: request(url), response: response(status, body) }
}

#[test]
fn an_empty_cassette_answers_nothing() {
    let cassette = Cassette::new();
    assert_eq!(cassette.len(), 0);
    assert_eq!(cassette.position(&request("https://example.com/")), None);
    assert_eq!(cassette.find(&request("https://example.com/")), None);
    assert!(cassette.get(0).is_none());
}

#[test]
fn the_first_of_several_equal_requests_answers() {
    let mut cassette = Cassette::new();
    cassette.push(exchange("https://example.com/other", 200, "other"));
    cassette.push(exchange("https://example.com/a", 200, "first"));
    cassette.push(exchange("https://example.com/a", 500, "second"));
    cassette.push(exchange("https://example.com/a", 404, "third"));
    assert_eq!(cassette.len(), 4);
    assert_eq!(cassette.position(&request("https://example.com/a")), Some(1));
    assert_eq!(cassette.find(&request("https://example.com/a")), Some(&response(200, "first")));
    assert_eq!(cassette.find(&request("https://example.com/a")), Some(&response(200, "first")));
    assert_eq!(cassette.position(&request("https://example.com/other")), Some(0));
}

#[test]
fn a_request_that_was_not_recorded_finds_nothing() {
    let mut cassette = Cassette::new();
    cassette.push(exchange("https://example.com/a", 200, "a"));
    assert_eq!(cassette.find(&request("https://example.com/A")), None);
    assert_eq!(cassette.find(&request("https://example.com/a/")), None);
    assert_eq!(cassette.position(&request("http://example.com/a")), None);
}

#[test]
fn exchanges_are_kept_in_recorded_order() {
    let mut cassette = Cassette::new();
    cassette.push(exchange("https://example.com/1", 201, "one"));
    cassette.push(exchange("https://example.com/2", 202, "two"));
    assert_eq!(cassette.get(0).map(|e| e.response.status()), Some(201));
    assert_eq!(cassette.get(1).map(|e| e.response.status()), Some(202));
    assert!(cassette.get(2).is_none());
}

#[test]
fn a_document_is_a_request_and_then_a_response() {
    let pair = exchange("https://example.com/a", 200, "a").into_tagged();
    assert!(matches!(pair.0, Tagged::Request(_)));
    assert!(matches!(pair.1, Tagged::Response(_)));
    let back = Interaction::from_tagged(pair.0, pair.1).unwrap();
    assert_eq!(back.request, request("https://example.com/a"));
    assert_eq!(back.response, response(200, "a"));
}

#[test]
fn records_in_the_wrong_places_are_a_parse_error() {
    let swapped = Interaction::from_tagged(
        Tagged::Response(response(200, "a")),
        Tagged::Request(request("https://example.com/a")),
    );
    assert!(matches!(swapped, Err(VcrError::Parse(_))));
    let two_requests = Interaction::from_tagged(
        Tagged::Request(request("https://example.com/a")),
        Tagged::Request(request("https://example.com/b")),
    );
    assert!(matches!(two_requests, Err(VcrError::Parse(_))));
    let two_responses = Interaction::from_tagged(
        Tagged::Response(response(200, "a")),
        Tagged::Response(response(200, "b")),
    );
    assert!(matches!(two_responses, Err(VcrError::Parse(_))));
}

#[test]
fn a_cassette_is_made_of_its_documents_in_order() {
    let docs = vec![
        exchange("https://example.com/1", 201, "one").into_tagged(),
        exchange("https://example.com/2", 202, "two").into_tagged(),
        exchange("https://example.com/1", 500, "later").into_tagged(),
    ];
    let cassette = Cassette::from_documents(docs).unwrap();
    assert_eq!(cassette.len(), 3);
    assert_eq!(cassette.find(&request("https://example.com/1")), Some(&response(201, "one")));
    assert_eq!(cassette.find(&request("https://example.com/2")), Some(&response(202, "two")));
    assert_eq!(Cassette::from_documents(Vec::new()).unwrap().len(), 0);
}

#[test]
fn one_malformed_document_fails_the_whole_cassette() {
    let docs = vec![
        exchange("https://example.com/1", 201, "one").into_tagged(),
        (Tagged::Response(response(200, "a")), Tagged::Response(response(200, "b"))),
        exchange("https://example.com/2", 202, "two").into_tagged(),
    ];
    assert!(matches!(Cassette::from_documents(docs), Err(VcrError::Parse(_))));
}
