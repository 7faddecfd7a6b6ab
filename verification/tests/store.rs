use surf_vcr::{
    Body, CassetteStore, Headers, Interaction, Method, RecorderRegistry, Request, Tagged, VcrError,
    VcrRequest, VcrResponse,
};

fn request(url: &str) -> VcrRequest {
    VcrRequest::from_request(&Request {
        method: Method::Get,
        url: url.to_string(),
        headers: Vec::new(),
        body: Vec::new(),
    })
}

fn response(status: u16, body: &str) -> VcrResponse {
    VcrResponse::new(status, None, Headers::new(), Body::Str(body.to_string()))
}

fn document(url: &str, status: u16, body: &str) -> (Tagged, Tagged) {
    Interaction { request: request(url), response: response(status, body) }.into_tagged()
}

#[test]
fn a_new_store_has_nothing_loaded() {
    let store = CassetteStore::new();
    assert!(!store.is_loaded("a.yml"));
    assert!(store.cassette("a.yml").is_none());
    assert_eq!(store.find("a.yml", &request("https://example.com/")), None);
}

#[test]
fn a_loaded_cassette_answers_for_its_path_only() {
    let mut store = CassetteStore::new();
    store.ensure_loaded("a.yml", vec![document("https://example.com/", 200, "a")]).unwrap();
    store.ensure_loaded("b.yml", vec![document("https://example.com/", 201, "b")]).unwrap();
    assert!(store.is_loaded("a.yml"));
    assert!(store.is_loaded("b.yml"));
    assert!(!store.is_loaded("A.yml"));
    assert_eq!(store.find("a.yml", &request("https://example.com/")), Some(&response(200, "a")));
    assert_eq!(store.find("b.yml", &request("https://example.com/")), Some(&response(201, "b")));
    assert_eq!(store.find("c.yml", &request("https://example.com/")), None);
    assert_eq!(store.find("a.yml", &request("https://example.com/x")), None);
}

#[test]
fn loading_a_path_again_keeps_what_was_loaded_first() {
    let mut store = CassetteStore::new();
    store.ensure_loaded("a.yml", vec![document("https://example.com/", 200, "first")]).unwrap();
    store
        .ensure_loaded(
            "a.yml",
            vec![
                document("https://example.com/", 500, "second"),
                document("https://example.com/more", 200, "more"),
            ],
        )
        .unwrap();
    assert_eq!(store.cassette("a.yml").map(|c| c.len()), Some(1));
    assert_eq!(
        store.find("a.yml", &request("https://example.com/")),
        Some(&response(200, "first"))
    );
    assert_eq!(store.find("a.yml", &request("https://example.com/more")), None);
}

#[test]
fn a_loaded_path_ignores_even_malformed_documents() {
    let mut store = CassetteStore::new();
    store.ensure_loaded("a.yml", Vec::new()).unwrap();
    let malformed = vec![(Tagged::Response(response(200, "a")), Tagged::Response(response(200, "b")))];
    assert!(store.ensure_loaded("a.yml", malformed).is_ok());
    assert_eq!(store.cassette("a.yml").map(|c| c.len()), Some(0));
}

#[test]
fn a_failed_load_loads_nothing() {
    let mut store = CassetteStore::new();
    let malformed = vec![
        document("https://example.com/", 200, "fine"),
        (Tagged::Request(request("https://example.com/")), Tagged::Request(request("https://example.com/"))),
    ];
    assert!(matches!(store.ensure_loaded("a.yml", malformed), Err(VcrError::Parse(_))));
    assert!(!store.is_loaded("a.yml"));
    store.ensure_loaded("a.yml", vec![document("https://example.com/", 200, "fine")]).unwrap();
    assert_eq!(store.find("a.yml", &request("https://example.com/")), Some(&response(200, "fine")));
}

#[test]
fn a_path_keeps_its_slot() {
    let mut registry = RecorderRegistry::new();
    assert_eq!(registry.len(), 0);
    assert_eq!(registry.slot("a.yml"), None);
    assert_eq!(registry.register("a.yml"), 0);
    assert_eq!(registry.register("b.yml"), 1);
    assert_eq!(registry.register("a.yml"), 0);
    assert_eq!(registry.register("c.yml"), 2);
    assert_eq!(registry.register("b.yml"), 1);
    assert_eq!(registry.len(), 3);
    assert_eq!(registry.slot("a.yml"), Some(0));
    assert_eq!(registry.slot("b.yml"), Some(1));
    assert_eq!(registry.slot("c.yml"), Some(2));
    assert_eq!(registry.slot("d.yml"), None);
}

#[test]
fn an_append_goes_to_the_slot_of_its_path_with_the_separator_after_it() {
    let mut registry = RecorderRegistry::new();
    registry.register("a.yml");
    registry.register("b.yml");
    let append = registry.append("b.yml", b"doc").unwrap();
    assert_eq!(append.slot, 1);
    assert_eq!(append.bytes, b"doc\n---\n".to_vec());
    let append = registry.append("a.yml", b"").unwrap();
    assert_eq!(append.slot, 0);
    assert_eq!(append.bytes, b"\n---\n".to_vec());
    assert!(registry.append("c.yml", b"doc").is_none());
}
