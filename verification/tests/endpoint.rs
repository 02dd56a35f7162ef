use user_panel::endpoint::{Endpoint, MalformedEndpoint, DEFAULT_ENDPOINT};
use yew::format::Nothing;
use yew::services::fetch::Request;

fn builder_accepts(url: &str) -> bool {
    Request::get(url).body(Nothing).is_ok()
}

#[test]
fn default_endpoint_is_the_local_server() {
    assert_eq!(DEFAULT_ENDPOINT, "http://localhost:8000/");
    let endpoint = Endpoint::parse(DEFAULT_ENDPOINT.to_string()).unwrap();
    assert_eq!(endpoint.as_str(), "http://localhost:8000/");
}

#[test]
fn parse_keeps_a_well_formed_address() {
    for url in ["http://localhost:8000/", "https://example.org/users?page=2", "/users", "example.org"] {
        assert!(builder_accepts(url));
        let endpoint = Endpoint::parse(url.to_string()).unwrap();
        assert_eq!(endpoint.as_str(), url);
    }
}

#[test]
fn parse_refuses_a_malformed_address() {
    for url in ["", "http://exa mple.org/", "http://", "http://[::1/", "a b"] {
        assert!(!builder_accepts(url));
        assert_eq!(
            Endpoint::parse(url.to_string()),
            Err(MalformedEndpoint { url: url.to_string() })
        );
    }
}

#[test]
fn parse_agrees_with_the_request_builder() {
    let samples = [
        "http://localhost:8000/",
        "localhost:8000",
        "http://localhost:8000/users/1",
        "http:/localhost",
        "://",
        "\u{0}",
        "*",
        "http://user@host/",
        "http://host/\u{7f}",
        "ftp://files.example/",
        "?",
        "#",
    ];
    for url in samples {
        assert_eq!(Endpoint::parse(url.to_string()).is_ok(), builder_accepts(url), "{:?}", url);
    }
}

#[test]
fn with_verdict_follows_the_verdict() {
    assert_eq!(
        Endpoint::with_verdict("nowhere at all".to_string(), false),
        Err(MalformedEndpoint { url: "nowhere at all".to_string() })
    );
    assert_eq!(
        Endpoint::with_verdict("http://localhost:8000/".to_string(), false),
        Err(MalformedEndpoint { url: "http://localhost:8000/".to_string() })
    );
    let endpoint = Endpoint::with_verdict("http://localhost:8000/".to_string(), true).unwrap();
    assert_eq!(endpoint.as_str(), "http://localhost:8000/");
}

#[test]
fn clone_of_an_endpoint_holds_the_same_address() {
    let endpoint = Endpoint::parse("https://example.org/".to_string()).unwrap();
    let copy = endpoint.clone();
    assert_eq!(copy.as_str(), "https://example.org/");
    assert_eq!(copy, endpoint);
}
