use http::{HeaderMap, Request};
use serde_json::Value;
use unpoly::{LayerMode, Unpoly};

fn json(text: &str) -> Value {
    serde_json::from_str(text).unwrap()
}

fn full_request() -> HeaderMap {
    let request = Request::builder()
        .method("GET")
        .uri("https://www.unpoly.com/")
        .header("X-Up-Version", "1.0.0")
        .header("X-Up-Context", "{\"lives\": 42}")
        .header("X-Up-Fail-Context", "{\"lives\": 2}")
        .header("X-Up-Target", "main")
        .header("X-Up-Fail-Target", "root")
        .header("X-Up-Mode", "root")
        .header("X-Up-Fail-Mode", "cover")
        .header("X-Up-Validate", "name")
        .body(())
        .unwrap();
    request.into_parts().0.headers
}

#[test]
fn test_no_unpoly_request() {
    let request = Request::builder()
        .method("GET")
        .uri("https://www.unpoly.com/")
        .header("X-Custom-Foo", "Bar")
        .body(())
        .unwrap();
    let parts = request.into_parts();

    let mut unpoly = Unpoly::from_header_map(&parts.0.headers);

    assert_eq!(unpoly.request().version, None);
    assert_eq!(unpoly.request().context, None);
    assert_eq!(unpoly.request().fail_context, None);
    assert_eq!(unpoly.request().fail_mode, LayerMode::ROOT);
    assert_eq!(unpoly.request().mode, LayerMode::ROOT);
    assert_eq!(unpoly.request().target, None);

    assert!(!unpoly.is_up());

    assert!(!unpoly.get_headers().unwrap().contains_key("Vary"));
}

#[test]
fn test_unpoly_default() {
    let request = Request::builder()
        .method("GET")
        .uri("https://www.unpoly.com/")
        .header("X-Up-Version", "1.0.0")
        .body(())
        .unwrap();
    let parts = request.into_parts();

    let mut unpoly = Unpoly::from_header_map(&parts.0.headers);

    assert_eq!(unpoly.request().version, Some("1.0.0".to_string()));
    assert_eq!(unpoly.request().context, None);
    assert_eq!(unpoly.request().fail_context, None);
    assert_eq!(unpoly.request().fail_mode, LayerMode::ROOT);
    assert_eq!(unpoly.request().mode, LayerMode::ROOT);
    assert_eq!(unpoly.request().target, None);

    unpoly.is_up();
    unpoly.set_success(true);
    unpoly.mode();

    assert_eq!(
        unpoly.get_headers().unwrap()["Vary"],
        "X-Up-Mode,X-Up-Target,X-Up-Version".to_string()
    );

    let mut unpoly = Unpoly::from_header_map(&parts.0.headers);
    unpoly.is_up();
    unpoly.set_success(false);
    unpoly.mode();

    assert_eq!(
        unpoly.get_headers().unwrap()["Vary"],
        "X-Up-Fail-Mode,X-Up-Fail-Target,X-Up-Version".to_string()
    );
}

#[test]
fn test_unpoly_success() {
    let headers = full_request();

    let mut unpoly = Unpoly::from_header_map(&headers);
    unpoly.set_success(true);

    unpoly.is_up();
    assert_eq!(unpoly.context(), Some(&json("{\"lives\": 42}")));
    assert_eq!(unpoly.target(), Some("main"));
    assert_eq!(*unpoly.mode(), LayerMode::ROOT);

    assert_eq!(
        unpoly.get_headers().unwrap()["Vary"],
        "X-Up-Context,X-Up-Mode,X-Up-Target,X-Up-Version".to_string()
    );
}

#[test]
fn test_unpoly_fail() {
    let headers = full_request();

    let mut unpoly = Unpoly::from_header_map(&headers);
    unpoly.set_success(false);

    unpoly.is_up();
    assert_eq!(unpoly.context(), Some(&json("{\"lives\": 2}")));
    assert_eq!(unpoly.target(), Some("root"));
    assert_eq!(*unpoly.mode(), LayerMode::COVER);

    assert_eq!(
        unpoly.get_headers().unwrap()["Vary"],
        "X-Up-Fail-Context,X-Up-Fail-Mode,X-Up-Fail-Target,X-Up-Version".to_string()
    );
}

#[test]
fn test_unpoly_set_responses() {
    let headers = full_request();

    let mut unpoly = Unpoly::from_header_map(&headers);

    unpoly.set_context(serde_json::to_value(json("{\"lives\": 43}"))).unwrap();

    unpoly.set_title("Hello");
    unpoly.set_location("https://unpoly.com/");
    unpoly.set_method("PUT");
    unpoly.set_target("main");
    unpoly.set_evict_cache("main".to_string());
    unpoly.set_expire_cache("main".to_string());

    assert_eq!(unpoly.get_headers().unwrap()["X-Up-Title"], "Hello");
    assert_eq!(
        unpoly.get_headers().unwrap()["X-Up-Location"],
        "https://unpoly.com/"
    );
    assert_eq!(unpoly.get_headers().unwrap()["X-Up-Method"], "PUT");
    assert_eq!(unpoly.get_headers().unwrap()["X-Up-Evict-Cache"], "main");
    assert_eq!(unpoly.get_headers().unwrap()["X-Up-Expire-Cache"], "main");
}
