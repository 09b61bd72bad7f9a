use http::{HeaderMap, HeaderValue};
use serde_json::Value;
use std::collections::BTreeMap;
use unpoly::{LayerMode, MatchingLayer, RequestHeaders, RequestState, Unpoly, UnpolyError};

fn value(text: &str) -> Value {
    serde_json::from_str(text).unwrap()
}

fn some(text: &str) -> Option<String> {
    Some(text.to_string())
}

fn raw() -> RequestHeaders {
    RequestHeaders {
        version: some("1.0.0"),
        context: some("{\"lives\": 42}"),
        fail_context: some("{\"lives\": 2}"),
        mode: some("root"),
        fail_mode: some("cover"),
        target: some("main"),
        fail_target: some("root"),
        validate: some("name"),
    }
}

fn model(raw: RequestHeaders) -> Unpoly {
    Unpoly::new(RequestState::parse(raw))
}

fn unencodable() -> Result<Value, serde_json::Error> {
    let mut map = BTreeMap::new();
    map.insert((1, 2), 3);
    serde_json::to_value(map)
}

fn header(unpoly: &Unpoly, name: &str) -> Option<String> {
    unpoly
        .get_headers()
        .unwrap()
        .get(name)
        .map(|v| v.to_str().unwrap().to_string())
}

#[test]
fn no_headers_at_all() {
    let mut unpoly = Unpoly::default();
    assert!(!unpoly.is_up());
    let headers = unpoly.get_headers().unwrap();
    assert!(!headers.contains_key("Vary"));
    assert!(headers.is_empty());
    assert!(unpoly.render().unwrap().is_empty());
}

#[test]
fn without_version_guarded_reads_note_nothing() {
    let mut headers = raw();
    headers.version = None;
    let mut unpoly = model(headers);
    assert!(!unpoly.is_up());
    assert_eq!(unpoly.context(), Some(&value("{\"lives\": 42}")));
    assert_eq!(unpoly.validate(), &vec!["name".to_string()]);
    assert_eq!(header(&unpoly, "Vary"), None);
}

#[test]
fn without_version_target_and_mode_are_still_noted() {
    let mut headers = raw();
    headers.version = None;
    let mut unpoly = model(headers);
    unpoly.target();
    unpoly.mode();
    assert_eq!(header(&unpoly, "Vary"), some("X-Up-Mode,X-Up-Target"));
}

#[test]
fn vary_does_not_depend_on_the_order_of_reads() {
    let mut first = model(raw());
    first.context();
    first.target();
    first.mode();
    first.validate();
    let mut second = model(raw());
    second.validate();
    second.mode();
    second.mode();
    second.target();
    second.context();
    second.is_up();
    let expected = some("X-Up-Context,X-Up-Mode,X-Up-Target,X-Up-Validate,X-Up-Version");
    assert_eq!(header(&first, "Vary"), expected);
    assert_eq!(header(&second, "Vary"), expected);
}

#[test]
fn vary_lists_all_eight_headers_sorted() {
    let mut unpoly = model(raw());
    unpoly.set_success(false);
    unpoly.context();
    unpoly.mode();
    unpoly.set_success(true);
    unpoly.context();
    unpoly.mode();
    unpoly.validate();
    assert_eq!(
        header(&unpoly, "Vary"),
        some(
            "X-Up-Context,X-Up-Fail-Context,X-Up-Fail-Mode,X-Up-Fail-Target,X-Up-Mode,X-Up-Target,X-Up-Validate,X-Up-Version"
        )
    );
}

#[test]
fn is_up_notes_the_version() {
    let mut unpoly = model(raw());
    assert!(unpoly.is_up());
    assert_eq!(header(&unpoly, "Vary"), some("X-Up-Version"));
}

#[test]
fn target_follows_success() {
    let mut unpoly = model(raw());
    unpoly.set_success(true);
    assert_eq!(unpoly.target(), Some("main"));
    assert_eq!(unpoly.success(), Some(true));

    let mut unpoly = model(raw());
    unpoly.set_success(false);
    assert_eq!(unpoly.target(), Some("root"));
    assert_eq!(unpoly.success(), Some(false));
}

#[test]
fn success_can_be_decided_again() {
    let mut unpoly = model(raw());
    assert_eq!(unpoly.success(), None);
    unpoly.set_success(true);
    unpoly.set_success(false);
    assert_eq!(unpoly.target(), Some("root"));
    assert_eq!(*unpoly.mode(), LayerMode::COVER);
    unpoly.set_success(true);
    assert_eq!(unpoly.target(), Some("main"));
    assert_eq!(*unpoly.mode(), LayerMode::ROOT);
    assert_eq!(
        header(&unpoly, "Vary"),
        some("X-Up-Fail-Mode,X-Up-Fail-Target,X-Up-Mode,X-Up-Target")
    );
}

#[test]
fn target_without_decision_reads_the_request() {
    let mut unpoly = model(raw());
    assert_eq!(unpoly.target(), Some("main"));
    assert_eq!(header(&unpoly, "Vary"), some("X-Up-Target"));
    assert_eq!(header(&unpoly, "X-Up-Target"), None);
}

#[test]
fn set_success_with_absent_target_leaves_no_target() {
    let mut headers = raw();
    headers.target = None;
    let mut unpoly = model(headers);
    unpoly.set_success(true);
    assert_eq!(unpoly.target(), None);
    assert_eq!(header(&unpoly, "X-Up-Target"), None);
    assert_eq!(header(&unpoly, "Vary"), some("X-Up-Target"));
}

#[test]
fn set_target_overrides_and_notes_nothing() {
    let mut unpoly = model(raw());
    unpoly.set_target(".content");
    assert_eq!(unpoly.target(), Some(".content"));
    assert_eq!(header(&unpoly, "X-Up-Target"), some(".content"));
    assert_eq!(header(&unpoly, "Vary"), None);
}

#[test]
fn set_context_wins_whatever_the_success() {
    let wanted = value("{\"lives\": 43}");
    for success in [None, Some(true), Some(false)] {
        let mut unpoly = model(raw());
        if let Some(success) = success {
            unpoly.set_success(success);
        }
        unpoly.set_context(Ok(wanted.clone())).unwrap();
        assert_eq!(unpoly.context(), Some(&wanted));
        assert_eq!(header(&unpoly, "X-Up-Context"), some("{\"lives\":43}"));
        let vary = header(&unpoly, "Vary").unwrap_or_default();
        assert!(!vary.contains("Context"));
    }
}

#[test]
fn context_follows_success() {
    let mut unpoly = model(raw());
    assert_eq!(unpoly.context(), Some(&value("{\"lives\": 42}")));
    unpoly.set_success(false);
    assert_eq!(unpoly.context(), Some(&value("{\"lives\": 2}")));
    assert_eq!(header(&unpoly, "X-Up-Context"), some("{\"lives\":2}"));
    unpoly.set_success(true);
    assert_eq!(header(&unpoly, "X-Up-Context"), some("{\"lives\":42}"));
}

#[test]
fn absent_context_notes_nothing() {
    let mut headers = raw();
    headers.context = None;
    let mut unpoly = model(headers);
    assert_eq!(unpoly.context(), None);
    assert_eq!(header(&unpoly, "Vary"), None);
    assert_eq!(header(&unpoly, "X-Up-Context"), None);
}

#[test]
fn malformed_context_is_null() {
    let mut headers = raw();
    headers.context = some("{lives: ");
    headers.fail_context = some("");
    let state = RequestState::parse(headers);
    assert_eq!(state.context, Some(Value::Null));
    assert_eq!(state.fail_context, Some(Value::Null));
}

#[test]
fn set_context_reports_a_failed_encoding() {
    let mut unpoly = model(raw());
    let result = unpoly.set_context(unencodable());
    assert!(matches!(result, Err(UnpolyError::InvalidJson(_))));
    assert_eq!(header(&unpoly, "X-Up-Context"), some("{\"lives\":42}"));
}

#[test]
fn accept_after_dismiss_leaves_only_accept() {
    let mut unpoly = model(raw());
    unpoly.dismiss_layer(Ok(value("\"no\""))).unwrap();
    unpoly.accept_layer(Ok(value("{\"id\": 7}"))).unwrap();
    assert_eq!(header(&unpoly, "X-Up-Accept-Layer"), some("{\"id\":7}"));
    assert_eq!(header(&unpoly, "X-Up-Dismiss-Layer"), None);
}

#[test]
fn dismiss_after_accept_leaves_only_dismiss() {
    let mut unpoly = model(raw());
    unpoly.accept_layer(Ok(value("{\"id\": 7}"))).unwrap();
    unpoly.dismiss_layer(Ok(value("\"no\""))).unwrap();
    assert_eq!(header(&unpoly, "X-Up-Dismiss-Layer"), some("\"no\""));
    assert_eq!(header(&unpoly, "X-Up-Accept-Layer"), None);
}

#[test]
fn layer_answers_without_value() {
    let mut unpoly = model(raw());
    unpoly.accept_layer_without_value().unwrap();
    assert_eq!(header(&unpoly, "X-Up-Accept-Layer"), some("null"));
    assert_eq!(header(&unpoly, "X-Up-Dismiss-Layer"), None);
    unpoly.dismiss_layer_without_value().unwrap();
    assert_eq!(header(&unpoly, "X-Up-Dismiss-Layer"), some("null"));
    assert_eq!(header(&unpoly, "X-Up-Accept-Layer"), None);
}

#[test]
fn accept_without_value_after_dismissal_stores_null() {
    let mut unpoly = Unpoly::default();
    unpoly.dismiss_layer(serde_json::to_value(1)).unwrap();
    assert!(unpoly.accept_layer_without_value().is_ok());
    let lines = unpoly.render().unwrap();
    assert_eq!(lines.len(), 1);
    assert_eq!(lines[0].name, "X-Up-Accept-Layer");
    assert_eq!(lines[0].value, "null");
    assert_eq!(lines[0].value.len(), 4);
}

#[test]
fn white_space_is_the_unicode_property() {
    let spaces = [
        0x9, 0xa, 0xb, 0xc, 0xd, 0x20, 0x85, 0xa0, 0x1680, 0x2000, 0x2001, 0x2002, 0x2003,
        0x2004, 0x2005, 0x2006, 0x2007, 0x2008, 0x2009, 0x200a, 0x2028, 0x2029, 0x202f, 0x205f,
        0x3000,
    ];
    let mut found = 0;
    for code in 0..=0x10ffff_u32 {
        let Some(c) = char::from_u32(code) else {
            continue;
        };
        let words = unpoly::text::split_words(&format!("a{c}b"));
        if spaces.contains(&code) {
            assert_eq!(words, vec!["a".to_string(), "b".to_string()]);
            found += 1;
        } else {
            assert_eq!(words, vec![format!("a{c}b")]);
        }
    }
    assert_eq!(found, 25);
}

#[test]
fn rendering_does_not_fail_on_any_kind_of_value() {
    let mut unpoly = Unpoly::default();
    unpoly
        .set_context(Ok(value(
            "{\"n\":null,\"t\":true,\"i\":-7,\"u\":18446744073709551615,\"x\":2.5,\"s\":\"a\\\"b\",\"l\":[[],{}],\"\":{\"k\":[1,2]}}",
        )))
        .unwrap();
    assert_eq!(
        header(&unpoly, "X-Up-Context"),
        some(
            "{\"n\":null,\"t\":true,\"i\":-7,\"u\":18446744073709551615,\"x\":2.5,\"s\":\"a\\\"b\",\"l\":[[],{}],\"\":{\"k\":[1,2]}}"
        )
    );
}

#[test]
fn layer_answers_report_a_failed_encoding() {
    let mut unpoly = model(raw());
    unpoly.accept_layer(Ok(value("1"))).unwrap();
    assert!(matches!(
        unpoly.dismiss_layer(unencodable()),
        Err(UnpolyError::InvalidJson(_))
    ));
    assert!(matches!(
        unpoly.accept_layer(unencodable()),
        Err(UnpolyError::InvalidJson(_))
    ));
    assert_eq!(header(&unpoly, "X-Up-Accept-Layer"), some("1"));
    assert_eq!(header(&unpoly, "X-Up-Dismiss-Layer"), None);
}

#[test]
fn emit_event_demands_an_object() {
    let mut unpoly = model(raw());
    let result = unpoly.emit_event("t", serde_json::to_value(5));
    assert!(matches!(
        result,
        Err(UnpolyError::EventIsNotSerializableAsObject)
    ));
    assert!(matches!(
        unpoly.emit_event("t", Ok(value("[1]"))),
        Err(UnpolyError::EventIsNotSerializableAsObject)
    ));
    assert!(matches!(
        unpoly.emit_event_layer("t", Ok(Value::Null), MatchingLayer::CURRENT),
        Err(UnpolyError::EventIsNotSerializableAsObject)
    ));
    assert_eq!(header(&unpoly, "X-Up-Events"), None);
}

#[test]
fn emit_event_reports_a_failed_encoding() {
    let mut unpoly = model(raw());
    assert!(matches!(
        unpoly.emit_event("t", unencodable()),
        Err(UnpolyError::InvalidJson(_))
    ));
    assert!(matches!(
        unpoly.emit_event_layer("t", unencodable(), MatchingLayer::PARENT),
        Err(UnpolyError::InvalidJson(_))
    ));
    assert_eq!(header(&unpoly, "X-Up-Events"), None);
}

#[test]
fn emit_event_appends_the_type() {
    let mut unpoly = model(raw());
    unpoly.emit_event("t", Ok(value("{\"a\":1}"))).unwrap();
    assert_eq!(
        header(&unpoly, "X-Up-Events"),
        some("[{\"a\":1,\"type\":\"t\"}]")
    );
}

#[test]
fn events_keep_their_order_and_their_keys() {
    let mut unpoly = model(raw());
    unpoly
        .emit_event("user:created", Ok(value("{\"zebra\":1,\"apple\":2}")))
        .unwrap();
    unpoly.emit_event("second", Ok(value("{}"))).unwrap();
    unpoly
        .emit_event("third", Ok(value("{\"type\":\"old\",\"z\":null}")))
        .unwrap();
    assert_eq!(
        header(&unpoly, "X-Up-Events"),
        some(
            "[{\"zebra\":1,\"apple\":2,\"type\":\"user:created\"},{\"type\":\"second\"},{\"type\":\"third\",\"z\":null}]"
        )
    );
}

#[test]
fn emit_event_layer_adds_the_layer_first() {
    let mut unpoly = model(raw());
    unpoly
        .emit_event_layer("t", Ok(value("{\"id\":152}")), MatchingLayer::INDEX(3))
        .unwrap();
    unpoly
        .emit_event_layer("t", Ok(value("{\"id\":153}")), MatchingLayer::CURRENT)
        .unwrap();
    assert_eq!(
        header(&unpoly, "X-Up-Events"),
        some(
            "[{\"id\":152,\"layer\":3,\"type\":\"t\"},{\"id\":153,\"layer\":\"current\",\"type\":\"t\"}]"
        )
    );
}

#[test]
fn matching_layers_are_encoded_by_name_or_number() {
    let names = [
        (MatchingLayer::CURRENT, "current"),
        (MatchingLayer::PARENT, "parent"),
        (MatchingLayer::CLOSEST, "closest"),
        (MatchingLayer::OVERLAY, "overlay"),
        (MatchingLayer::ANCESTOR, "ancestor"),
        (MatchingLayer::CHILD, "child"),
        (MatchingLayer::DESCENDANT, "descendant"),
        (MatchingLayer::SUBTREE, "subtree"),
    ];
    for (layer, name) in names {
        assert_eq!(layer.to_value(), Value::String(name.to_string()));
    }
    assert_eq!(MatchingLayer::INDEX(0).to_value(), value("0"));
    assert_eq!(MatchingLayer::INDEX(4294967295).to_value(), value("4294967295"));
}

#[test]
fn layer_modes() {
    assert!(LayerMode::ROOT.is_root());
    assert!(!LayerMode::ROOT.is_overlay());
    for mode in [
        LayerMode::MODAL,
        LayerMode::DRAWER,
        LayerMode::POPUP,
        LayerMode::COVER,
    ] {
        assert!(!mode.is_root());
        assert!(mode.is_overlay());
    }
    assert_eq!(LayerMode::default(), LayerMode::ROOT);
}

#[test]
fn modes_are_matched_exactly() {
    assert_eq!(LayerMode::parse("root"), LayerMode::ROOT);
    assert_eq!(LayerMode::parse("modal"), LayerMode::MODAL);
    assert_eq!(LayerMode::parse("drawer"), LayerMode::DRAWER);
    assert_eq!(LayerMode::parse("popup"), LayerMode::POPUP);
    assert_eq!(LayerMode::parse("cover"), LayerMode::COVER);
    assert_eq!(LayerMode::parse("MODAL"), LayerMode::ROOT);
    assert_eq!(LayerMode::parse(" modal"), LayerMode::ROOT);
    assert_eq!(LayerMode::parse("modal "), LayerMode::ROOT);
    assert_eq!(LayerMode::parse("moda"), LayerMode::ROOT);
    assert_eq!(LayerMode::parse(""), LayerMode::ROOT);
    assert_eq!(LayerMode::parse("window"), LayerMode::ROOT);
}

#[test]
fn request_modes_default_to_root() {
    let mut headers = raw();
    headers.mode = some("drawer");
    headers.fail_mode = None;
    let state = RequestState::parse(headers);
    assert_eq!(state.mode, LayerMode::DRAWER);
    assert_eq!(state.fail_mode, LayerMode::ROOT);
}

#[test]
fn mode_follows_success() {
    let mut unpoly = model(raw());
    assert_eq!(*unpoly.mode(), LayerMode::ROOT);
    assert_eq!(header(&unpoly, "Vary"), some("X-Up-Mode"));
    unpoly.set_success(false);
    assert_eq!(*unpoly.mode(), LayerMode::COVER);
}

#[test]
fn validate_is_split_on_white_space() {
    let mut headers = raw();
    headers.validate = some("  name\temail \u{a0} \u{3000}age\n");
    let mut unpoly = model(headers);
    assert_eq!(
        unpoly.validate(),
        &vec!["name".to_string(), "email".to_string(), "age".to_string()]
    );
    assert_eq!(header(&unpoly, "Vary"), some("X-Up-Validate,X-Up-Version"));
}

#[test]
fn empty_validate_notes_nothing() {
    for text in [None, some(""), some(" \t ")] {
        let mut headers = raw();
        headers.validate = text;
        let mut unpoly = model(headers);
        assert!(unpoly.validate().is_empty());
        assert_eq!(header(&unpoly, "Vary"), None);
    }
}

#[test]
fn plain_getters_read_the_overrides() {
    let mut unpoly = model(raw());
    assert_eq!(unpoly.title(), None);
    assert_eq!(unpoly.location(), None);
    assert_eq!(unpoly.method(), None);
    unpoly.set_title("Hello");
    unpoly.set_location("/users");
    unpoly.set_method("PUT");
    assert_eq!(unpoly.title(), Some("Hello"));
    assert_eq!(unpoly.location(), Some("/users"));
    assert_eq!(unpoly.method(), Some("PUT"));
    assert_eq!(header(&unpoly, "Vary"), None);
}

#[test]
fn headers_are_rendered_in_order() {
    let mut unpoly = model(raw());
    unpoly.set_title("Hello");
    unpoly.set_location("/users");
    unpoly.accept_layer(Ok(value("{\"id\":1}"))).unwrap();
    unpoly.set_success(true);
    unpoly.set_method("GET");
    unpoly.set_evict_cache("/old/*".to_string());
    unpoly.set_expire_cache("/stale/*".to_string());
    unpoly.emit_event("t", Ok(value("{}"))).unwrap();
    let lines = unpoly.render().unwrap();
    let found: Vec<(&str, &str)> = lines
        .iter()
        .map(|line| (line.name, line.value.as_str()))
        .collect();
    assert_eq!(
        found,
        vec![
            ("X-Up-Title", "Hello"),
            ("X-Up-Location", "/users"),
            ("X-Up-Accept-Layer", "{\"id\":1}"),
            ("X-Up-Context", "{\"lives\":42}"),
            ("X-Up-Target", "main"),
            ("X-Up-Method", "GET"),
            ("X-Up-Evict-Cache", "/old/*"),
            ("X-Up-Expire-Cache", "/stale/*"),
            ("X-Up-Events", "[{\"type\":\"t\"}]"),
            ("Vary", "X-Up-Target"),
        ]
    );
    let headers = unpoly.get_headers().unwrap();
    assert_eq!(headers.len(), 10);
    for (name, text) in found {
        assert_eq!(headers[name], text);
    }
}

#[test]
fn dismissal_is_rendered_after_location() {
    let mut unpoly = Unpoly::default();
    unpoly.set_location("/users");
    unpoly.dismiss_layer(Ok(value("null"))).unwrap();
    let lines = unpoly.render().unwrap();
    let found: Vec<(&str, &str)> = lines
        .iter()
        .map(|line| (line.name, line.value.as_str()))
        .collect();
    assert_eq!(
        found,
        vec![("X-Up-Location", "/users"), ("X-Up-Dismiss-Layer", "null")]
    );
}

#[test]
fn header_map_is_read_without_regard_to_case() {
    let mut headers = HeaderMap::new();
    headers.insert("x-up-version", HeaderValue::from_static("3.7.0"));
    headers.insert("X-UP-TARGET", HeaderValue::from_static("main"));
    headers.insert("X-Up-Mode", HeaderValue::from_static("popup"));
    headers.insert("X-Up-Validate", HeaderValue::from_static("email password"));
    let raw = RequestHeaders::read(&headers);
    assert_eq!(raw.version, some("3.7.0"));
    assert_eq!(raw.target, some("main"));
    assert_eq!(raw.mode, some("popup"));
    assert_eq!(raw.context, None);
    let state = RequestState::from_header_map(&headers);
    assert_eq!(state.mode, LayerMode::POPUP);
    assert_eq!(
        state.validate,
        vec!["email".to_string(), "password".to_string()]
    );
}

#[test]
fn header_that_is_not_text_counts_as_absent() {
    let mut headers = HeaderMap::new();
    headers.insert("X-Up-Version", HeaderValue::from_bytes(b"1.0\xfa").unwrap());
    headers.insert("X-Up-Context", HeaderValue::from_bytes(b"{\"a\":\"\xc3\xa9\"}").unwrap());
    headers.insert("X-Up-Validate", HeaderValue::from_bytes(b"name \xfa").unwrap());
    headers.append("X-Up-Target", HeaderValue::from_static("first"));
    headers.append("X-Up-Target", HeaderValue::from_static("second"));
    let mut unpoly = Unpoly::from_header_map(&headers);
    assert!(!unpoly.is_up());
    assert_eq!(unpoly.request().context, None);
    assert!(unpoly.request().validate.is_empty());
    assert_eq!(unpoly.request().target, some("first"));
}

#[test]
fn values_unfit_for_a_header_are_found() {
    let mut unpoly = Unpoly::default();
    unpoly.set_title("caf\u{e9}\ttime");
    assert!(unpoly.try_get_headers().unwrap().is_ok());
    assert_eq!(
        unpoly.get_headers().unwrap()["X-Up-Title"].as_bytes(),
        "caf\u{e9}\ttime".as_bytes()
    );
    unpoly.set_title("two\nlines");
    assert!(unpoly.try_get_headers().is_none());
    unpoly.set_title("fine");
    unpoly.set_context(Ok(value("\"\\u007f\""))).unwrap();
    assert!(unpoly.try_get_headers().is_none());
    unpoly.set_context(Ok(value("\"\\n\""))).unwrap();
    let headers = unpoly.try_get_headers().unwrap().unwrap();
    assert_eq!(headers["X-Up-Context"], "\"\\n\"");
}

#[test]
fn header_map_keeps_the_last_value_of_a_name() {
    let mut unpoly = model(raw());
    unpoly.set_success(true);
    unpoly.set_target("first");
    unpoly.set_target("second");
    let headers = unpoly.get_headers().unwrap();
    assert_eq!(headers.get_all("X-Up-Target").iter().count(), 1);
    assert_eq!(headers["x-up-target"], "second");
}
