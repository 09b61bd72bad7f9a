//! The request side of the protocol: the raw `X-Up-*` request headers and
//! the snapshot parsed from them.
use vstd::prelude::*;
use vstd::string::*;
use crate::json::{decode, json_model, json_option, json_parse, null_value, Json};
use crate::layer::LayerMode;
use crate::names::{
    lemma_request_names_valid, CONTEXT, FAIL_CONTEXT, FAIL_MODE, FAIL_TARGET, MODE, TARGET,
    VALIDATE, VERSION,
};
use crate::text::{split_words, texts, words};
use crate::wire::{
    ascii_text, header_entries, header_text, is_header_name, is_visible_bytes, lookup_header,
    lowered,
};

verus! {

/// The view of an optional string.
pub open spec fn text_option(s: Option<String>) -> Option<Seq<char>> {
    match s {
        Some(s) => Some(s@),
        None => None,
    }
}

/// The view of an optional borrowed string.
pub open spec fn text_ref_option(s: Option<&str>) -> Option<Seq<char>> {
    match s {
        Some(s) => Some(s@),
        None => None,
    }
}

/// The raw values of the protocol's request headers; `None` for a header
/// that the request does not carry.
#[derive(Debug)]
pub struct RequestHeaders {
    pub version: Option<String>,
    pub context: Option<String>,
    pub fail_context: Option<String>,
    pub mode: Option<String>,
    pub fail_mode: Option<String>,
    pub target: Option<String>,
    pub fail_target: Option<String>,
    pub validate: Option<String>,
}

/// Model of [`RequestHeaders`].
pub struct RawRequest {
    pub version: Option<Seq<char>>,
    pub context: Option<Seq<char>>,
    pub fail_context: Option<Seq<char>>,
    pub mode: Option<Seq<char>>,
    pub fail_mode: Option<Seq<char>>,
    pub target: Option<Seq<char>>,
    pub fail_target: Option<Seq<char>>,
    pub validate: Option<Seq<char>>,
}

/// The text that a header map offers under a name: the first value stored
/// under it, if there is one and it is visible ASCII text.
pub open spec fn offered(entries: Map<Seq<char>, Seq<u8>>, name: Seq<char>) -> Option<Seq<char>> {
    if entries.contains_key(lowered(name)) && is_visible_bytes(entries[lowered(name)]) {
        Some(ascii_text(entries[lowered(name)]))
    } else {
        None
    }
}

impl RawRequest {
    /// The request headers that a header map offers.
    pub open spec fn of(entries: Map<Seq<char>, Seq<u8>>) -> RawRequest {
        RawRequest {
            version: offered(entries, VERSION@),
            context: offered(entries, CONTEXT@),
            fail_context: offered(entries, FAIL_CONTEXT@),
            mode: offered(entries, MODE@),
            fail_mode: offered(entries, FAIL_MODE@),
            target: offered(entries, TARGET@),
            fail_target: offered(entries, FAIL_TARGET@),
            validate: offered(entries, VALIDATE@),
        }
    }

    /// A request without any of the protocol's headers.
    pub open spec fn none() -> RawRequest {
        RawRequest {
            version: None,
            context: None,
            fail_context: None,
            mode: None,
            fail_mode: None,
            target: None,
            fail_target: None,
            validate: None,
        }
    }
}

impl View for RequestHeaders {
    type V = RawRequest;

    open spec fn view(&self) -> RawRequest {
        RawRequest {
            version: text_option(self.version),
            context: text_option(self.context),
            fail_context: text_option(self.fail_context),
            mode: text_option(self.mode),
            fail_mode: text_option(self.fail_mode),
            target: text_option(self.target),
            fail_target: text_option(self.fail_target),
            validate: text_option(self.validate),
        }
    }
}

/// Looks one header up in a header map.
fn read_header(headers: &http::HeaderMap, name: &'static str) -> (r: Option<String>)
    requires
        is_header_name(name@),
    ensures
        text_option(r) == offered(header_entries(*headers), name@),
{
    match lookup_header(headers, name) {
        Some(v) => header_text(v),
        None => None,
    }
}

impl Default for RequestHeaders {
    /// A request without any of the protocol's headers.
    fn default() -> (r: RequestHeaders)
        ensures
            r@ == RawRequest::none(),
    {
        RequestHeaders {
            version: None,
            context: None,
            fail_context: None,
            mode: None,
            fail_mode: None,
            target: None,
            fail_target: None,
            validate: None,
        }
    }
}

impl RequestHeaders {
    /// Reads the protocol's request headers off a header map. A header whose
    /// value is not visible ASCII text counts as absent.
    pub fn read(headers: &http::HeaderMap) -> (r: RequestHeaders)
        ensures
            r@ == RawRequest::of(header_entries(*headers)),
    {
        proof {
            lemma_request_names_valid();
        }
        RequestHeaders {
            version: read_header(headers, VERSION),
            context: read_header(headers, CONTEXT),
            fail_context: read_header(headers, FAIL_CONTEXT),
            mode: read_header(headers, MODE),
            fail_mode: read_header(headers, FAIL_MODE),
            target: read_header(headers, TARGET),
            fail_target: read_header(headers, FAIL_TARGET),
            validate: read_header(headers, VALIDATE),
        }
    }
}

/// What a request said, parsed once and never changed afterwards.
#[derive(Debug)]
pub struct RequestState {
    pub version: Option<String>,
    pub context: Option<serde_json::Value>,
    pub fail_context: Option<serde_json::Value>,
    pub mode: LayerMode,
    pub fail_mode: LayerMode,
    pub target: Option<String>,
    pub fail_target: Option<String>,
    pub validate: Vec<String>,
}

/// Model of [`RequestState`].
pub struct Request {
    pub version: Option<Seq<char>>,
    pub context: Option<Json>,
    pub fail_context: Option<Json>,
    pub mode: LayerMode,
    pub fail_mode: LayerMode,
    pub target: Option<Seq<char>>,
    pub fail_target: Option<Seq<char>>,
    pub validate: Seq<Seq<char>>,
}

/// The context that a raw header value carries: the JSON value it spells,
/// or the JSON null where it spells none.
pub open spec fn context_of(raw: Option<Seq<char>>) -> Option<Json> {
    match raw {
        Some(s) => Some(
            match json_parse(s) {
                Some(j) => j,
                None => Json::Null,
            },
        ),
        None => None,
    }
}

/// The field names that a raw header value lists: its words, or nothing
/// where the header is absent.
pub open spec fn fields_of(raw: Option<Seq<char>>) -> Seq<Seq<char>> {
    match raw {
        Some(s) => words(s),
        None => Seq::empty(),
    }
}

impl Request {
    /// What the raw headers of a request mean.
    pub open spec fn parsed(raw: RawRequest) -> Request {
        Request {
            version: raw.version,
            context: context_of(raw.context),
            fail_context: context_of(raw.fail_context),
            mode: LayerMode::named_or_root(raw.mode),
            fail_mode: LayerMode::named_or_root(raw.fail_mode),
            target: raw.target,
            fail_target: raw.fail_target,
            validate: fields_of(raw.validate),
        }
    }
}

impl View for RequestState {
    type V = Request;

    open spec fn view(&self) -> Request {
        Request {
            version: text_option(self.version),
            context: json_option(self.context),
            fail_context: json_option(self.fail_context),
            mode: self.mode,
            fail_mode: self.fail_mode,
            target: text_option(self.target),
            fail_target: text_option(self.fail_target),
            validate: texts(self.validate@),
        }
    }
}

/// Reads a context header. Text that is not JSON gives the JSON null.
fn parse_context(raw: &Option<String>) -> (r: Option<serde_json::Value>)
    ensures
        json_option(r) == context_of(text_option(*raw)),
{
    match raw {
        Some(s) => {
            match decode(s.as_str()) {
                Ok(v) => Some(v),
                Err(_) => Some(null_value()),
            }
        },
        None => None,
    }
}

/// Reads a mode header.
fn parse_mode(raw: &Option<String>) -> (m: LayerMode)
    ensures
        m == LayerMode::named_or_root(text_option(*raw)),
{
    match raw {
        Some(s) => LayerMode::parse(s.as_str()),
        None => LayerMode::ROOT,
    }
}

/// Reads a validate header.
fn parse_fields(raw: &Option<String>) -> (r: Vec<String>)
    ensures
        texts(r@) == fields_of(text_option(*raw)),
{
    match raw {
        Some(s) => split_words(s.as_str()),
        None => {
            let r: Vec<String> = Vec::new();
            assert(texts(r@) =~= Seq::<Seq<char>>::empty());
            r
        },
    }
}

impl RequestState {
    /// Parses the raw request headers.
    ///
    /// The version and the two targets are taken as they are. A context is
    /// read as JSON, and text that is not JSON gives the JSON null. A mode is
    /// one of the five lower-case mode names, and the root layer otherwise.
    /// The validate header is split into its words.
    pub fn parse(raw: RequestHeaders) -> (r: RequestState)
        ensures
            r@ == Request::parsed(raw@),
    {
        let context = parse_context(&raw.context);
        let fail_context = parse_context(&raw.fail_context);
        let mode = parse_mode(&raw.mode);
        let fail_mode = parse_mode(&raw.fail_mode);
        let validate = parse_fields(&raw.validate);
        RequestState {
            version: raw.version,
            context,
            fail_context,
            mode,
            fail_mode,
            target: raw.target,
            fail_target: raw.fail_target,
            validate,
        }
    }

    /// Reads and parses the request headers of a header map.
    pub fn from_header_map(headers: &http::HeaderMap) -> (r: RequestState)
        ensures
            r@ == Request::parsed(RawRequest::of(header_entries(*headers))),
    {
        RequestState::parse(RequestHeaders::read(headers))
    }
}

} // verus!
