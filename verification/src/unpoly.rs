//! The negotiation object: one per request, read and changed by the handler,
//! and finally turned into the response headers.
use vstd::prelude::*;
use vstd::string::*;
use crate::error::UnpolyError;
use crate::json::{
    array_value, encode, insert_entry, is_object, json_model, json_models, json_option,
    json_ref_option, null_value, string_value, Json,
};
use crate::layer::{LayerMode, MatchingLayer};
use crate::model::{
    filed, lemma_filed_step, plain, spelled, LayerAnswer, Line, Negotiation,
};
use crate::names::{
    lemma_response_names_valid, RequestHeader, ACCEPT_LAYER, CONTEXT, DISMISS_LAYER, EVENTS,
    EVICT_CACHE, EXPIRE_CACHE, LOCATION, METHOD, TARGET, TITLE, VARY,
};
use crate::request::{text_option, text_ref_option, Request, RequestHeaders, RequestState};
use crate::text::texts;
use crate::vary::VaryTracker;
use crate::wire::{
    header_count, header_entries, header_value, insert_header, is_header_name, is_value_text,
    is_wire_text, new_header_map,
};

verus! {

/// What the response says of the overlay.
#[derive(Debug)]
pub enum LayerSlot {
    /// Nothing.
    Unset,
    /// The overlay is accepted with this value.
    Accept(serde_json::Value),
    /// The overlay is dismissed with this value.
    Dismiss(serde_json::Value),
}

impl View for LayerSlot {
    type V = LayerAnswer;

    open spec fn view(&self) -> LayerAnswer {
        match *self {
            LayerSlot::Unset => LayerAnswer::Unset,
            LayerSlot::Accept(v) => LayerAnswer::Accept(json_model(v)),
            LayerSlot::Dismiss(v) => LayerAnswer::Dismiss(json_model(v)),
        }
    }
}

/// One header of the response: its wire name and its value.
#[derive(Debug)]
pub struct HeaderLine {
    pub name: &'static str,
    pub value: String,
}

impl View for HeaderLine {
    type V = Line;

    open spec fn view(&self) -> Line {
        Line { name: self.name@, value: self.value@ }
    }
}

/// The models of a list of header lines, in order.
pub open spec fn lines_of(lines: Seq<HeaderLine>) -> Seq<Line> {
    Seq::new(lines.len(), |i: int| lines[i]@)
}

/// Whether each line carries a name that a header map accepts.
pub open spec fn well_named(lines: Seq<HeaderLine>) -> bool {
    forall|i: int| 0 <= i < lines.len() ==> is_header_name((#[trigger] lines[i]).name@)
}

/// A copy of an optional string.
fn copy_text(s: &Option<String>) -> (r: Option<String>)
    ensures
        text_option(r) == text_option(*s),
{
    match s {
        Some(s) => Some(s.clone()),
        None => None,
    }
}

/// An optional string, borrowed.
fn borrow_text(s: &Option<String>) -> (r: Option<&str>)
    ensures
        text_ref_option(r) == text_option(*s),
{
    match s {
        Some(s) => Some(s.as_str()),
        None => None,
    }
}

/// Appends the line of a plain header, if the value is present.
fn put_plain(out: &mut Vec<HeaderLine>, name: &'static str, value: &Option<String>)
    requires
        is_header_name(name@),
        well_named(old(out)@),
    ensures
        lines_of(final(out)@) == lines_of(old(out)@) + plain(name@, text_option(*value)),
        final(out)@.len() <= old(out)@.len() + 1,
        well_named(final(out)@),
{
    match value {
        Some(s) => {
            out.push(HeaderLine { name, value: s.clone() });
            assert(lines_of(out@) =~= lines_of(old(out)@) + plain(name@, text_option(*value)));
        },
        None => {
            assert(lines_of(out@) =~= lines_of(old(out)@) + plain(name@, text_option(*value)));
        },
    }
}

/// Appends the line of a JSON header, if the value is present. The value is
/// written out as JSON text, which does not fail; an error of the encoder
/// would be handed on.
fn put_json(out: &mut Vec<HeaderLine>, name: &'static str, value: Option<&serde_json::Value>) -> (r:
    Result<(), UnpolyError>)
    requires
        is_header_name(name@),
        well_named(old(out)@),
    ensures
        r is Ok,
        lines_of(final(out)@) == lines_of(old(out)@) + spelled(name@, json_ref_option(value)),
        final(out)@.len() <= old(out)@.len() + 1,
        well_named(final(out)@),
{
    match value {
        Some(v) => {
            match encode(v) {
                Ok(text) => {
                    out.push(HeaderLine { name, value: text });
                    assert(lines_of(out@) =~= lines_of(old(out)@) + spelled(
                        name@,
                        json_ref_option(value),
                    ));
                    Ok(())
                },
                Err(e) => Err(UnpolyError::InvalidJson(e)),
            }
        },
        None => {
            assert(lines_of(out@) =~= lines_of(old(out)@) + spelled(
                name@,
                json_ref_option(value),
            ));
            Ok(())
        },
    }
}

/// Whether every line has a value that can be sent as a header value.
fn all_wire_text(lines: &Vec<HeaderLine>) -> (b: bool)
    ensures
        b == forall|i: int|
            0 <= i < lines@.len() ==> is_value_text((#[trigger] lines_of(lines@)[i]).value),
{
    let mut i: usize = 0;
    while i < lines.len()
        invariant
            i <= lines@.len(),
            forall|j: int| 0 <= j < i ==> is_value_text((#[trigger] lines_of(lines@)[j]).value),
        decreases lines@.len() - i,
    {
        if !is_wire_text(lines[i].value.as_str()) {
            assert(!is_value_text(lines_of(lines@)[i as int].value));
            return false;
        }
        i = i + 1;
    }
    true
}

/// Enters the lines into a new header map, one after the other.
fn file_lines(lines: &Vec<HeaderLine>) -> (m: http::HeaderMap)
    requires
        lines@.len() <= 11,
        well_named(lines@),
        forall|j: int|
            0 <= j < lines@.len() ==> is_value_text((#[trigger] lines_of(lines@)[j]).value),
    ensures
        header_entries(m) == filed(lines_of(lines@)),
{
    let ghost all = lines_of(lines@);
    let mut map = new_header_map();
    let mut i: usize = 0;
    assert(filed(all.take(0)) == header_entries(map));
    while i < lines.len()
        invariant
            i <= lines@.len() <= 11,
            all == lines_of(lines@),
            well_named(lines@),
            forall|j: int| 0 <= j < all.len() ==> is_value_text((#[trigger] all[j]).value),
            header_entries(map) == filed(all.take(i as int)),
            header_count(map) <= i,
        decreases lines@.len() - i,
    {
        let line = &lines[i];
        proof {
            lemma_filed_step(all, i as int);
            assert(all[i as int] == line@);
            assert(is_value_text(all[i as int].value));
        }
        let value = header_value(line.value.as_str());
        insert_header(&mut map, line.name, value.unwrap());
        i = i + 1;
    }
    assert(all.take(lines@.len() as int) =~= all);
    map
}

/// The negotiation object of one request.
///
/// It is built from the request headers, read and changed while the request
/// is handled, and asked for the response headers at the end. Reading a
/// value that comes from a request header notes that header, and the noted
/// headers make up the `Vary` header of the response.
#[derive(Debug)]
pub struct Unpoly {
    success: Option<bool>,
    request: RequestState,
    response_context: Option<serde_json::Value>,
    response_layer: LayerSlot,
    response_events: Vec<serde_json::Value>,
    response_evict_cache: Option<String>,
    response_expire_cache: Option<String>,
    response_location: Option<String>,
    response_method: Option<String>,
    response_target: Option<String>,
    response_title: Option<String>,
    response_vary: VaryTracker,
}

impl View for Unpoly {
    type V = Negotiation;

    closed spec fn view(&self) -> Negotiation {
        Negotiation {
            request: self.request@,
            success: self.success,
            context: json_option(self.response_context),
            target: text_option(self.response_target),
            title: text_option(self.response_title),
            location: text_option(self.response_location),
            method: text_option(self.response_method),
            evict_cache: text_option(self.response_evict_cache),
            expire_cache: text_option(self.response_expire_cache),
            layer: self.response_layer@,
            events: json_models(self.response_events@),
            vary: self.response_vary@,
        }
    }
}

impl Default for Unpoly {
    /// The negotiation of a request without any of the protocol's headers.
    fn default() -> (u: Unpoly)
        ensures
            u@ == Negotiation::initial(Request::parsed(crate::request::RawRequest::none())),
    {
        Unpoly::new(RequestState::parse(RequestHeaders::default()))
    }
}

impl Unpoly {
    /// Starts the negotiation for a request.
    pub fn new(request: RequestState) -> (u: Unpoly)
        ensures
            u@ == Negotiation::initial(request@),
    {
        let u = Unpoly {
            success: None,
            request,
            response_context: None,
            response_layer: LayerSlot::Unset,
            response_events: Vec::new(),
            response_evict_cache: None,
            response_expire_cache: None,
            response_location: None,
            response_method: None,
            response_target: None,
            response_title: None,
            response_vary: VaryTracker::new(),
        };
        assert(u@.events =~= Seq::empty());
        u
    }

    /// Starts the negotiation for the request whose headers are given.
    pub fn from_header_map(headers: &http::HeaderMap) -> (u: Unpoly)
        ensures
            u@ == Negotiation::initial(
                Request::parsed(crate::request::RawRequest::of(header_entries(*headers))),
            ),
    {
        Unpoly::new(RequestState::from_header_map(headers))
    }

    /// What the request said.
    pub fn request(&self) -> (r: &RequestState)
        ensures
            r@ == self@.request,
    {
        &self.request
    }

    /// Whether the request comes from an Unpoly client, that is, whether it
    /// carries the version header. Where it does, that header is noted.
    pub fn is_up(&mut self) -> (b: bool)
        ensures
            b == old(self)@.is_up(),
            final(self)@ == old(self)@.after_is_up(),
    {
        if self.request.version.is_some() {
            self.response_vary.insert(RequestHeader::Version);
            true
        } else {
            false
        }
    }

    /// Whether the request is answered as a success (`Some(true)`), as a
    /// failure (`Some(false)`), or not yet decided (`None`).
    pub fn success(&mut self) -> (r: Option<bool>)
        ensures
            r == old(self)@.success,
            final(self)@ == old(self)@,
    {
        self.success
    }

    /// Decides for success or failure. The response target becomes the
    /// request's target, or its fail target, and the header it came from is
    /// noted.
    pub fn set_success(&mut self, success: bool)
        ensures
            final(self)@ == old(self)@.with_success(success),
    {
        self.success = Some(success);
        if success {
            self.response_vary.insert(RequestHeader::Target);
            self.response_target = copy_text(&self.request.target);
        } else {
            self.response_vary.insert(RequestHeader::FailTarget);
            self.response_target = copy_text(&self.request.fail_target);
        }
    }

    /// Whether the request is answered as a failure.
    fn is_failing(&self) -> (b: bool)
        ensures
            b == self@.failing(),
    {
        match self.success {
            Some(false) => true,
            _ => false,
        }
    }

    /// The mode of the targeted layer: the fail mode where the request is
    /// answered as a failure, the mode otherwise. The header it came from is
    /// noted.
    pub fn mode(&mut self) -> (m: &LayerMode)
        ensures
            *m == old(self)@.current_mode(),
            final(self)@ == old(self)@.after_mode(),
    {
        if self.is_failing() {
            self.response_vary.insert(RequestHeader::FailMode);
            &self.request.fail_mode
        } else {
            self.response_vary.insert(RequestHeader::Mode);
            &self.request.mode
        }
    }

    /// The context in force, without noting anything.
    fn resolved_context(&self) -> (r: Option<&serde_json::Value>)
        ensures
            json_ref_option(r) == self@.current_context(),
    {
        if self.response_context.is_some() {
            self.response_context.as_ref()
        } else if self.is_failing() {
            self.request.fail_context.as_ref()
        } else {
            self.request.context.as_ref()
        }
    }

    /// The context of the targeted layer: the one set for the response, or
    /// else the request's fail context where the request is answered as a
    /// failure and its context otherwise. A context taken from the request
    /// of an Unpoly client notes its header and the version header.
    pub fn context(&mut self) -> (r: Option<&serde_json::Value>)
        ensures
            json_ref_option(r) == old(self)@.current_context(),
            final(self)@ == old(self)@.after_context(),
    {
        if self.response_context.is_some() {
            return self.response_context.as_ref();
        }
        if self.is_failing() {
            if self.request.fail_context.is_some() && self.is_up() {
                self.response_vary.insert(RequestHeader::FailContext);
            }
            self.request.fail_context.as_ref()
        } else {
            if self.request.context.is_some() && self.is_up() {
                self.response_vary.insert(RequestHeader::Context);
            }
            self.request.context.as_ref()
        }
    }

    /// Sets the context of the response to an encoded value. Fails, and
    /// changes nothing, where the value could not be encoded.
    pub fn set_context(&mut self, encoded: Result<serde_json::Value, serde_json::Error>) -> (r:
        Result<(), UnpolyError>)
        ensures
            encoded matches Ok(v) ==> r is Ok && final(self)@ == old(self)@.with_context(
                json_model(v),
            ),
            encoded matches Err(e) ==> r matches Err(UnpolyError::InvalidJson(f)) && f == e
                && final(self)@ == old(self)@,
    {
        match encoded {
            Ok(v) => {
                self.response_context = Some(v);
                Ok(())
            },
            Err(e) => Err(UnpolyError::from(e)),
        }
    }

    /// The target in force: the one set for the response, or else the
    /// request's fail target where the request is answered as a failure and
    /// its target otherwise. A target taken from the request notes its
    /// header, whether the request carries it or not.
    pub fn target(&mut self) -> (r: Option<&str>)
        ensures
            text_ref_option(r) == old(self)@.current_target(),
            final(self)@ == old(self)@.after_target(),
    {
        if self.response_target.is_some() {
            return borrow_text(&self.response_target);
        }
        if self.is_failing() {
            self.response_vary.insert(RequestHeader::FailTarget);
            borrow_text(&self.request.fail_target)
        } else {
            self.response_vary.insert(RequestHeader::Target);
            borrow_text(&self.request.target)
        }
    }

    /// Sets the target of the response.
    pub fn set_target(&mut self, target: &str)
        ensures
            final(self)@ == (Negotiation { target: Some(target@), ..old(self)@ }),
    {
        self.response_target = Some(target.to_owned());
    }

    /// The names of the form fields to validate. Where there are any and
    /// the request comes from an Unpoly client, the validate header and the
    /// version header are noted.
    pub fn validate(&mut self) -> (r: &Vec<String>)
        ensures
            texts(r@) == old(self)@.request.validate,
            final(self)@ == old(self)@.after_validate(),
    {
        if self.request.validate.len() > 0 && self.is_up() {
            self.response_vary.insert(RequestHeader::Validate);
        }
        &self.request.validate
    }

    /// The title set for the response.
    pub fn title(&self) -> (r: Option<&str>)
        ensures
            text_ref_option(r) == self@.title,
    {
        borrow_text(&self.response_title)
    }

    /// Sets the title of the response.
    pub fn set_title(&mut self, title: &str)
        ensures
            final(self)@ == (Negotiation { title: Some(title@), ..old(self)@ }),
    {
        self.response_title = Some(title.to_owned());
    }

    /// The location set for the response.
    pub fn location(&self) -> (r: Option<&str>)
        ensures
            text_ref_option(r) == self@.location,
    {
        borrow_text(&self.response_location)
    }

    /// Sets the location of the response.
    pub fn set_location(&mut self, location: &str)
        ensures
            final(self)@ == (Negotiation { location: Some(location@), ..old(self)@ }),
    {
        self.response_location = Some(location.to_owned());
    }

    /// The method set for the response.
    pub fn method(&mut self) -> (r: Option<&str>)
        ensures
            text_ref_option(r) == old(self)@.method,
            final(self)@ == old(self)@,
    {
        borrow_text(&self.response_method)
    }

    /// Sets the method of the response.
    pub fn set_method(&mut self, method: &str)
        ensures
            final(self)@ == (Negotiation { method: Some(method@), ..old(self)@ }),
    {
        self.response_method = Some(method.to_owned());
    }

    /// Sets the pattern of the cache entries to evict.
    pub fn set_evict_cache(&mut self, cache: String)
        ensures
            final(self)@ == (Negotiation { evict_cache: Some(cache@), ..old(self)@ }),
    {
        self.response_evict_cache = Some(cache);
    }

    /// Sets the pattern of the cache entries to expire.
    pub fn set_expire_cache(&mut self, cache: String)
        ensures
            final(self)@ == (Negotiation { expire_cache: Some(cache@), ..old(self)@ }),
    {
        self.response_expire_cache = Some(cache);
    }

    /// Accepts the overlay with an encoded value, which takes the place of
    /// any earlier answer, a dismissal too. Fails, and changes nothing,
    /// where the value could not be encoded.
    pub fn accept_layer(&mut self, encoded: Result<serde_json::Value, serde_json::Error>) -> (r:
        Result<(), UnpolyError>)
        ensures
            encoded matches Ok(v) ==> r is Ok && final(self)@ == old(self)@.accepting(
                json_model(v),
            ),
            encoded matches Err(e) ==> r matches Err(UnpolyError::InvalidJson(f)) && f == e
                && final(self)@ == old(self)@,
    {
        match encoded {
            Ok(v) => {
                self.response_layer = LayerSlot::Accept(v);
                Ok(())
            },
            Err(e) => Err(UnpolyError::from(e)),
        }
    }

    /// Accepts the overlay without a value of the caller's: the value sent
    /// is the JSON null. It takes the place of any earlier answer, a
    /// dismissal too.
    pub fn accept_layer_without_value(&mut self) -> (r: Result<(), UnpolyError>)
        ensures
            r is Ok,
            final(self)@ == old(self)@.accepting(Json::Null),
    {
        self.accept_layer(Ok(null_value()))
    }

    /// Dismisses the overlay with an encoded value, which takes the place of
    /// any earlier answer, an acceptance too. Fails, and changes nothing,
    /// where the value could not be encoded.
    pub fn dismiss_layer(&mut self, encoded: Result<serde_json::Value, serde_json::Error>) -> (r:
        Result<(), UnpolyError>)
        ensures
            encoded matches Ok(v) ==> r is Ok && final(self)@ == old(self)@.dismissing(
                json_model(v),
            ),
            encoded matches Err(e) ==> r matches Err(UnpolyError::InvalidJson(f)) && f == e
                && final(self)@ == old(self)@,
    {
        match encoded {
            Ok(v) => {
                self.response_layer = LayerSlot::Dismiss(v);
                Ok(())
            },
            Err(e) => Err(UnpolyError::from(e)),
        }
    }

    /// Dismisses the overlay without a value of the caller's: the value
    /// sent is the JSON null. It takes the place of any earlier answer, an
    /// acceptance too.
    pub fn dismiss_layer_without_value(&mut self) -> (r: Result<(), UnpolyError>)
        ensures
            r is Ok,
            final(self)@ == old(self)@.dismissing(Json::Null),
    {
        self.dismiss_layer(Ok(null_value()))
    }

    /// Adds an event of the given type with an encoded payload. The payload
    /// must be a JSON object; its key `type` is set to the type, and the
    /// event goes last in the list. Fails, and changes nothing, where the
    /// payload could not be encoded or is not an object.
    pub fn emit_event(
        &mut self,
        type_: &str,
        encoded: Result<serde_json::Value, serde_json::Error>,
    ) -> (r: Result<(), UnpolyError>)
        ensures
            encoded matches Ok(v) ==> if json_model(v) is Object {
                r is Ok && final(self)@ == old(self)@.with_event(type_@, json_model(v))
            } else {
                r matches Err(UnpolyError::EventIsNotSerializableAsObject) && final(self)@ == old(
                    self,
                )@
            },
            encoded matches Err(e) ==> r matches Err(UnpolyError::InvalidJson(f)) && f == e
                && final(self)@ == old(self)@,
    {
        let mut event = match encoded {
            Ok(v) => v,
            Err(e) => {
                return Err(UnpolyError::from(e));
            },
        };
        if !is_object(&event) {
            return Err(UnpolyError::EventIsNotSerializableAsObject);
        }
        insert_entry(&mut event, "type", string_value(type_));
        self.response_events.push(event);
        assert(self@.events =~= old(self)@.events.push(json_model(event)));
        Ok(())
    }

    /// Adds an event for a layer: as [`Self::emit_event`], with the key
    /// `layer` of the payload set to the layer before the key `type` is set.
    pub fn emit_event_layer(
        &mut self,
        type_: &str,
        encoded: Result<serde_json::Value, serde_json::Error>,
        matching_layer: MatchingLayer,
    ) -> (r: Result<(), UnpolyError>)
        ensures
            encoded matches Ok(v) ==> if json_model(v) is Object {
                r is Ok && final(self)@ == old(self)@.with_layer_event(
                    type_@,
                    json_model(v),
                    matching_layer,
                )
            } else {
                r matches Err(UnpolyError::EventIsNotSerializableAsObject) && final(self)@ == old(
                    self,
                )@
            },
            encoded matches Err(e) ==> r matches Err(UnpolyError::InvalidJson(f)) && f == e
                && final(self)@ == old(self)@,
    {
        let mut event = match encoded {
            Ok(v) => v,
            Err(e) => {
                return Err(UnpolyError::from(e));
            },
        };
        if !is_object(&event) {
            return Err(UnpolyError::EventIsNotSerializableAsObject);
        }
        insert_entry(&mut event, "layer", matching_layer.to_value());
        self.emit_event(type_, Ok(event))
    }

    /// The response headers in the order in which they are produced: title,
    /// location, accept layer, dismiss layer, context, target, method, evict
    /// cache, expire cache, events, vary. A field that is absent gives no
    /// header.
    ///
    /// The JSON values are written out as text. For values that are held as
    /// `serde_json::Value` this does not fail, so the result is always `Ok`;
    /// an error of the encoder would be handed on as
    /// [`UnpolyError::InvalidJson`].
    pub fn render(&self) -> (r: Result<Vec<HeaderLine>, UnpolyError>)
        ensures
            r is Ok,
            r matches Ok(lines) ==> lines_of(lines@) == self@.lines() && lines@.len() <= 11
                && well_named(lines@),
    {
        proof {
            lemma_response_names_valid();
        }
        let mut out: Vec<HeaderLine> = Vec::new();
        assert(lines_of(out@) =~= Seq::<Line>::empty());
        put_plain(&mut out, TITLE, &self.response_title);
        put_plain(&mut out, LOCATION, &self.response_location);
        let accept = match &self.response_layer {
            LayerSlot::Accept(v) => Some(v),
            _ => None,
        };
        match put_json(&mut out, ACCEPT_LAYER, accept) {
            Ok(()) => {},
            Err(e) => {
                return Err(e);
            },
        }
        let dismiss = match &self.response_layer {
            LayerSlot::Dismiss(v) => Some(v),
            _ => None,
        };
        match put_json(&mut out, DISMISS_LAYER, dismiss) {
            Ok(()) => {},
            Err(e) => {
                return Err(e);
            },
        }
        match put_json(&mut out, CONTEXT, self.resolved_context()) {
            Ok(()) => {},
            Err(e) => {
                return Err(e);
            },
        }
        put_plain(&mut out, TARGET, &self.response_target);
        put_plain(&mut out, METHOD, &self.response_method);
        put_plain(&mut out, EVICT_CACHE, &self.response_evict_cache);
        put_plain(&mut out, EXPIRE_CACHE, &self.response_expire_cache);
        if self.response_events.len() > 0 {
            let events = array_value(&self.response_events);
            match put_json(&mut out, EVENTS, Some(&events)) {
                Ok(()) => {},
                Err(e) => {
                    return Err(e);
                },
            }
        } else {
            assert(lines_of(out@) + spelled(EVENTS@, self@.events_json()) =~= lines_of(out@));
        }
        let vary = if self.response_vary.is_empty() {
            None
        } else {
            Some(self.response_vary.render())
        };
        put_plain(&mut out, VARY, &vary);
        Ok(out)
    }

    /// The response headers as a header map.
    ///
    /// The headers are entered in the order of [`Self::render`], and as
    /// there the result is always `Ok`. Every value must be fit to be sent
    /// as a header value; [`Self::try_get_headers`] is the form that tests
    /// this itself.
    pub fn get_headers(&self) -> (r: Result<http::HeaderMap, UnpolyError>)
        requires
            self@.wire_safe(),
        ensures
            r is Ok,
            r matches Ok(m) ==> header_entries(m) == filed(self@.lines()),
    {
        match self.render() {
            Ok(lines) => Ok(file_lines(&lines)),
            Err(e) => Err(e),
        }
    }

    /// The response headers as a header map, or `None` where some value is
    /// not fit to be sent as a header value.
    pub fn try_get_headers(&self) -> (r: Option<Result<http::HeaderMap, UnpolyError>>)
        ensures
            r is Some <==> self@.wire_safe(),
            r matches Some(x) ==> x is Ok,
            r matches Some(Ok(m)) ==> header_entries(m) == filed(self@.lines()),
    {
        match self.render() {
            Ok(lines) => {
                if !all_wire_text(&lines) {
                    return None;
                }
            },
            Err(_) => {},
        }
        Some(self.get_headers())
    }
}

} // verus!
