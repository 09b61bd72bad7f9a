//! The mathematical model of a negotiation: what an [`Unpoly`] value stands
//! for, and what each of its operations does to it.
//!
//! [`Unpoly`]: crate::unpoly::Unpoly
use vstd::prelude::*;
use crate::json::{has_key, json_text, Json};
use crate::layer::{LayerMode, MatchingLayer};
use crate::names::{
    RequestHeader, ACCEPT_LAYER, CONTEXT, DISMISS_LAYER, EVENTS, EVICT_CACHE, EXPIRE_CACHE,
    LOCATION, METHOD, TARGET, TITLE, VARY,
};
use crate::request::Request;
use crate::vary::vary_text;
use crate::wire::{empty_headers, is_value_text, lowered};

verus! {

/// What the response says of the overlay: nothing, that it is accepted with
/// a value, or that it is dismissed with a value. Never both.
pub enum LayerAnswer {
    Unset,
    Accept(Json),
    Dismiss(Json),
}

/// One header of the response.
pub struct Line {
    pub name: Seq<char>,
    pub value: Seq<char>,
}

/// The state of a negotiation.
pub struct Negotiation {
    /// What the request said.
    pub request: Request,
    /// Whether the request is being answered as a success, as a failure, or
    /// not yet known.
    pub success: Option<bool>,
    /// The context set for the response, if any.
    pub context: Option<Json>,
    /// The target set for the response, if any.
    pub target: Option<Seq<char>>,
    pub title: Option<Seq<char>>,
    pub location: Option<Seq<char>>,
    pub method: Option<Seq<char>>,
    pub evict_cache: Option<Seq<char>>,
    pub expire_cache: Option<Seq<char>>,
    /// What the response says of the overlay.
    pub layer: LayerAnswer,
    /// The events to emit, in the order in which they were added.
    pub events: Seq<Json>,
    /// The request headers on which the response depends.
    pub vary: Set<RequestHeader>,
}

/// The line of a header whose value is plain text; nothing where the value
/// is absent.
pub open spec fn plain(name: Seq<char>, value: Option<Seq<char>>) -> Seq<Line> {
    match value {
        Some(s) => seq![Line { name, value: s }],
        None => Seq::empty(),
    }
}

/// The line of a header whose value is the JSON text of a value; nothing
/// where the value is absent.
pub open spec fn spelled(name: Seq<char>, value: Option<Json>) -> Seq<Line> {
    match value {
        Some(j) => plain(name, Some(json_text(j))),
        None => Seq::empty(),
    }
}

/// The header map that holds the given lines, entered one after the other.
pub open spec fn filed(lines: Seq<Line>) -> Map<Seq<char>, Seq<u8>>
    decreases lines.len(),
{
    if lines.len() == 0 {
        empty_headers()
    } else {
        filed(lines.drop_last()).insert(
            lowered(lines.last().name),
            vstd::utf8::encode_utf8(lines.last().value),
        )
    }
}

/// Entering the line at place `i` files its value under its name, in lower
/// case, in the header map that holds the lines before it.
pub proof fn lemma_filed_step(lines: Seq<Line>, i: int)
    requires
        0 <= i < lines.len(),
    ensures
        filed(lines.take(i + 1)) == filed(lines.take(i)).insert(
            lowered(lines[i].name),
            vstd::utf8::encode_utf8(lines[i].value),
        ),
{
    assert(lines.take(i + 1).drop_last() =~= lines.take(i));
    assert(lines.take(i + 1).last() == lines[i]);
}

impl Negotiation {
    /// The negotiation as it starts for a request.
    pub open spec fn initial(request: Request) -> Negotiation {
        Negotiation {
            request,
            success: None,
            context: None,
            target: None,
            title: None,
            location: None,
            method: None,
            evict_cache: None,
            expire_cache: None,
            layer: LayerAnswer::Unset,
            events: Seq::empty(),
            vary: Set::empty(),
        }
    }

    /// The negotiation with one more header in its vary set.
    pub open spec fn noting(self, h: RequestHeader) -> Negotiation {
        Negotiation { vary: self.vary.insert(h), ..self }
    }

    /// Whether the request comes from an Unpoly client: whether it carries
    /// the version header.
    pub open spec fn is_up(self) -> bool {
        self.request.version is Some
    }

    /// The state after asking whether the request comes from an Unpoly
    /// client: the version header is noted where it is present.
    pub open spec fn after_is_up(self) -> Negotiation {
        if self.is_up() {
            self.noting(RequestHeader::Version)
        } else {
            self
        }
    }

    /// Whether the request is being answered as a failure.
    pub open spec fn failing(self) -> bool {
        self.success == Some(false)
    }

    /// The state after deciding for success or failure: the response target
    /// becomes the request's target of that branch, and the header of that
    /// target is noted.
    pub open spec fn with_success(self, success: bool) -> Negotiation {
        if success {
            Negotiation {
                success: Some(true),
                target: self.request.target,
                vary: self.vary.insert(RequestHeader::Target),
                ..self
            }
        } else {
            Negotiation {
                success: Some(false),
                target: self.request.fail_target,
                vary: self.vary.insert(RequestHeader::FailTarget),
                ..self
            }
        }
    }

    /// The mode of the branch in force.
    pub open spec fn current_mode(self) -> LayerMode {
        if self.failing() {
            self.request.fail_mode
        } else {
            self.request.mode
        }
    }

    /// The state after reading the mode: the mode header of the branch in
    /// force is noted.
    pub open spec fn after_mode(self) -> Negotiation {
        if self.failing() {
            self.noting(RequestHeader::FailMode)
        } else {
            self.noting(RequestHeader::Mode)
        }
    }

    /// The context in force: the one set for the response, or else the
    /// request's context of the branch in force.
    pub open spec fn current_context(self) -> Option<Json> {
        if self.context is Some {
            self.context
        } else if self.failing() {
            self.request.fail_context
        } else {
            self.request.context
        }
    }

    /// The state after reading the context. Where the response has no
    /// context of its own, and the request carries both the context of the
    /// branch in force and the version header, these two are noted.
    pub open spec fn after_context(self) -> Negotiation {
        if self.context is Some {
            self
        } else if self.failing() {
            if self.request.fail_context is Some && self.is_up() {
                self.noting(RequestHeader::Version).noting(RequestHeader::FailContext)
            } else {
                self
            }
        } else {
            if self.request.context is Some && self.is_up() {
                self.noting(RequestHeader::Version).noting(RequestHeader::Context)
            } else {
                self
            }
        }
    }

    /// The target in force: the one set for the response, or else the
    /// request's target of the branch in force.
    pub open spec fn current_target(self) -> Option<Seq<char>> {
        if self.target is Some {
            self.target
        } else if self.failing() {
            self.request.fail_target
        } else {
            self.request.target
        }
    }

    /// The state after reading the target. Where the response has no target
    /// of its own, the target header of the branch in force is noted,
    /// whether the request carries it or not.
    pub open spec fn after_target(self) -> Negotiation {
        if self.target is Some {
            self
        } else if self.failing() {
            self.noting(RequestHeader::FailTarget)
        } else {
            self.noting(RequestHeader::Target)
        }
    }

    /// The state after reading the fields to validate. Where there are any
    /// and the request carries the version header, the version and the
    /// validate header are noted.
    pub open spec fn after_validate(self) -> Negotiation {
        if self.request.validate.len() > 0 && self.is_up() {
            self.noting(RequestHeader::Version).noting(RequestHeader::Validate)
        } else {
            self
        }
    }

    /// The state after accepting the overlay with a value.
    pub open spec fn accepting(self, value: Json) -> Negotiation {
        Negotiation { layer: LayerAnswer::Accept(value), ..self }
    }

    /// The state after dismissing the overlay with a value.
    pub open spec fn dismissing(self, value: Json) -> Negotiation {
        Negotiation { layer: LayerAnswer::Dismiss(value), ..self }
    }

    /// The value with which the overlay is accepted, if it is.
    pub open spec fn accept_value(self) -> Option<Json> {
        match self.layer {
            LayerAnswer::Accept(j) => Some(j),
            _ => None,
        }
    }

    /// The value with which the overlay is dismissed, if it is.
    pub open spec fn dismiss_value(self) -> Option<Json> {
        match self.layer {
            LayerAnswer::Dismiss(j) => Some(j),
            _ => None,
        }
    }

    /// The state after setting the context of the response.
    pub open spec fn with_context(self, value: Json) -> Negotiation {
        Negotiation { context: Some(value), ..self }
    }

    /// The state after adding an event: the payload with its key `type` set
    /// to the event's type goes last in the list.
    pub open spec fn with_event(self, kind: Seq<char>, payload: Json) -> Negotiation {
        Negotiation {
            events: self.events.push(payload.with_key("type"@, Json::String(kind))),
            ..self
        }
    }

    /// The state after adding an event for a layer: the payload first gets
    /// its key `layer`, then its key `type`.
    pub open spec fn with_layer_event(
        self,
        kind: Seq<char>,
        payload: Json,
        layer: MatchingLayer,
    ) -> Negotiation {
        self.with_event(kind, payload.with_key("layer"@, layer.json()))
    }

    /// The events as one JSON array; nothing where there is no event.
    pub open spec fn events_json(self) -> Option<Json> {
        if self.events.len() > 0 {
            Some(Json::Array(self.events))
        } else {
            None
        }
    }

    /// The value of the `Vary` header; nothing where no header was noted.
    pub open spec fn vary_value(self) -> Option<Seq<char>> {
        if self.vary == Set::<RequestHeader>::empty() {
            None
        } else {
            Some(vary_text(self.vary))
        }
    }

    /// The response headers in the order in which they are produced. A field
    /// that is absent gives no header.
    pub open spec fn lines(self) -> Seq<Line> {
        plain(TITLE@, self.title) + plain(LOCATION@, self.location) + spelled(
            ACCEPT_LAYER@,
            self.accept_value(),
        ) + spelled(DISMISS_LAYER@, self.dismiss_value()) + spelled(
            CONTEXT@,
            self.current_context(),
        ) + plain(TARGET@, self.target) + plain(METHOD@, self.method) + plain(
            EVICT_CACHE@,
            self.evict_cache,
        ) + plain(EXPIRE_CACHE@, self.expire_cache) + spelled(EVENTS@, self.events_json())
            + plain(VARY@, self.vary_value())
    }

    /// Whether every value of the response headers can be sent as a header
    /// value.
    pub open spec fn wire_safe(self) -> bool {
        forall|i: int|
            0 <= i < self.lines().len() ==> is_value_text((#[trigger] self.lines()[i]).value)
    }

    /// What holds of every negotiation that starts with [`Self::initial`]
    /// and goes on by the operations of this module: the version, context
    /// and validate headers are noted only where the request carries them
    /// together with the version header, and every event is an object with a
    /// key `type`.
    pub open spec fn inv(self) -> bool {
        &&& self.vary.contains(RequestHeader::Version) ==> self.request.version is Some
        &&& self.vary.contains(RequestHeader::Context) ==> self.request.version is Some
            && self.request.context is Some
        &&& self.vary.contains(RequestHeader::FailContext) ==> self.request.version is Some
            && self.request.fail_context is Some
        &&& self.vary.contains(RequestHeader::Validate) ==> self.request.version is Some
            && self.request.validate.len() > 0
        &&& forall|i: int|
            0 <= i < self.events.len() ==> (#[trigger] self.events[i]) is Object && has_key(
                self.events[i]->Object_0,
                "type"@,
            )
    }
}

} // verus!
