//! Layer modes and the ways to address a layer relative to the current one.
use vstd::prelude::*;
use crate::json::{index_value, json_model, string_value, Json, JsonNumber};
use crate::text::same_text;

verus! {

/// The presentation style of a layer.
#[derive(Debug, Clone, Copy, PartialEq, Eq, Structural)]
pub enum LayerMode {
    /// The initial page.
    ROOT,
    /// A modal dialog box.
    MODAL,
    /// A drawer sliding in from the side.
    DRAWER,
    /// A popup menu anchored to a link.
    POPUP,
    /// An overlay covering the entire screen.
    COVER,
}

impl Default for LayerMode {
    fn default() -> (m: LayerMode)
        ensures
            m == LayerMode::ROOT,
    {
        LayerMode::ROOT
    }
}

impl LayerMode {
    /// The mode that a raw header value names. The five lower-case names are
    /// matched exactly; any other text stands for the root layer.
    pub open spec fn named(raw: Seq<char>) -> LayerMode {
        if raw == "modal"@ {
            LayerMode::MODAL
        } else if raw == "drawer"@ {
            LayerMode::DRAWER
        } else if raw == "popup"@ {
            LayerMode::POPUP
        } else if raw == "cover"@ {
            LayerMode::COVER
        } else {
            LayerMode::ROOT
        }
    }

    /// The mode that an optional raw header value names; the root layer where
    /// the header is absent.
    pub open spec fn named_or_root(raw: Option<Seq<char>>) -> LayerMode {
        match raw {
            Some(s) => LayerMode::named(s),
            None => LayerMode::ROOT,
        }
    }

    /// Reads a mode from a raw header value.
    pub fn parse(raw: &str) -> (m: LayerMode)
        ensures
            m == LayerMode::named(raw@),
    {
        if same_text(raw, "modal") {
            LayerMode::MODAL
        } else if same_text(raw, "drawer") {
            LayerMode::DRAWER
        } else if same_text(raw, "popup") {
            LayerMode::POPUP
        } else if same_text(raw, "cover") {
            LayerMode::COVER
        } else {
            LayerMode::ROOT
        }
    }

    /// Whether the layer is the root layer.
    pub fn is_root(&self) -> (b: bool)
        ensures
            b == (*self == LayerMode::ROOT),
    {
        match self {
            LayerMode::ROOT => true,
            _ => false,
        }
    }

    /// Whether the layer is an overlay, that is, any layer but the root.
    pub fn is_overlay(&self) -> (b: bool)
        ensures
            b == (*self != LayerMode::ROOT),
    {
        !self.is_root()
    }
}

/// A way to pick a layer relative to the current layer.
#[derive(Debug, Clone, Copy, PartialEq, Eq, Structural)]
pub enum MatchingLayer {
    /// The current layer.
    CURRENT,
    /// The layer that opened the current layer.
    PARENT,
    /// The current layer or any ancestor, preferring closer layers.
    CLOSEST,
    /// Any overlay.
    OVERLAY,
    /// Any ancestor layer of the current layer.
    ANCESTOR,
    /// The child layer of the current layer.
    CHILD,
    /// Any descendant of the current layer.
    DESCENDANT,
    /// The current layer and its descendants.
    SUBTREE,
    /// The layer at the given index, where 0 is the root layer.
    INDEX(u32),
}

impl MatchingLayer {
    /// The JSON form of a layer reference: the index as a bare number, every
    /// other variant as its name in lower case.
    pub open spec fn json(self) -> Json {
        match self {
            MatchingLayer::CURRENT => Json::String("current"@),
            MatchingLayer::PARENT => Json::String("parent"@),
            MatchingLayer::CLOSEST => Json::String("closest"@),
            MatchingLayer::OVERLAY => Json::String("overlay"@),
            MatchingLayer::ANCESTOR => Json::String("ancestor"@),
            MatchingLayer::CHILD => Json::String("child"@),
            MatchingLayer::DESCENDANT => Json::String("descendant"@),
            MatchingLayer::SUBTREE => Json::String("subtree"@),
            MatchingLayer::INDEX(n) => Json::Number(JsonNumber::PosInt(n as u64)),
        }
    }

    /// Encodes a layer reference as a JSON value.
    pub fn to_value(&self) -> (v: serde_json::Value)
        ensures
            json_model(v) == self.json(),
    {
        match self {
            MatchingLayer::CURRENT => string_value("current"),
            MatchingLayer::PARENT => string_value("parent"),
            MatchingLayer::CLOSEST => string_value("closest"),
            MatchingLayer::OVERLAY => string_value("overlay"),
            MatchingLayer::ANCESTOR => string_value("ancestor"),
            MatchingLayer::CHILD => string_value("child"),
            MatchingLayer::DESCENDANT => string_value("descendant"),
            MatchingLayer::SUBTREE => string_value("subtree"),
            MatchingLayer::INDEX(n) => index_value(*n),
        }
    }
}

} // verus!
