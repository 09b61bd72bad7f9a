//! The wire names of the protocol's headers.
use vstd::prelude::*;
use crate::wire::is_header_name;

verus! {

/// Request header: the version of the client library. Its presence marks a
/// request as coming from an Unpoly client.
pub const VERSION: &'static str = "X-Up-Version";

/// Request and response header: the context of the targeted layer.
pub const CONTEXT: &'static str = "X-Up-Context";

/// Request header: the context of the layer targeted in case of failure.
pub const FAIL_CONTEXT: &'static str = "X-Up-Fail-Context";

/// Request and response header: the selector of the targeted fragment.
pub const TARGET: &'static str = "X-Up-Target";

/// Request header: the selector targeted in case of failure.
pub const FAIL_TARGET: &'static str = "X-Up-Fail-Target";

/// Request header: the mode of the targeted layer.
pub const MODE: &'static str = "X-Up-Mode";

/// Request header: the mode of the layer targeted in case of failure.
pub const FAIL_MODE: &'static str = "X-Up-Fail-Mode";

/// Request header: the names of the form fields being validated.
pub const VALIDATE: &'static str = "X-Up-Validate";

/// Response header: the document title.
pub const TITLE: &'static str = "X-Up-Title";

/// Response header: the location to show for the response.
pub const LOCATION: &'static str = "X-Up-Location";

/// Response header: the value with which the overlay is accepted.
pub const ACCEPT_LAYER: &'static str = "X-Up-Accept-Layer";

/// Response header: the value with which the overlay is dismissed.
pub const DISMISS_LAYER: &'static str = "X-Up-Dismiss-Layer";

/// Response header: the method to show for the response.
pub const METHOD: &'static str = "X-Up-Method";

/// Response header: the cache entries to evict.
pub const EVICT_CACHE: &'static str = "X-Up-Evict-Cache";

/// Response header: the cache entries to expire.
pub const EXPIRE_CACHE: &'static str = "X-Up-Expire-Cache";

/// Response header: the events to emit on the client.
pub const EVENTS: &'static str = "X-Up-Events";

/// Response header: the request headers on which the response depends.
pub const VARY: &'static str = "Vary";

/// A request header of the protocol.
#[derive(Debug, Clone, Copy, PartialEq, Eq, Structural)]
pub enum RequestHeader {
    Context,
    FailContext,
    FailMode,
    FailTarget,
    Mode,
    Target,
    Validate,
    Version,
}

impl RequestHeader {
    /// The wire name of the header.
    pub open spec fn wire_name(self) -> Seq<char> {
        match self {
            RequestHeader::Context => CONTEXT@,
            RequestHeader::FailContext => FAIL_CONTEXT@,
            RequestHeader::FailMode => FAIL_MODE@,
            RequestHeader::FailTarget => FAIL_TARGET@,
            RequestHeader::Mode => MODE@,
            RequestHeader::Target => TARGET@,
            RequestHeader::Validate => VALIDATE@,
            RequestHeader::Version => VERSION@,
        }
    }

    /// The wire name of the header.
    pub fn name(&self) -> (s: &'static str)
        ensures
            s@ == self.wire_name(),
    {
        match self {
            RequestHeader::Context => CONTEXT,
            RequestHeader::FailContext => FAIL_CONTEXT,
            RequestHeader::FailMode => FAIL_MODE,
            RequestHeader::FailTarget => FAIL_TARGET,
            RequestHeader::Mode => MODE,
            RequestHeader::Target => TARGET,
            RequestHeader::Validate => VALIDATE,
            RequestHeader::Version => VERSION,
        }
    }

    /// The place of the header in the order of the wire names: the headers
    /// are numbered from 0 to 7 as their names sort.
    pub open spec fn rank(self) -> int {
        match self {
            RequestHeader::Context => 0,
            RequestHeader::FailContext => 1,
            RequestHeader::FailMode => 2,
            RequestHeader::FailTarget => 3,
            RequestHeader::Mode => 4,
            RequestHeader::Target => 5,
            RequestHeader::Validate => 6,
            RequestHeader::Version => 7,
        }
    }

    /// The header with the given rank.
    pub open spec fn ranked(k: int) -> RequestHeader {
        if k <= 0 {
            RequestHeader::Context
        } else if k == 1 {
            RequestHeader::FailContext
        } else if k == 2 {
            RequestHeader::FailMode
        } else if k == 3 {
            RequestHeader::FailTarget
        } else if k == 4 {
            RequestHeader::Mode
        } else if k == 5 {
            RequestHeader::Target
        } else if k == 6 {
            RequestHeader::Validate
        } else {
            RequestHeader::Version
        }
    }

    /// The header with the given rank.
    pub fn at(k: u8) -> (h: RequestHeader)
        requires
            k < 8,
        ensures
            h == RequestHeader::ranked(k as int),
            h.rank() == k,
    {
        if k == 0 {
            RequestHeader::Context
        } else if k == 1 {
            RequestHeader::FailContext
        } else if k == 2 {
            RequestHeader::FailMode
        } else if k == 3 {
            RequestHeader::FailTarget
        } else if k == 4 {
            RequestHeader::Mode
        } else if k == 5 {
            RequestHeader::Target
        } else if k == 6 {
            RequestHeader::Validate
        } else {
            RequestHeader::Version
        }
    }
}

/// Strict lexicographic order on texts, character by character: `a` comes
/// before `b` when they agree up to some position at which `a` ends and `b`
/// goes on, or at which `a` has the smaller character.
pub open spec fn text_before(a: Seq<char>, b: Seq<char>) -> bool {
    exists|k: int| #[trigger] differs_at(a, b, k)
}

/// `a` and `b` agree on their first `k` characters, and at position `k`
/// either `a` ends and `b` goes on, or `a` has the smaller character.
pub open spec fn differs_at(a: Seq<char>, b: Seq<char>, k: int) -> bool {
    &&& 0 <= k <= a.len()
    &&& k < b.len()
    &&& forall|i: int| 0 <= i < k ==> a[i] == b[i]
    &&& (k < a.len() ==> (a[k] as u32) < (b[k] as u32))
}

/// The order of texts is transitive.
pub proof fn lemma_text_before_transitive(a: Seq<char>, b: Seq<char>, c: Seq<char>)
    requires
        text_before(a, b),
        text_before(b, c),
    ensures
        text_before(a, c),
{
    let i = choose|k: int| #[trigger] differs_at(a, b, k);
    let j = choose|k: int| #[trigger] differs_at(b, c, k);
    if i <= j {
        assert(differs_at(a, c, i));
    } else {
        assert(differs_at(a, c, j));
    }
}

/// The wire names of two headers are ordered as their ranks are.
pub proof fn lemma_names_ordered(g: RequestHeader, h: RequestHeader)
    requires
        g.rank() < h.rank(),
    ensures
        text_before(g.wire_name(), h.wire_name()),
    decreases h.rank() - g.rank(),
{
    reveal_strlit("X-Up-Context");
    reveal_strlit("X-Up-Fail-Context");
    reveal_strlit("X-Up-Fail-Mode");
    reveal_strlit("X-Up-Fail-Target");
    reveal_strlit("X-Up-Mode");
    reveal_strlit("X-Up-Target");
    reveal_strlit("X-Up-Validate");
    reveal_strlit("X-Up-Version");
    let next = RequestHeader::ranked(g.rank() + 1);
    assert(text_before(g.wire_name(), next.wire_name())) by {
        match g {
            RequestHeader::Context => {
                assert(differs_at(CONTEXT@, FAIL_CONTEXT@, 5));
            },
            RequestHeader::FailContext => {
                assert(differs_at(FAIL_CONTEXT@, FAIL_MODE@, 10));
            },
            RequestHeader::FailMode => {
                assert(differs_at(FAIL_MODE@, FAIL_TARGET@, 10));
            },
            RequestHeader::FailTarget => {
                assert(differs_at(FAIL_TARGET@, MODE@, 5));
            },
            RequestHeader::Mode => {
                assert(differs_at(MODE@, TARGET@, 5));
            },
            RequestHeader::Target => {
                assert(differs_at(TARGET@, VALIDATE@, 5));
            },
            RequestHeader::Validate => {
                assert(differs_at(VALIDATE@, VERSION@, 6));
            },
            RequestHeader::Version => {},
        }
    }
    if next != h {
        lemma_names_ordered(next, h);
        lemma_text_before_transitive(g.wire_name(), next.wire_name(), h.wire_name());
    }
}

/// Each request header name is a header name that a header map accepts.
pub proof fn lemma_request_names_valid()
    ensures
        is_header_name(VERSION@),
        is_header_name(CONTEXT@),
        is_header_name(FAIL_CONTEXT@),
        is_header_name(TARGET@),
        is_header_name(FAIL_TARGET@),
        is_header_name(MODE@),
        is_header_name(FAIL_MODE@),
        is_header_name(VALIDATE@),
{
    reveal_strlit("X-Up-Context");
    reveal_strlit("X-Up-Fail-Context");
    reveal_strlit("X-Up-Fail-Mode");
    reveal_strlit("X-Up-Fail-Target");
    reveal_strlit("X-Up-Mode");
    reveal_strlit("X-Up-Target");
    reveal_strlit("X-Up-Validate");
    reveal_strlit("X-Up-Version");
}

/// Each response header name is a header name that a header map accepts.
pub proof fn lemma_response_names_valid()
    ensures
        is_header_name(TITLE@),
        is_header_name(LOCATION@),
        is_header_name(ACCEPT_LAYER@),
        is_header_name(DISMISS_LAYER@),
        is_header_name(CONTEXT@),
        is_header_name(TARGET@),
        is_header_name(METHOD@),
        is_header_name(EVICT_CACHE@),
        is_header_name(EXPIRE_CACHE@),
        is_header_name(EVENTS@),
        is_header_name(VARY@),
{
    reveal_strlit("X-Up-Title");
    reveal_strlit("X-Up-Location");
    reveal_strlit("X-Up-Accept-Layer");
    reveal_strlit("X-Up-Dismiss-Layer");
    reveal_strlit("X-Up-Context");
    reveal_strlit("X-Up-Target");
    reveal_strlit("X-Up-Method");
    reveal_strlit("X-Up-Evict-Cache");
    reveal_strlit("X-Up-Expire-Cache");
    reveal_strlit("X-Up-Events");
    reveal_strlit("Vary");
}

} // verus!
