//! Laws of the negotiation model: what holds of every negotiation, whatever
//! the request and in whatever order the operations are applied.
use vstd::prelude::*;
use crate::json::{has_key, with_entry, Json};
use crate::layer::MatchingLayer;
use crate::model::{filed, plain, spelled, LayerAnswer, Line, Negotiation};
use crate::names::{
    text_before, RequestHeader, ACCEPT_LAYER, CONTEXT, DISMISS_LAYER, EVENTS, EVICT_CACHE,
    EXPIRE_CACHE, LOCATION, METHOD, TARGET, TITLE, VARY, VERSION,
};
use crate::request::{RawRequest, Request};
use crate::vary::{
    joined, lemma_vary_names_members, lemma_vary_names_sorted, lemma_vary_text_on_the_wire,
    names_member, vary_names, vary_text,
};
use crate::wire::{ascii_text, lowered};

verus! {

/// Entering one more line into a header map files its value under its name,
/// in lower case.
pub proof fn lemma_filed_push(lines: Seq<Line>, line: Line)
    ensures
        filed(lines.push(line)) == filed(lines).insert(
            lowered(line.name),
            vstd::utf8::encode_utf8(line.value),
        ),
{
    assert(lines.push(line).drop_last() =~= lines);
}

/// A plain header that is present is filed; one that is absent leaves the
/// header map as it is.
pub proof fn lemma_filed_plain(lines: Seq<Line>, name: Seq<char>, value: Option<Seq<char>>)
    ensures
        filed(lines + plain(name, value)) == match value {
            Some(s) => filed(lines).insert(lowered(name), vstd::utf8::encode_utf8(s)),
            None => filed(lines),
        },
{
    match value {
        Some(s) => {
            assert(lines + plain(name, value) =~= lines.push(Line { name, value: s }));
            lemma_filed_push(lines, Line { name, value: s });
        },
        None => {
            assert(lines + plain(name, value) =~= lines);
        },
    }
}

/// A JSON header files its text under its name where the value is present,
/// and leaves the header map as it is where it is absent: no other name is
/// touched.
pub proof fn lemma_filed_spelled(lines: Seq<Line>, name: Seq<char>, value: Option<Json>)
    ensures
        forall|key: Seq<char>|
            key != lowered(name) ==> (filed(lines + spelled(name, value)).contains_key(key)
                <==> filed(lines).contains_key(key)),
{
    match value {
        Some(j) => {
            lemma_filed_plain(lines, name, Some(crate::json::json_text(j)));
        },
        None => {
            assert(lines + spelled(name, value) =~= lines);
        },
    }
}

/// No header of the protocol is filed under the name of the `Vary` header.
pub proof fn lemma_vary_name_apart()
    ensures
        lowered(TITLE@) != lowered(VARY@),
        lowered(LOCATION@) != lowered(VARY@),
        lowered(ACCEPT_LAYER@) != lowered(VARY@),
        lowered(DISMISS_LAYER@) != lowered(VARY@),
        lowered(CONTEXT@) != lowered(VARY@),
        lowered(TARGET@) != lowered(VARY@),
        lowered(METHOD@) != lowered(VARY@),
        lowered(EVICT_CACHE@) != lowered(VARY@),
        lowered(EXPIRE_CACHE@) != lowered(VARY@),
        lowered(EVENTS@) != lowered(VARY@),
{
    reveal_strlit("X-Up-Title");
    reveal_strlit("X-Up-Location");
    reveal_strlit("X-Up-Accept-Layer");
    reveal_strlit("X-Up-Dismiss-Layer");
    reveal_strlit("X-Up-Context");
    reveal_strlit("X-Up-Target");
    reveal_strlit("X-Up-Method");
    reveal_strlit("X-Up-Evict-Cache");
    reveal_strlit("X-Up-Expire-Cache");
    reveal_strlit("X-Up-Events");
    reveal_strlit("Vary");
    assert(lowered(VARY@).len() == 4);
    assert(lowered(TITLE@).len() == 10);
    assert(lowered(LOCATION@).len() == 13);
    assert(lowered(ACCEPT_LAYER@).len() == 17);
    assert(lowered(DISMISS_LAYER@).len() == 18);
    assert(lowered(CONTEXT@).len() == 12);
    assert(lowered(TARGET@).len() == 11);
    assert(lowered(METHOD@).len() == 11);
    assert(lowered(EVICT_CACHE@).len() == 16);
    assert(lowered(EXPIRE_CACHE@).len() == 17);
    assert(lowered(EVENTS@).len() == 11);
}

/// The header map of a response holds a `Vary` header exactly when some
/// request header was noted, and its value then holds, and reads as, the
/// text that lists the noted headers.
pub proof fn lemma_vary_header(n: Negotiation)
    ensures
        filed(n.lines()).contains_key(lowered(VARY@)) <==> n.vary != Set::<RequestHeader>::empty(),
        n.vary != Set::<RequestHeader>::empty() ==> filed(n.lines())[lowered(VARY@)]
            == vstd::utf8::encode_utf8(vary_text(n.vary)),
        n.vary != Set::<RequestHeader>::empty() ==> ascii_text(filed(n.lines())[lowered(VARY@)])
            == vary_text(n.vary),
{
    lemma_vary_name_apart();
    lemma_vary_text_on_the_wire(n.vary);
    let l0 = Seq::<Line>::empty();
    let l1 = plain(TITLE@, n.title);
    let l2 = l1 + plain(LOCATION@, n.location);
    let l3 = l2 + spelled(ACCEPT_LAYER@, n.accept_value());
    let l4 = l3 + spelled(DISMISS_LAYER@, n.dismiss_value());
    let l5 = l4 + spelled(CONTEXT@, n.current_context());
    let l6 = l5 + plain(TARGET@, n.target);
    let l7 = l6 + plain(METHOD@, n.method);
    let l8 = l7 + plain(EVICT_CACHE@, n.evict_cache);
    let l9 = l8 + plain(EXPIRE_CACHE@, n.expire_cache);
    let l10 = l9 + spelled(EVENTS@, n.events_json());
    let l11 = l10 + plain(VARY@, n.vary_value());
    let key = lowered(VARY@);
    assert(l0 + l1 =~= l1);
    assert(!filed(l0).contains_key(key));
    lemma_filed_plain(l0, TITLE@, n.title);
    assert(!filed(l1).contains_key(key));
    lemma_filed_plain(l1, LOCATION@, n.location);
    assert(!filed(l2).contains_key(key));
    lemma_filed_spelled(l2, ACCEPT_LAYER@, n.accept_value());
    assert(!filed(l3).contains_key(key));
    lemma_filed_spelled(l3, DISMISS_LAYER@, n.dismiss_value());
    assert(!filed(l4).contains_key(key));
    lemma_filed_spelled(l4, CONTEXT@, n.current_context());
    assert(!filed(l5).contains_key(key));
    lemma_filed_plain(l5, TARGET@, n.target);
    assert(!filed(l6).contains_key(key));
    lemma_filed_plain(l6, METHOD@, n.method);
    assert(!filed(l7).contains_key(key));
    lemma_filed_plain(l7, EVICT_CACHE@, n.evict_cache);
    assert(!filed(l8).contains_key(key));
    lemma_filed_plain(l8, EXPIRE_CACHE@, n.expire_cache);
    assert(!filed(l9).contains_key(key));
    lemma_filed_spelled(l9, EVENTS@, n.events_json());
    assert(!filed(l10).contains_key(key));
    lemma_filed_plain(l10, VARY@, n.vary_value());
    assert(n.lines() == l11);
}

/// A request that lacks the version header does not come from an Unpoly
/// client, and the response to it, asked for at once or after asking whether
/// the request comes from an Unpoly client, has no `Vary` header at all.
pub proof fn lemma_no_version_no_vary(entries: Map<Seq<char>, Seq<u8>>)
    requires
        !entries.contains_key(lowered(VERSION@)),
    ensures
        !Negotiation::initial(Request::parsed(RawRequest::of(entries))).is_up(),
        !filed(
            Negotiation::initial(Request::parsed(RawRequest::of(entries))).after_is_up().lines(),
        ).contains_key(lowered(VARY@)),
        !filed(Negotiation::initial(Request::parsed(RawRequest::of(entries))).lines()).contains_key(
            lowered(VARY@),
        ),
{
    let n = Negotiation::initial(Request::parsed(RawRequest::of(entries)));
    lemma_vary_header(n);
    lemma_vary_header(n.after_is_up());
}

/// Without the version header, reading the context and the fields to
/// validate, and asking whether the request comes from an Unpoly client,
/// note nothing.
pub proof fn lemma_no_version_notes_nothing(n: Negotiation)
    requires
        n.request.version is None,
    ensures
        n.after_is_up() == n,
        n.after_context() == n,
        n.after_validate() == n,
{
}

/// The names in a `Vary` header are the wire names of the noted headers and
/// of no others, each once, in strictly increasing order. The header is
/// these names joined by commas.
pub proof fn lemma_vary_sorted(set: Set<RequestHeader>)
    ensures
        vary_text(set) == joined(vary_names(set)),
        forall|i: int, j: int|
            0 <= i < j < vary_names(set).len() ==> text_before(
                #[trigger] vary_names(set)[i],
                #[trigger] vary_names(set)[j],
            ),
        forall|i: int|
            0 <= i < vary_names(set).len() ==> names_member(set, 8, #[trigger] vary_names(set)[i]),
        forall|h: RequestHeader|
            set.contains(h) ==> vary_names(set).contains(#[trigger] h.wire_name()),
{
    lemma_vary_names_sorted(set, 8);
    lemma_vary_names_members(set, 8);
}

/// The `Vary` header depends on which headers were noted, not on the order
/// in which they were: noting two headers in either order gives the same
/// state.
pub proof fn lemma_noting_commutes(n: Negotiation, g: RequestHeader, h: RequestHeader)
    ensures
        n.noting(g).noting(h) == n.noting(h).noting(g),
        n.noting(g).noting(g) == n.noting(g),
        n.noting(g).noting(h).vary_value() == n.noting(h).noting(g).vary_value(),
{
    assert(n.vary.insert(g).insert(h) =~= n.vary.insert(h).insert(g));
    assert(n.vary.insert(g).insert(g) =~= n.vary.insert(g));
}

/// Reading the mode, the target, the context and the fields to validate in
/// any order notes the same headers.
pub proof fn lemma_reads_commute(n: Negotiation)
    ensures
        n.after_mode().after_target() == n.after_target().after_mode(),
        n.after_mode().after_context() == n.after_context().after_mode(),
        n.after_mode().after_validate() == n.after_validate().after_mode(),
        n.after_target().after_context() == n.after_context().after_target(),
        n.after_target().after_validate() == n.after_validate().after_target(),
        n.after_context().after_validate() == n.after_validate().after_context(),
        n.after_is_up().after_mode() == n.after_mode().after_is_up(),
        n.after_is_up().after_target() == n.after_target().after_is_up(),
        n.after_is_up().after_context() == n.after_context().after_is_up(),
        n.after_is_up().after_validate() == n.after_validate().after_is_up(),
{
    assert(forall|s: Set<RequestHeader>, g: RequestHeader, h: RequestHeader|
        #[trigger] s.insert(g).insert(h) =~= s.insert(h).insert(g));
    assert(forall|s: Set<RequestHeader>, g: RequestHeader| #[trigger]
        s.insert(g).insert(g) =~= s.insert(g));
}

/// No operation takes a header out of the vary set.
pub proof fn lemma_vary_grows(
    n: Negotiation,
    success: bool,
    kind: Seq<char>,
    value: Json,
    layer: MatchingLayer,
)
    ensures
        n.vary.subset_of(n.after_is_up().vary),
        n.vary.subset_of(n.with_success(success).vary),
        n.vary.subset_of(n.after_mode().vary),
        n.vary.subset_of(n.after_context().vary),
        n.vary.subset_of(n.after_target().vary),
        n.vary.subset_of(n.after_validate().vary),
        n.accepting(value).vary == n.vary,
        n.dismissing(value).vary == n.vary,
        n.with_context(value).vary == n.vary,
        n.with_event(kind, value).vary == n.vary,
        n.with_layer_event(kind, value, layer).vary == n.vary,
{
}

/// After deciding for success the target in force is the request's target,
/// after deciding for failure its fail target, however often and in whatever
/// way the decision was made before.
pub proof fn lemma_target_follows_success(n: Negotiation, success: bool)
    ensures
        n.with_success(success).current_target() == if success {
            n.request.target
        } else {
            n.request.fail_target
        },
        n.with_success(!success).with_success(success).current_target() == n.with_success(
            success,
        ).current_target(),
        n.with_success(success).current_mode() == if success {
            n.request.mode
        } else {
            n.request.fail_mode
        },
{
}

/// A context set for the response is the context in force, whatever the
/// decision for success or failure, before or after it is set.
pub proof fn lemma_set_context_wins(n: Negotiation, value: Json, success: bool)
    ensures
        n.with_context(value).current_context() == Some(value),
        n.with_context(value).with_success(success).current_context() == Some(value),
        n.with_success(success).with_context(value).current_context() == Some(value),
        n.with_context(value).after_context() == n.with_context(value),
{
}

/// The overlay is never both accepted and dismissed: the later answer takes
/// the place of the earlier one.
pub proof fn lemma_layer_answers_exclude(n: Negotiation, x: Json, y: Json)
    ensures
        !(n.accept_value() is Some && n.dismiss_value() is Some),
        n.dismissing(y).accepting(x).layer == LayerAnswer::Accept(x),
        n.dismissing(y).accepting(x).accept_value() == Some(x),
        n.dismissing(y).accepting(x).dismiss_value() is None,
        n.accepting(x).dismissing(y).layer == LayerAnswer::Dismiss(y),
        n.accepting(x).dismissing(y).dismiss_value() == Some(y),
        n.accepting(x).dismissing(y).accept_value() is None,
{
}

/// Setting a key of an object gives the key that value and leaves every
/// other entry as it was, in its place. The object grows by one entry where
/// the key is new, and keeps its length where it is not.
pub proof fn lemma_with_entry(entries: Seq<(Seq<char>, Json)>, key: Seq<char>, value: Json)
    ensures
        has_key(with_entry(entries, key, value), key),
        with_entry(entries, key, value).len() == if has_key(entries, key) {
            entries.len()
        } else {
            entries.len() + 1
        },
        forall|i: int|
            0 <= i < entries.len() && (#[trigger] entries[i]).0 != key ==> with_entry(
                entries,
                key,
                value,
            )[i] == entries[i],
        exists|i: int|
            0 <= i < with_entry(entries, key, value).len() && #[trigger] with_entry(
                entries,
                key,
                value,
            )[i] == (key, value),
    decreases entries.len(),
{
    let out = with_entry(entries, key, value);
    if entries.len() == 0 {
        assert(out[0] == (key, value));
        assert(!has_key(entries, key));
    } else if entries[0].0 == key {
        assert(out[0] == (key, value));
        assert(has_key(entries, key));
    } else {
        let rest = entries.drop_first();
        lemma_with_entry(rest, key, value);
        let inner = with_entry(rest, key, value);
        let k = choose|i: int| 0 <= i < inner.len() && #[trigger] inner[i] == (key, value);
        assert(out[k + 1] == inner[k]);
        assert(out[k + 1] == (key, value));
        if has_key(rest, key) {
            let j = choose|i: int| 0 <= i < rest.len() && (#[trigger] rest[i]).0 == key;
            assert(entries[j + 1] == rest[j]);
            assert(has_key(entries, key));
        }
        if has_key(entries, key) {
            let j = choose|i: int| 0 <= i < entries.len() && (#[trigger] entries[i]).0 == key;
            assert(rest[j - 1] == entries[j]);
            assert(has_key(rest, key));
        }
        assert forall|i: int| 0 <= i < entries.len() && (#[trigger] entries[i]).0
            != key implies out[i] == entries[i] by {
            if i > 0 {
                assert(rest[i - 1] == entries[i]);
                assert(out[i] == inner[i - 1]);
            }
        }
    }
}

/// The events keep the order in which they were added: a new event goes
/// last and leaves the earlier ones as they were. It is the payload with its
/// key `type` set, and for a layer with its key `layer` set as well.
pub proof fn lemma_events_append(
    n: Negotiation,
    kind: Seq<char>,
    entries: Seq<(Seq<char>, Json)>,
    layer: MatchingLayer,
)
    ensures
        n.with_event(kind, Json::Object(entries)).events.len() == n.events.len() + 1,
        n.with_event(kind, Json::Object(entries)).events.drop_last() == n.events,
        n.with_event(kind, Json::Object(entries)).events.last() == Json::Object(
            with_entry(entries, "type"@, Json::String(kind)),
        ),
        n.with_layer_event(kind, Json::Object(entries), layer).events.drop_last() == n.events,
        n.with_layer_event(kind, Json::Object(entries), layer).events.last() == Json::Object(
            with_entry(
                with_entry(entries, "layer"@, layer.json()),
                "type"@,
                Json::String(kind),
            ),
        ),
{
    assert(n.with_event(kind, Json::Object(entries)).events.drop_last() =~= n.events);
    assert(n.with_layer_event(kind, Json::Object(entries), layer).events.drop_last()
        =~= n.events);
}

/// The invariant of negotiations holds at the start and is kept by every
/// operation. An event is counted only where its payload is an object, as
/// the operation that adds it demands.
pub proof fn lemma_inv_kept(
    n: Negotiation,
    request: Request,
    success: bool,
    kind: Seq<char>,
    value: Json,
    layer: MatchingLayer,
    text: Seq<char>,
)
    requires
        n.inv(),
    ensures
        Negotiation::initial(request).inv(),
        n.after_is_up().inv(),
        n.with_success(success).inv(),
        n.after_mode().inv(),
        n.after_context().inv(),
        n.after_target().inv(),
        n.after_validate().inv(),
        n.accepting(value).inv(),
        n.dismissing(value).inv(),
        n.with_context(value).inv(),
        (Negotiation { target: Some(text), ..n }).inv(),
        (Negotiation { title: Some(text), ..n }).inv(),
        (Negotiation { location: Some(text), ..n }).inv(),
        (Negotiation { method: Some(text), ..n }).inv(),
        (Negotiation { evict_cache: Some(text), ..n }).inv(),
        (Negotiation { expire_cache: Some(text), ..n }).inv(),
        value is Object ==> n.with_event(kind, value).inv(),
        value is Object ==> n.with_layer_event(kind, value, layer).inv(),
{
    if value is Object {
        let entries = value->Object_0;
        lemma_with_entry(entries, "type"@, Json::String(kind));
        lemma_with_entry(with_entry(entries, "layer"@, layer.json()), "type"@, Json::String(kind));
    }
}

} // verus!
