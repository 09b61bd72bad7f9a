//! The set of request headers on which a response has come to depend.
use vstd::prelude::*;
use vstd::string::*;
use crate::names::{lemma_names_ordered, text_before, RequestHeader};
use crate::wire::{ascii_text, is_value_text};

verus! {

/// The request headers that have influenced the response so far. A header
/// can be added and is never taken out again.
#[derive(Debug, Clone, Copy)]
pub struct VaryTracker {
    context: bool,
    fail_context: bool,
    fail_mode: bool,
    fail_target: bool,
    mode: bool,
    target: bool,
    validate: bool,
    version: bool,
}

/// The wire names of those of the first `k` headers, by rank, that are in
/// the set, in the order of their ranks.
pub open spec fn names_upto(set: Set<RequestHeader>, k: int) -> Seq<Seq<char>>
    decreases k,
{
    if k <= 0 {
        Seq::empty()
    } else {
        let h = RequestHeader::ranked(k - 1);
        let rest = names_upto(set, k - 1);
        if set.contains(h) {
            rest.push(h.wire_name())
        } else {
            rest
        }
    }
}

/// The wire names of the headers in the set, each once, in sorted order.
pub open spec fn vary_names(set: Set<RequestHeader>) -> Seq<Seq<char>> {
    names_upto(set, 8)
}

/// The texts joined with a comma between each two of them, and no spaces.
pub open spec fn joined(parts: Seq<Seq<char>>) -> Seq<char>
    decreases parts.len(),
{
    if parts.len() == 0 {
        Seq::empty()
    } else if parts.len() == 1 {
        parts[0]
    } else {
        joined(parts.drop_last()) + seq![','] + parts.last()
    }
}

/// The value of the `Vary` header for a set of request headers.
pub open spec fn vary_text(set: Set<RequestHeader>) -> Seq<char> {
    joined(vary_names(set))
}

impl View for VaryTracker {
    type V = Set<RequestHeader>;

    closed spec fn view(&self) -> Set<RequestHeader> {
        Set::new(
            |h: RequestHeader|
                match h {
                    RequestHeader::Context => self.context,
                    RequestHeader::FailContext => self.fail_context,
                    RequestHeader::FailMode => self.fail_mode,
                    RequestHeader::FailTarget => self.fail_target,
                    RequestHeader::Mode => self.mode,
                    RequestHeader::Target => self.target,
                    RequestHeader::Validate => self.validate,
                    RequestHeader::Version => self.version,
                },
        )
    }
}

impl VaryTracker {
    /// A tracker that holds no header.
    pub fn new() -> (t: VaryTracker)
        ensures
            t@ == Set::<RequestHeader>::empty(),
    {
        let t = VaryTracker {
            context: false,
            fail_context: false,
            fail_mode: false,
            fail_target: false,
            mode: false,
            target: false,
            validate: false,
            version: false,
        };
        assert(t@ =~= Set::<RequestHeader>::empty());
        t
    }

    /// Whether the header is in the set.
    pub fn contains(&self, h: RequestHeader) -> (b: bool)
        ensures
            b == self@.contains(h),
    {
        match h {
            RequestHeader::Context => self.context,
            RequestHeader::FailContext => self.fail_context,
            RequestHeader::FailMode => self.fail_mode,
            RequestHeader::FailTarget => self.fail_target,
            RequestHeader::Mode => self.mode,
            RequestHeader::Target => self.target,
            RequestHeader::Validate => self.validate,
            RequestHeader::Version => self.version,
        }
    }

    /// Adds a header to the set.
    pub fn insert(&mut self, h: RequestHeader)
        ensures
            final(self)@ == old(self)@.insert(h),
    {
        match h {
            RequestHeader::Context => {
                self.context = true;
            },
            RequestHeader::FailContext => {
                self.fail_context = true;
            },
            RequestHeader::FailMode => {
                self.fail_mode = true;
            },
            RequestHeader::FailTarget => {
                self.fail_target = true;
            },
            RequestHeader::Mode => {
                self.mode = true;
            },
            RequestHeader::Target => {
                self.target = true;
            },
            RequestHeader::Validate => {
                self.validate = true;
            },
            RequestHeader::Version => {
                self.version = true;
            },
        }
        assert(self@ =~= old(self)@.insert(h));
    }

    /// Whether the set holds no header.
    pub fn is_empty(&self) -> (b: bool)
        ensures
            b == (self@ == Set::<RequestHeader>::empty()),
    {
        let b = !(self.context || self.fail_context || self.fail_mode || self.fail_target
            || self.mode || self.target || self.validate || self.version);
        proof {
            if b {
                assert(self@ =~= Set::<RequestHeader>::empty());
            } else {
                assert(self@.contains(RequestHeader::Context) || self@.contains(
                    RequestHeader::FailContext,
                ) || self@.contains(RequestHeader::FailMode) || self@.contains(
                    RequestHeader::FailTarget,
                ) || self@.contains(RequestHeader::Mode) || self@.contains(RequestHeader::Target)
                    || self@.contains(RequestHeader::Validate) || self@.contains(
                    RequestHeader::Version,
                ));
            }
        }
        b
    }

    /// The value of the `Vary` header: the wire names of the headers in the
    /// set, sorted, joined by commas.
    pub fn render(&self) -> (s: String)
        ensures
            s@ == vary_text(self@),
    {
        let mut out = String::new();
        let mut any = false;
        let mut k: u8 = 0;
        while k < 8
            invariant
                k <= 8,
                out@ == joined(names_upto(self@, k as int)),
                any == (names_upto(self@, k as int).len() > 0),
            decreases 8 - k,
        {
            let h = RequestHeader::at(k);
            if self.contains(h) {
                let ghost before = names_upto(self@, k as int);
                proof {
                    reveal_strlit(",");
                    assert(","@ =~= seq![',']);
                    assert(before.push(h.wire_name()).drop_last() =~= before);
                    assert(Seq::<char>::empty() + h.wire_name() =~= h.wire_name());
                }
                if any {
                    out.append(",");
                }
                out.append(h.name());
                any = true;
            }
            k = k + 1;
        }
        out
    }
}

/// Whether a text is the wire name of a member of the set whose rank is
/// below `k`.
pub open spec fn names_member(set: Set<RequestHeader>, k: int, name: Seq<char>) -> bool {
    exists|h: RequestHeader| h.rank() < k && set.contains(h) && name == #[trigger] h.wire_name()
}

/// The names listed for a set are exactly the names of its members.
pub proof fn lemma_vary_names_members(set: Set<RequestHeader>, k: int)
    requires
        0 <= k <= 8,
    ensures
        forall|i: int|
            0 <= i < names_upto(set, k).len() ==> names_member(
                set,
                k,
                #[trigger] names_upto(set, k)[i],
            ),
        forall|h: RequestHeader|
            h.rank() < k && set.contains(h) ==> names_upto(set, k).contains(
                #[trigger] h.wire_name(),
            ),
    decreases k,
{
    let all = names_upto(set, k);
    if k > 0 {
        lemma_vary_names_members(set, k - 1);
        let g = RequestHeader::ranked(k - 1);
        let rest = names_upto(set, k - 1);
        assert forall|i: int| 0 <= i < all.len() implies names_member(set, k, #[trigger] all[i]) by {
            if i < rest.len() {
                assert(all[i] == rest[i]);
                assert(names_member(set, k - 1, rest[i]));
                let h = choose|h: RequestHeader|
                    h.rank() < k - 1 && set.contains(h) && rest[i] == #[trigger] h.wire_name();
                assert(h.rank() < k && set.contains(h) && all[i] == h.wire_name());
            } else {
                assert(g.rank() < k && set.contains(g) && all[i] == g.wire_name());
            }
        }
        assert forall|h: RequestHeader| h.rank() < k && set.contains(h) implies all.contains(
            #[trigger] h.wire_name(),
        ) by {
            if h.rank() < k - 1 {
                assert(rest.contains(h.wire_name()));
                let i = choose|i: int| 0 <= i < rest.len() && rest[i] == h.wire_name();
                assert(all[i] == h.wire_name());
            } else {
                assert(h == g);
                assert(all[all.len() - 1] == h.wire_name());
            }
        }
    } else {
        assert(all.len() == 0);
    }
}

/// The names listed for a set are strictly increasing: they are sorted and
/// none occurs twice.
pub proof fn lemma_vary_names_sorted(set: Set<RequestHeader>, k: int)
    requires
        0 <= k <= 8,
    ensures
        forall|i: int, j: int|
            0 <= i < j < names_upto(set, k).len() ==> text_before(
                #[trigger] names_upto(set, k)[i],
                #[trigger] names_upto(set, k)[j],
            ),
    decreases k,
{
    if k > 0 {
        lemma_vary_names_sorted(set, k - 1);
        lemma_vary_names_members(set, k - 1);
        let g = RequestHeader::ranked(k - 1);
        let rest = names_upto(set, k - 1);
        let all = names_upto(set, k);
        assert forall|i: int, j: int| 0 <= i < j < all.len() implies text_before(
            #[trigger] all[i],
            #[trigger] all[j],
        ) by {
            if j < rest.len() {
                assert(all[i] == rest[i] && all[j] == rest[j]);
            } else {
                assert(all[i] == rest[i]);
                assert(names_member(set, k - 1, rest[i]));
                let h = choose|h: RequestHeader|
                    h.rank() < k - 1 && set.contains(h) && rest[i] == #[trigger] h.wire_name();
                lemma_names_ordered(h, g);
                assert(all[j] == g.wire_name());
            }
        }
    } else {
        assert(names_upto(set, k).len() == 0);
    }
}

/// Whether a text holds nothing but visible ASCII characters, from `!` to
/// `~`.
pub open spec fn is_visible_text(s: Seq<char>) -> bool {
    forall|i: int| 0 <= i < s.len() ==> '!' <= #[trigger] s[i] <= '~'
}

/// Texts of visible ASCII characters, joined, are such a text again.
pub proof fn lemma_joined_visible(parts: Seq<Seq<char>>)
    requires
        forall|i: int| 0 <= i < parts.len() ==> is_visible_text(#[trigger] parts[i]),
    ensures
        is_visible_text(joined(parts)),
    decreases parts.len(),
{
    if parts.len() >= 2 {
        lemma_joined_visible(parts.drop_last());
        assert(is_visible_text(parts.last()));
    } else if parts.len() == 1 {
        assert(is_visible_text(parts[0]));
    }
}

/// A text of visible ASCII characters can be sent as a header value, and a
/// header value that holds it reads as that text.
pub proof fn lemma_visible_text_on_the_wire(s: Seq<char>)
    requires
        is_visible_text(s),
    ensures
        is_value_text(s),
        ascii_text(vstd::utf8::encode_utf8(s)) == s,
{
    assert(vstd::utf8::is_ascii_chars(s)) by {
        assert forall|i: int| 0 <= i < s.len() implies '\0' <= #[trigger] s[i] <= '\u{7f}' by {
            assert('!' <= s[i] <= '~');
        }
    }
    vstd::utf8::is_ascii_chars_encode_utf8(s);
    let bytes = vstd::utf8::encode_utf8(s);
    assert forall|i: int| 0 <= i < bytes.len() implies crate::wire::is_value_byte(
        #[trigger] bytes[i],
    ) by {
        assert('!' <= s[i] <= '~');
        assert(bytes[i] == s[i] as u8);
    }
    assert forall|i: int| 0 <= i < s.len() implies #[trigger] ascii_text(bytes)[i] == s[i] by {
        assert('!' <= s[i] <= '~');
        assert(bytes[i] == s[i] as u8);
    }
    assert(ascii_text(bytes) =~= s);
}

/// The wire name of a request header holds visible ASCII characters only.
pub proof fn lemma_wire_name_visible(h: RequestHeader)
    ensures
        is_visible_text(h.wire_name()),
{
    reveal_strlit("X-Up-Context");
    reveal_strlit("X-Up-Fail-Context");
    reveal_strlit("X-Up-Fail-Mode");
    reveal_strlit("X-Up-Fail-Target");
    reveal_strlit("X-Up-Mode");
    reveal_strlit("X-Up-Target");
    reveal_strlit("X-Up-Validate");
    reveal_strlit("X-Up-Version");
}

/// The value of a `Vary` header holds visible ASCII characters only, so it
/// can always be sent, and a header value that holds it reads as that text.
pub proof fn lemma_vary_text_on_the_wire(set: Set<RequestHeader>)
    ensures
        is_visible_text(vary_text(set)),
        is_value_text(vary_text(set)),
        ascii_text(vstd::utf8::encode_utf8(vary_text(set))) == vary_text(set),
{
    lemma_vary_names_members(set, 8);
    let names = vary_names(set);
    assert forall|i: int| 0 <= i < names.len() implies is_visible_text(#[trigger] names[i]) by {
        assert(names_member(set, 8, names[i]));
        let h = choose|h: RequestHeader|
            h.rank() < 8 && set.contains(h) && names[i] == #[trigger] h.wire_name();
        lemma_wire_name_visible(h);
    }
    lemma_joined_visible(names);
    lemma_visible_text_on_the_wire(vary_text(set));
}

} // verus!
