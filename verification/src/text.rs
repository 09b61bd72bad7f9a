//! Small verified helpers on strings: comparison and splitting on white
//! space.
use vstd::prelude::*;
use vstd::string::*;

verus! {

/// Whether two strings hold the same characters.
pub fn same_text(a: &str, b: &str) -> (r: bool)
    ensures
        r == (a@ == b@),
{
    let x = a.as_bytes();
    let y = b.as_bytes();
    proof {
        vstd::utf8::encode_utf8_decode_utf8(a@);
        vstd::utf8::encode_utf8_decode_utf8(b@);
    }
    if x.len() != y.len() {
        return false;
    }
    let mut i: usize = 0;
    while i < x.len()
        invariant
            i <= x.len(),
            x.len() == y.len(),
            x@ == a.spec_bytes(),
            y@ == b.spec_bytes(),
            forall|j: int| 0 <= j < i ==> x@[j] == y@[j],
        decreases x.len() - i,
    {
        if x[i] != y[i] {
            return false;
        }
        i = i + 1;
    }
    assert(x@ =~= y@);
    true
}

/// Whether a character is white space, that is, has the Unicode property
/// `White_Space`: the tab, the line feed, the vertical tab, the form feed,
/// the carriage return, the space, the next line, the no-break space, the
/// Ogham space mark, the spaces from the en quad to the hair space, the line
/// and the paragraph separator, the narrow no-break space, the medium
/// mathematical space and the ideographic space.
pub open spec fn is_space(c: char) -> bool {
    ||| '\u{9}' <= c <= '\u{d}'
    ||| c == ' '
    ||| c == '\u{85}'
    ||| c == '\u{a0}'
    ||| c == '\u{1680}'
    ||| '\u{2000}' <= c <= '\u{200a}'
    ||| c == '\u{2028}'
    ||| c == '\u{2029}'
    ||| c == '\u{202f}'
    ||| c == '\u{205f}'
    ||| c == '\u{3000}'
}

/// `char::is_whitespace`: whether the character has the Unicode property
/// `White_Space`.
#[verifier::external_body]
pub(crate) fn char_is_space(c: char) -> (b: bool)
    ensures
        b == is_space(c),
{
    c.is_whitespace()
}

/// `String::push`: appends one character.
#[verifier::external_body]
pub(crate) fn push_char(s: &mut String, c: char)
    ensures
        final(s)@ == old(s)@.push(c),
{
    s.push(c)
}

/// The words of a text: its maximal runs of characters that are not white
/// space, in the order in which they occur.
pub open spec fn words(s: Seq<char>) -> Seq<Seq<char>>
    decreases s.len(),
{
    if s.len() == 0 {
        Seq::empty()
    } else if is_space(s.last()) {
        words(s.drop_last())
    } else if s.len() >= 2 && !is_space(s[s.len() - 2]) {
        let before = words(s.drop_last());
        before.drop_last().push(before.last().push(s.last()))
    } else {
        words(s.drop_last()).push(seq![s.last()])
    }
}

/// No word is empty, and none holds white space.
pub proof fn lemma_words_plain(s: Seq<char>)
    ensures
        forall|i: int| 0 <= i < words(s).len() ==> (#[trigger] words(s)[i]).len() > 0,
        forall|i: int, j: int|
            0 <= i < words(s).len() && 0 <= j < words(s)[i].len() ==> !is_space(
                #[trigger] words(s)[i][j],
            ),
        s.len() > 0 && !is_space(s.last()) ==> words(s).len() > 0,
    decreases s.len(),
{
    if s.len() > 0 {
        lemma_words_plain(s.drop_last());
        let before = words(s.drop_last());
        let all = words(s);
        if is_space(s.last()) {
        } else if s.len() >= 2 && !is_space(s[s.len() - 2]) {
            assert(s.drop_last().last() == s[s.len() - 2]);
            let grown = before.last().push(s.last());
            assert(all == before.drop_last().push(grown));
            assert forall|i: int| 0 <= i < all.len() implies (#[trigger] all[i]).len() > 0 by {
                if i < all.len() - 1 {
                    assert(all[i] == before[i]);
                }
            }
            assert forall|i: int, j: int|
                0 <= i < all.len() && 0 <= j < all[i].len() implies !is_space(
                #[trigger] all[i][j],
            ) by {
                if i < all.len() - 1 {
                    assert(all[i] == before[i]);
                } else if j < grown.len() - 1 {
                    assert(grown[j] == before.last()[j]);
                    assert(before.last() == before[before.len() - 1]);
                }
            }
        } else {
            assert(all == before.push(seq![s.last()]));
            assert forall|i: int| 0 <= i < all.len() implies (#[trigger] all[i]).len() > 0 by {
                if i < all.len() - 1 {
                    assert(all[i] == before[i]);
                }
            }
            assert forall|i: int, j: int|
                0 <= i < all.len() && 0 <= j < all[i].len() implies !is_space(
                #[trigger] all[i][j],
            ) by {
                if i < all.len() - 1 {
                    assert(all[i] == before[i]);
                }
            }
        }
    }
}

/// A text without white space is its own single word, and a text of white
/// space only has no word.
pub proof fn lemma_words_simple(s: Seq<char>)
    ensures
        s.len() > 0 && (forall|i: int| 0 <= i < s.len() ==> !is_space(#[trigger] s[i]))
            ==> words(s) == seq![s],
        (forall|i: int| 0 <= i < s.len() ==> is_space(#[trigger] s[i])) ==> words(s)
            == Seq::<Seq<char>>::empty(),
    decreases s.len(),
{
    if s.len() > 0 {
        lemma_words_simple(s.drop_last());
        let init = s.drop_last();
        if forall|i: int| 0 <= i < s.len() ==> !is_space(#[trigger] s[i]) {
            assert forall|i: int| 0 <= i < init.len() implies !is_space(#[trigger] init[i]) by {
                assert(init[i] == s[i]);
            }
            assert(!is_space(s.last()));
            if s.len() >= 2 {
                assert(!is_space(s[s.len() - 2]));
                assert(words(init) == seq![init]);
                assert(init.push(s.last()) =~= s);
                assert(seq![init].drop_last().push(seq![init].last().push(s.last())) =~= seq![s]);
            } else {
                assert(words(init) =~= Seq::<Seq<char>>::empty());
                assert(seq![s.last()] =~= s);
                assert(words(init).push(seq![s.last()]) =~= seq![s]);
            }
        }
        if forall|i: int| 0 <= i < s.len() ==> is_space(#[trigger] s[i]) {
            assert forall|i: int| 0 <= i < init.len() implies is_space(#[trigger] init[i]) by {
                assert(init[i] == s[i]);
            }
            assert(is_space(s.last()));
        }
    }
}

/// The views of a list of strings, in order.
pub open spec fn texts(items: Seq<String>) -> Seq<Seq<char>> {
    Seq::new(items.len(), |i: int| items[i]@)
}

/// Splits a text on white space. No word is empty and none holds white
/// space.
pub fn split_words(s: &str) -> (r: Vec<String>)
    ensures
        texts(r@) == words(s@),
{
    let mut done: Vec<String> = Vec::new();
    let mut word = String::new();
    let mut open = false;
    for c in it: s.chars()
        invariant
            it.seq() == s@,
            open ==> it.index() > 0 && !is_space(s@[it.index() - 1]) && word@.len() > 0,
            !open ==> word@.len() == 0 && (it.index() == 0 || is_space(s@[it.index() - 1])),
            words(s@.take(it.index() as int)) == if open {
                texts(done@).push(word@)
            } else {
                texts(done@)
            },
    {
        let ghost k = it.index() as int;
        let ghost before = s@.take(k);
        let ghost now = s@.take(k + 1);
        proof {
            assert(now.drop_last() =~= before);
            assert(now.last() == c);
            if k > 0 {
                assert(now[now.len() - 2] == s@[k - 1]);
            }
        }
        if char_is_space(c) {
            if open {
                let finished = word;
                proof {
                    assert(texts(done@.push(finished)) =~= texts(done@).push(finished@));
                }
                done.push(finished);
                word = String::new();
                open = false;
            }
        } else {
            proof {
                if open {
                    assert(texts(done@).push(word@).drop_last() =~= texts(done@));
                } else {
                    assert(word@.push(c) =~= seq![c]);
                }
            }
            push_char(&mut word, c);
            open = true;
        }
    }
    proof {
        assert(s@.take(s@.len() as int) =~= s@);
    }
    if open {
        proof {
            assert(texts(done@.push(word)) =~= texts(done@).push(word@));
        }
        done.push(word);
    }
    done
}

} // verus!
