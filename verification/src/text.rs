//! Comparing and searching text.
use vstd::prelude::*;
use vstd::string::StringSliceAdditionalSpecFns;
use vstd::utf8::encode_utf8_decode_utf8;

verus! {

/// `pattern` occurs in `text`, starting at character `at`.
pub open spec fn occurs_at(pattern: Seq<char>, text: Seq<char>, at: int) -> bool {
    &&& 0 <= at
    &&& at + pattern.len() <= text.len()
    &&& text.subrange(at, at + pattern.len()) == pattern
}

/// `pattern` occurs somewhere in `text`.
pub open spec fn occurs_in(pattern: Seq<char>, text: Seq<char>) -> bool {
    exists|at: int| #[trigger] occurs_at(pattern, text, at)
}

/// Whether two texts hold the same characters.
pub fn same_text(a: &str, b: &str) -> (same: bool)
    ensures
        same == (a@ == b@),
{
    let a_bytes = a.as_bytes();
    let b_bytes = b.as_bytes();
    proof {
        encode_utf8_decode_utf8(a@);
        encode_utf8_decode_utf8(b@);
    }
    if a_bytes.len() != b_bytes.len() {
        return false;
    }
    let mut i: usize = 0;
    while i < a_bytes.len()
        invariant
            i <= a_bytes@.len(),
            a_bytes@.len() == b_bytes@.len(),
            a_bytes@ == a.spec_bytes(),
            b_bytes@ == b.spec_bytes(),
            forall|j: int| 0 <= j < i ==> a_bytes@[j] == b_bytes@[j],
        decreases a_bytes@.len() - i,
    {
        if a_bytes[i] != b_bytes[i] {
            return false;
        }
        i += 1;
    }
    assert(a_bytes@ =~= b_bytes@);
    true
}

/// The characters of a text.
pub fn chars_of(text: &str) -> (chars: Vec<char>)
    ensures
        chars@ == text@,
{
    let mut chars: Vec<char> = Vec::new();
    for c in it: text.chars()
        invariant
            chars@ == it.seq().take(it.index()),
            it.seq() == text@,
    {
        chars.push(c);
    }
    chars
}

/// Whether `pattern` occurs in `text`.
pub fn contains_text(text: &str, pattern: &str) -> (found: bool)
    ensures
        found == occurs_in(pattern@, text@),
{
    let hay: Vec<char> = chars_of(text);
    let needle: Vec<char> = chars_of(pattern);
    if needle.len() > hay.len() {
        return false;
    }
    let last: usize = hay.len() - needle.len();
    let mut at: usize = 0;
    while at <= last
        invariant
            hay@ == text@,
            needle@ == pattern@,
            last + needle.len() == hay.len(),
            at <= last + 1,
            forall|k: int| 0 <= k < at ==> !occurs_at(pattern@, text@, k),
        decreases last + 1 - at,
    {
        let mut i: usize = 0;
        while i < needle.len() && hay[at + i] == needle[i]
            invariant
                hay@ == text@,
                needle@ == pattern@,
                last + needle.len() == hay.len(),
                at <= last,
                i <= needle@.len(),
                forall|j: int| 0 <= j < i ==> #[trigger] hay@[at + j] == needle@[j],
            decreases needle@.len() - i,
        {
            i += 1;
        }
        if i == needle.len() {
            assert forall|j: int| 0 <= j < pattern@.len() implies text@[at + j] == pattern@[j] by {
                assert(hay@[at + j] == needle@[j]);
            }
            assert(text@.subrange(at as int, at + pattern@.len()) =~= pattern@);
            assert(occurs_at(pattern@, text@, at as int));
            return true;
        }
        assert(!occurs_at(pattern@, text@, at as int)) by {
            assert(text@.subrange(at as int, at + pattern@.len())[i as int] != pattern@[i as int]);
        }
        if at == last {
            return false;
        }
        at += 1;
    }
    false
}

/// A text is found in another exactly if the other is made of something, that text, and something
/// more.
pub proof fn law_found_text_is_part_of_the_text(
    text: &str,
    pattern: &str,
    found: bool,
    before: Seq<char>,
    after: Seq<char>,
)
    requires
        call_ensures(contains_text, (text, pattern), found),
    ensures
        text@ == before + pattern@ + after ==> found,
        found ==> exists|front: Seq<char>, back: Seq<char>| text@ == #[trigger] (front + pattern@ + back),
{
    if text@ == before + pattern@ + after {
        let at = before.len() as int;
        assert(text@.subrange(at, at + pattern@.len()) =~= pattern@);
        assert(occurs_at(pattern@, text@, at));
    }
    if found {
        let at = choose|at: int| occurs_at(pattern@, text@, at);
        let front = text@.take(at);
        let back = text@.skip(at + pattern@.len());
        assert(text@ =~= front + pattern@ + back);
    }
}

/// Two texts are the same exactly if each of their characters is.
pub proof fn law_same_texts_have_the_same_characters(a: &str, b: &str, same: bool)
    requires
        call_ensures(same_text, (a, b), same),
    ensures
        same <==> a@.len() == b@.len() && forall|i: int|
            0 <= i < a@.len() ==> #[trigger] a@[i] == b@[i],
{
    if a@.len() == b@.len() && forall|i: int| 0 <= i < a@.len() ==> #[trigger] a@[i] == b@[i] {
        assert(a@ =~= b@);
    }
}

/// The characters of a text are all of its characters, in their order.
pub proof fn law_every_character_is_taken(text: &str, chars: Vec<char>, i: int)
    requires
        call_ensures(chars_of, (text,), chars),
    ensures
        chars@.len() == text@.len(),
        0 <= i < text@.len() ==> chars@[i] == text@[i],
{
}

} // verus!
