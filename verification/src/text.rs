//! Text handling that rests on the standard library: decoding captured
//! output and trimming it.

use vstd::prelude::*;
use vstd::utf8::{decode_utf8, valid_utf8};

verus! {

/// Whether `c` is white space to `str::trim`: whether it has the Unicode
/// property `White_Space`, as `char::is_whitespace` tells.
pub uninterp spec fn white_space(c: char) -> bool;

/// What the error says with which `String::from_utf8` turns down `bytes`:
/// the text that its `Display` writes.
pub uninterp spec fn utf8_error_text(bytes: Seq<u8>) -> Seq<char>;

/// `s` without its leading white space.
pub open spec fn trim_start(s: Seq<char>) -> Seq<char>
    decreases s.len(),
{
    if s.len() > 0 && white_space(s[0]) {
        trim_start(s.drop_first())
    } else {
        s
    }
}

/// `s` without its trailing white space.
pub open spec fn trim_end(s: Seq<char>) -> Seq<char>
    decreases s.len(),
{
    if s.len() > 0 && white_space(s.last()) {
        trim_end(s.drop_last())
    } else {
        s
    }
}

/// `s` without its leading and trailing white space.
pub open spec fn trimmed(s: Seq<char>) -> Seq<char> {
    trim_end(trim_start(s))
}

/// What `trim_start` removes is white space, all of it: what is left is the
/// end of the text, and does not begin with white space.
pub proof fn lemma_trim_start(s: Seq<char>)
    ensures
        trim_start(s).len() <= s.len(),
        trim_start(s) == s.subrange(s.len() - trim_start(s).len(), s.len() as int),
        forall|i: int| 0 <= i < s.len() - trim_start(s).len() ==> white_space(#[trigger] s[i]),
        trim_start(s).len() > 0 ==> !white_space(trim_start(s).first()),
    decreases s.len(),
{
    if s.len() > 0 && white_space(s[0]) {
        let rest = s.drop_first();
        let left = trim_start(rest);
        lemma_trim_start(rest);
        assert(left =~= s.subrange(s.len() - left.len(), s.len() as int));
        assert forall|i: int| 0 <= i < s.len() - left.len() implies white_space(#[trigger] s[i]) by {
            if i > 0 {
                assert(s[i] == rest[i - 1]);
            }
        }
    } else {
        assert(s =~= s.subrange(0, s.len() as int));
    }
}

/// What `trim_end` removes is white space, all of it: what is left is the
/// start of the text, and does not end with white space.
pub proof fn lemma_trim_end(s: Seq<char>)
    ensures
        trim_end(s).len() <= s.len(),
        trim_end(s) == s.subrange(0, trim_end(s).len() as int),
        forall|i: int| trim_end(s).len() <= i < s.len() ==> white_space(#[trigger] s[i]),
        trim_end(s).len() > 0 ==> !white_space(trim_end(s).last()),
    decreases s.len(),
{
    if s.len() > 0 && white_space(s.last()) {
        let rest = s.drop_last();
        let left = trim_end(rest);
        lemma_trim_end(rest);
        assert(left =~= s.subrange(0, left.len() as int));
        assert forall|i: int| left.len() <= i < s.len() implies white_space(#[trigger] s[i]) by {
            if i < s.len() - 1 {
                assert(s[i] == rest[i]);
            }
        }
    } else {
        assert(s =~= s.subrange(0, s.len() as int));
    }
}

/// Trimming leaves one stretch of the text, with nothing but white space
/// before it and after it; where anything is left, it neither begins nor
/// ends with white space.
pub proof fn lemma_trimmed(s: Seq<char>)
    ensures
        ({
            let from = s.len() - trim_start(s).len();
            let to = from + trimmed(s).len();
            &&& 0 <= from <= to <= s.len()
            &&& trimmed(s) == s.subrange(from, to)
            &&& forall|i: int| 0 <= i < from ==> white_space(#[trigger] s[i])
            &&& forall|i: int| to <= i < s.len() ==> white_space(#[trigger] s[i])
        }),
        trimmed(s).len() > 0 ==> !white_space(trimmed(s).first()) && !white_space(
            trimmed(s).last(),
        ),
{
    let started = trim_start(s);
    let from = s.len() - started.len();
    let to = from + trimmed(s).len();
    lemma_trim_start(s);
    lemma_trim_end(started);
    assert(trimmed(s) =~= s.subrange(from, to));
    assert forall|i: int| to <= i < s.len() implies white_space(#[trigger] s[i]) by {
        assert(s[i] == started[i - from]);
    }
    if trimmed(s).len() > 0 {
        assert(trimmed(s).first() == started.first());
    }
}

/// `str::trim` returns the slice that is left when the leading and the
/// trailing characters with the property `White_Space` are removed: what is
/// left neither begins nor ends with such a character.
pub assume_specification[ str::trim ](s: &str) -> (r: &str)
    ensures
        r@ == trimmed(s@),
        r@.len() > 0 ==> !white_space(r@.first()) && !white_space(r@.last()),
;

/// Calls `String::from_utf8`, which accepts exactly the byte strings that are
/// valid UTF-8 and yields the characters that they encode. Where it turns
/// the bytes down, the text of its error is handed on.
#[verifier::external_body]
pub(crate) fn decode_text(bytes: Vec<u8>) -> (r: Result<String, String>)
    ensures
        r is Ok <==> valid_utf8(bytes@),
        r matches Ok(text) ==> text@ == decode_utf8(bytes@),
        r matches Err(detail) ==> detail@ == utf8_error_text(bytes@),
{
    match String::from_utf8(bytes) {
        Ok(text) => Ok(text),
        Err(e) => Err(e.to_string()),
    }
}

} // verus!
