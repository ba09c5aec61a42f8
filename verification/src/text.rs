//! Texts: what is shown of a body, and letters in upper case.

use vstd::prelude::*;
use vstd::string::{StrSliceExecFns, StringExecFns};
use vstd::utf8::{decode_utf8, valid_utf8};

verus! {

/// How many characters of a body an error keeps.
pub const EXCERPT_LEN: usize = 200;

/// The characters that `String::from_utf8_lossy` reads from bytes.
pub uninterp spec fn lossy_utf8(bytes: Seq<u8>) -> Seq<char>;

/// The characters that `char::to_uppercase` gives for one.
pub uninterp spec fn uppercased(c: char) -> Seq<char>;

/// The first characters of a text, at most as many as an error keeps.
pub open spec fn excerpt_of(text: Seq<char>) -> Seq<char> {
    if text.len() > EXCERPT_LEN {
        text.take(EXCERPT_LEN as int)
    } else {
        text
    }
}

/// `String::from_utf8_lossy` reads UTF-8, and puts a replacement character where the bytes are
/// not UTF-8; how many it puts there is left unsaid.
#[verifier::external_body]
fn from_utf8_lossy(bytes: &[u8]) -> (s: String)
    ensures
        s@ == lossy_utf8(bytes@),
        valid_utf8(bytes@) ==> s@ == decode_utf8(bytes@),
{
    String::from_utf8_lossy(bytes).into_owned()
}

/// `char::to_uppercase` gives the upper case of a character, which can be several characters.
/// Among ASCII characters it changes the letters from `a` to `z` and no other, so that what it
/// gives for one it leaves as it is.
#[verifier::external_body]
pub(crate) fn uppercase(c: char) -> (s: String)
    ensures
        s@ == uppercased(c),
        'a' <= c <= 'z' ==> s@ == seq![((c as u32 - 32) as u32) as char],
        c <= '\x7f' && !('a' <= c <= 'z') ==> s@ == seq![c],
        c <= '\x7f' ==> uppercased(s@[0]) == s@,
{
    c.to_uppercase().collect()
}

/// The part of a text that an error keeps.
pub fn excerpt(text: &str) -> (s: String)
    ensures
        s@ == excerpt_of(text@),
        text@.len() <= 200 ==> s@ == text@,
        text@.len() > 200 ==> s@ == text@.take(200),
{
    if text.unicode_len() > EXCERPT_LEN {
        text.substring_char(0, EXCERPT_LEN).to_string()
    } else {
        text.to_string()
    }
}

/// The part of a body that an error keeps, read as UTF-8 as far as it is.
pub fn body_excerpt(body: &[u8]) -> (s: String)
    ensures
        s@ == excerpt_of(lossy_utf8(body@)),
        valid_utf8(body@) ==> s@ == excerpt_of(decode_utf8(body@)),
        lossy_utf8(body@).len() <= 200 ==> s@ == lossy_utf8(body@),
        lossy_utf8(body@).len() > 200 ==> s@ == lossy_utf8(body@).take(200),
{
    let text = from_utf8_lossy(body);
    excerpt(text.as_str())
}

/// An excerpt begins as the text does, is never longer than 200 characters, and is shorter only
/// where the text is.
pub proof fn law_excerpt_is_the_beginning(text: Seq<char>)
    ensures
        excerpt_of(text).len() == if text.len() < 200 { text.len() } else { 200 },
        forall|i: int| 0 <= i < text.len() && i < 200 ==> #[trigger] excerpt_of(text)[i] == text[i],
{
}

/// Joins two texts.
pub(crate) fn join(a: &str, b: &str) -> (s: String)
    ensures
        s@ == a@ + b@,
{
    a.to_string().concat(b)
}

}
