//! Percent-encoding of the names and values of a query string. The encoding
//! is that of HTML forms and is left to `form_urlencoded`.

use vstd::prelude::*;

verus! {

/// Whether `c` is a character that the encoding leaves as it is: an ASCII
/// letter or digit, `*`, `-`, `.` or `_`.
pub open spec fn is_plain_char(c: char) -> bool {
    ||| 'a' <= c <= 'z'
    ||| 'A' <= c <= 'Z'
    ||| '0' <= c <= '9'
    ||| c == '*'
    ||| c == '-'
    ||| c == '.'
    ||| c == '_'
}

/// Whether the encoding leaves `text` as it is: every character is plain.
pub open spec fn is_plain(text: Seq<char>) -> bool {
    forall|i: int| 0 <= i < text.len() ==> is_plain_char(#[trigger] text[i])
}

/// What `form_urlencoded` writes for a text: plain characters as they are,
/// a space as `+`, every other byte of the UTF-8 form as `%` and two
/// hexadecimal digits.
pub uninterp spec fn form_encoded(text: Seq<char>) -> Seq<char>;

/// `form_urlencoded::byte_serialize` on the bytes of a text, its pieces
/// joined. The contract names the result [`form_encoded`] and states of it
/// what the callers need: a text of plain characters comes out as it is.
#[verifier::external_body]
pub(crate) fn encode_text(text: &str) -> (r: String)
    ensures
        r@ == form_encoded(text@),
        is_plain(text@) ==> r@ == text@,
{
    form_urlencoded::byte_serialize(text.as_bytes()).collect()
}

/// The text as it stands in a query string.
pub fn encoded(text: &str) -> (r: String)
    ensures
        r@ == form_encoded(text@),
        is_plain(text@) ==> r@ == text@,
{
    encode_text(text)
}

} // verus!
