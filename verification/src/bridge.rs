use base64::Engine;
use vstd::prelude::*;

verus! {

/// Whether a character has the Unicode `White_Space` property, as
/// `char::is_whitespace` decides it: the ASCII whitespace controls and
/// space, next line, no-break space, ogham space mark, the typographic
/// spaces, the two line separators, and the narrow, mathematical and
/// ideographic spaces.
pub open spec fn is_unicode_ws(c: char) -> bool {
    ||| 0x9 <= c as int && c as int <= 0xD
    ||| c as int == 0x20
    ||| c as int == 0x85
    ||| c as int == 0xA0
    ||| c as int == 0x1680
    ||| 0x2000 <= c as int && c as int <= 0x200A
    ||| c as int == 0x2028
    ||| c as int == 0x2029
    ||| c as int == 0x202F
    ||| c as int == 0x205F
    ||| c as int == 0x3000
}

/// Relies on `char::is_whitespace`: true exactly for the characters with
/// the Unicode `White_Space` property, the fixed set that `is_unicode_ws`
/// lists.
#[verifier::external_body]
pub(crate) fn is_ws_char(c: char) -> (r: bool)
    ensures
        r == is_unicode_ws(c),
{
    c.is_whitespace()
}

/// The percent-encoding of a string as `urlencoding::encode` produces it:
/// every byte of the UTF-8 form except ASCII alphanumerics and `-`, `_`,
/// `.`, `~` becomes `%` followed by two hex digits. The byte-level expansion
/// is not restated over the character view; the result depends on the string
/// alone.
pub uninterp spec fn url_encoded(s: Seq<char>) -> Seq<char>;

/// Whether a character is left unchanged by percent-encoding: an ASCII
/// alphanumeric or one of `-`, `_`, `.`, `~`.
pub open spec fn url_safe_char(c: char) -> bool {
    ||| 97 <= c as int && c as int <= 122
    ||| 65 <= c as int && c as int <= 90
    ||| 48 <= c as int && c as int <= 57
    ||| c == '-'
    ||| c == '_'
    ||| c == '.'
    ||| c == '~'
}

/// Relies on `urlencoding::encode`: percent-encodes every byte except
/// alphanumerics and `-`, `_`, `.`, `~`; a string made only of those
/// characters comes back unchanged, and an empty string stays empty.
#[verifier::external_body]
pub(crate) fn url_encode(s: &str) -> (r: String)
    ensures
        r@ == url_encoded(s@),
        (forall|i: int| 0 <= i < s@.len() ==> url_safe_char(s@[i])) ==> r@ == s@,
        s@.len() == 0 ==> r@.len() == 0,
{
    urlencoding::encode(s).into_owned()
}

/// The standard (padded) base64 encoding of a byte sequence, as
/// `base64::engine::general_purpose::STANDARD` produces it. The alphabet
/// expansion is not restated; the result depends on the bytes alone.
pub uninterp spec fn base64_of(bytes: Seq<u8>) -> Seq<char>;

/// Relies on `base64::Engine::encode` with the `STANDARD` engine: the padded
/// base64 text of the input bytes, four characters for every three bytes
/// begun; empty input gives empty output. The length bound keeps the
/// engine's internal size computation from overflowing.
#[verifier::external_body]
pub(crate) fn base64_encode(bytes: &Vec<u8>) -> (r: String)
    requires
        bytes@.len() < 0x4000_0000_0000_0000,
    ensures
        r@ == base64_of(bytes@),
        bytes@.len() == 0 ==> r@.len() == 0,
{
    base64::engine::general_purpose::STANDARD.encode(bytes)
}

} // verus!
