//! Turning bytes into text: UTF-8 decoding, and ASCII as the special case
//! that header values are made of.
use vstd::prelude::*;
use vstd::utf8::*;

verus! {

broadcast use vstd::utf8::group_utf8_lib;

/// The text that std's `FromUtf8Error` displays for bytes that are not
/// valid UTF-8 (it says where the first invalid sequence begins and how long
/// it is, both found from the bytes alone).
pub uninterp spec fn utf8_error_text(bytes: Seq<u8>) -> Seq<char>;

/// std's `String::from_utf8`, with its error turned into the text that it
/// displays: the bytes become the contents of the string when they are valid
/// UTF-8, and the call fails otherwise. The contract claims exactly that:
/// `Ok` if and only if the bytes are valid UTF-8 (vstd's `valid_utf8`), and
/// then the string's UTF-8 encoding is those bytes; on failure the text is
/// `utf8_error_text` of the bytes. What that text says is left unsaid.
#[verifier::external_body]
pub(crate) fn string_from_utf8(bytes: Vec<u8>) -> (r: Result<String, String>)
    ensures
        r is Ok <==> valid_utf8(bytes@),
        r matches Ok(s) ==> encode_utf8(s@) == bytes@,
        r matches Err(text) ==> text@ == utf8_error_text(bytes@),
{
    match String::from_utf8(bytes) {
        Ok(s) => Ok(s),
        Err(e) => Err(format!("{}", e)),
    }
}

/// Every byte is below 128.
pub open spec fn all_ascii(b: Seq<u8>) -> bool {
    forall|i: int| 0 <= i < b.len() ==> #[trigger] b[i] < 128
}

/// The characters that ASCII bytes stand for.
pub open spec fn ascii_chars(b: Seq<u8>) -> Seq<char> {
    Seq::new(b.len(), |i: int| b[i] as char)
}

/// The bytes of ASCII characters.
pub open spec fn ascii_bytes(c: Seq<char>) -> Seq<u8> {
    Seq::new(c.len(), |i: int| c[i] as u8)
}

/// ASCII bytes are the UTF-8 encoding of the characters they stand for.
pub proof fn lemma_ascii_encode(b: Seq<u8>)
    requires
        all_ascii(b),
    ensures
        is_ascii_chars(ascii_chars(b)),
        encode_utf8(ascii_chars(b)) == b,
        valid_utf8(b),
        decode_utf8(b) == ascii_chars(b),
{
    let c = ascii_chars(b);
    assert forall|i: int| 0 <= i < c.len() implies '\0' <= #[trigger] c[i] <= '\u{7f}' by {
        assert(b[i] < 128);
    }
    is_ascii_chars_encode_utf8(c);
    assert forall|i: int| 0 <= i < b.len() implies encode_utf8(c)[i] == b[i] by {
        assert(c[i] as u8 == encode_utf8(c)[i]);
        assert(b[i] < 128);
    }
    assert(encode_utf8(c) =~= b);
}

/// The string that ASCII bytes spell.
pub(crate) fn ascii_string(bytes: Vec<u8>) -> (r: String)
    requires
        all_ascii(bytes@),
    ensures
        r@ == ascii_chars(bytes@),
{
    proof {
        lemma_ascii_encode(bytes@);
    }
    match string_from_utf8(bytes) {
        Ok(s) => {
            proof {
                assert(decode_utf8(encode_utf8(s@)) == s@);
            }
            s
        },
        Err(_) => {
            proof {
                assert(false);
            }
            String::new()
        },
    }
}

} // verus!
