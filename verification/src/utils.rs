//! The encoded word of RFC 2047, in its base64 form.

use base64::prelude::BASE64_STANDARD;
use base64::Engine;
use vstd::prelude::*;
use vstd::string::StringExecFns;
use vstd::utf8::encode_utf8;

verus! {

/// The standard base64 encoding, with padding, of a sequence of bytes.
pub uninterp spec fn base64_standard(bytes: Seq<u8>) -> Seq<char>;

/// `Engine::encode_string` of the crate base64, on the `STANDARD` engine:
/// the encoding of the input is appended to the buffer, which keeps what it
/// held.
#[verifier::external_body]
fn base64_encode_string(input: &[u8], output_buf: &mut String)
    ensures
        final(output_buf)@ == old(output_buf)@ + base64_standard(input@),
{
    BASE64_STANDARD.encode_string(input, output_buf);
}

/// The characters `=?UTF-8?B?`, which open an encoded word.
pub open spec fn encoded_word_prefix() -> Seq<char> {
    seq!['=', '?', 'U', 'T', 'F', '-', '8', '?', 'B', '?']
}

/// The characters `?=`, which close an encoded word.
pub open spec fn encoded_word_suffix() -> Seq<char> {
    seq!['?', '=']
}

/// An encoded word around a payload that is already encoded.
pub open spec fn spec_encoded_word(payload: Seq<char>) -> Seq<char> {
    encoded_word_prefix() + payload + encoded_word_suffix()
}

/// The encoded word of a text: its UTF-8 bytes in base64, in one block.
pub open spec fn spec_encode_mime_b(s: Seq<char>) -> Seq<char> {
    spec_encoded_word(base64_standard(encode_utf8(s)))
}

/// Wraps an encoded payload into an encoded word, `=?UTF-8?B?` before it
/// and `?=` after it.
pub fn encoded_word(payload: &str) -> (r: String)
    ensures
        r@ == spec_encoded_word(payload@),
{
    proof {
        reveal_strlit("=?UTF-8?B?");
        reveal_strlit("?=");
    }
    let mut result = String::from_str("=?UTF-8?B?");
    result.append(payload);
    result.append("?=");
    assert(result@ =~= spec_encoded_word(payload@));
    result
}

/// The encoded word of `s`. No line is folded: the text goes into one word
/// however long it is.
pub fn encode_mime_b(s: &str) -> (r: String)
    ensures
        r@ == spec_encode_mime_b(s@),
{
    let mut payload = String::new();
    base64_encode_string(s.as_bytes(), &mut payload);
    encoded_word(payload.as_str())
}

} // verus!
