//! Requests to the content overflow store: the form that carries a value,
//! and the credentials that go with every request.
use vstd::prelude::*;

verus! {

/// What a form body opens with, up to the value.
pub const FORM_HEAD: &'static str = "------WebKitFormBoundaryP7QTR7KAEBq0gxMo\r\nContent-Disposition: form-data; name=\"file\"; filename=\"blob\"\r\nContent-Type: application/octet-stream\r\n\r\n";

/// What a form body closes with, after the value.
pub const FORM_TAIL: &'static str = "\r\n------WebKitFormBoundaryP7QTR7KAEBq0gxMo--\r\n";

/// The content type of a form body, naming its boundary.
pub const FORM_CONTENT_TYPE: &'static str = "multipart/form-data; boundary=----WebKitFormBoundaryP7QTR7KAEBq0gxMo";

/// The multipart form that uploads `data` as one file part.
pub fn add_body(data: &String) -> (r: String)
    ensures
        r@ == FORM_HEAD@ + data@ + FORM_TAIL@,
{
    String::from_str(FORM_HEAD).concat(data.as_str()).concat(FORM_TAIL)
}

/// The unpadded standard base64 encoding of the UTF-8 bytes of `s`.
pub uninterp spec fn base64_no_pad_of(s: Seq<char>) -> Seq<char>;

/// The length of an unpadded base64 encoding of `n` bytes.
pub open spec fn base64_no_pad_len(n: int) -> int {
    n / 3 * 4 + if n % 3 == 1 {
        2int
    } else if n % 3 == 2 {
        3int
    } else {
        0int
    }
}

/// Relies on base64's `general_purpose::STANDARD_NO_PAD.encode`: the
/// standard alphabet without padding, four characters for each three bytes
/// and two or three for a remainder of one or two. It panics only where that
/// length overflows `usize`.
#[verifier::external_body]
fn encode_base64(s: &str) -> (r: String)
    requires
        base64_no_pad_len(vstd::utf8::encode_utf8(s@).len() as int) <= usize::MAX,
    ensures
        r@ == base64_no_pad_of(s@),
        r@.len() == base64_no_pad_len(vstd::utf8::encode_utf8(s@).len() as int),
{
    base64::Engine::encode(&base64::engine::general_purpose::STANDARD_NO_PAD, s)
}

/// The `Authorization` header of a request to the overflow store: basic
/// credentials `key:secret`, encoded in base64 without padding.
pub fn basic_authorization(key: &String, secret: &String) -> (r: String)
    requires
        vstd::utf8::encode_utf8(key@ + seq![':'] + secret@).len() <= usize::MAX / 2,
    ensures
        r@ == seq!['B', 'a', 's', 'i', 'c', ' '] + base64_no_pad_of(key@ + seq![':'] + secret@),
{
    proof {
        reveal_strlit(":");
        reveal_strlit("Basic ");
    }
    let credentials = key.clone().concat(":").concat(secret.as_str());
    assert(credentials@ =~= key@ + seq![':'] + secret@);
    let encoded = encode_base64(credentials.as_str());
    let r = String::from_str("Basic ").concat(encoded.as_str());
    assert(r@ =~= seq!['B', 'a', 's', 'i', 'c', ' '] + base64_no_pad_of(key@ + seq![':'] + secret@));
    r
}

} // verus!
