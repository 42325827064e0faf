use vstd::prelude::*;

verus! {

// The token framing below relies on four facts about the base64 engines used
// here, each stated as an ensures clause of the trusted wrappers and checked
// against the engines' configuration:
//  - decoding inverts encoding;
//  - the engines accept only canonical input when decoding (trailing bits are
//    rejected and padding is required exactly, or refused, per variant), so a
//    successfully decoded text is exactly the encoding of its decoded bytes;
//  - the output alphabets (standard or URL-safe, plus `=` padding) never
//    contain the `.` delimiter;
//  - the encoded text is empty exactly when the input is empty, and a decoded
//    output is empty exactly when the decoded text is empty.

/// What `base64::engine::Engine::encode` returns for the engine selected by
/// `url_safe` (alphabet) and `pad` (padding): the base64 text of `data`.
pub uninterp spec fn b64_encode(url_safe: bool, pad: bool, data: Seq<u8>) -> Seq<char>;

/// What `base64::engine::Engine::decode` returns for the engine selected by
/// `url_safe` and `pad`: the decoded bytes, or `None` on any alphabet,
/// padding or trailing-bit violation.
pub uninterp spec fn b64_decode(url_safe: bool, pad: bool, text: Seq<char>) -> Option<Seq<u8>>;

/// Relies on base64's `STANDARD` engine: standard alphabet, canonical padding.
#[verifier::external_body]
fn encode_standard(data: &[u8]) -> (r: String)
    ensures
        r@ == b64_encode(false, true, data@),
        b64_decode(false, true, r@) == Some(data@),
        r@.len() == 0 <==> data@.len() == 0,
        forall|i: int| 0 <= i < r@.len() ==> r@[i] != '.',
{
    base64::Engine::encode(&base64::engine::general_purpose::STANDARD, data)
}

/// Relies on base64's `URL_SAFE` engine: URL-safe alphabet, canonical padding.
#[verifier::external_body]
fn encode_url_safe(data: &[u8]) -> (r: String)
    ensures
        r@ == b64_encode(true, true, data@),
        b64_decode(true, true, r@) == Some(data@),
        r@.len() == 0 <==> data@.len() == 0,
        forall|i: int| 0 <= i < r@.len() ==> r@[i] != '.',
{
    base64::Engine::encode(&base64::engine::general_purpose::URL_SAFE, data)
}

/// Relies on base64's `STANDARD_NO_PAD` engine: standard alphabet, no padding.
#[verifier::external_body]
fn encode_standard_no_pad(data: &[u8]) -> (r: String)
    ensures
        r@ == b64_encode(false, false, data@),
        b64_decode(false, false, r@) == Some(data@),
        r@.len() == 0 <==> data@.len() == 0,
        forall|i: int| 0 <= i < r@.len() ==> r@[i] != '.',
{
    base64::Engine::encode(&base64::engine::general_purpose::STANDARD_NO_PAD, data)
}

/// Relies on base64's `URL_SAFE_NO_PAD` engine: URL-safe alphabet, no padding.
#[verifier::external_body]
fn encode_url_safe_no_pad(data: &[u8]) -> (r: String)
    ensures
        r@ == b64_encode(true, false, data@),
        b64_decode(true, false, r@) == Some(data@),
        r@.len() == 0 <==> data@.len() == 0,
        forall|i: int| 0 <= i < r@.len() ==> r@[i] != '.',
{
    base64::Engine::encode(&base64::engine::general_purpose::URL_SAFE_NO_PAD, data)
}

/// Relies on base64's `STANDARD` engine: decoding accepts canonical input only.
#[verifier::external_body]
fn decode_standard(text: &str) -> (r: Option<Vec<u8>>)
    ensures
        r is Some <==> b64_decode(false, true, text@) is Some,
        r matches Some(v) ==> Some(v@) == b64_decode(false, true, text@)
            && text@ == b64_encode(false, true, v@)
            && (v@.len() == 0 <==> text@.len() == 0),
{
    match base64::Engine::decode(&base64::engine::general_purpose::STANDARD, text) {
        Ok(v) => Some(v),
        Err(_) => None,
    }
}

/// Relies on base64's `URL_SAFE` engine: decoding accepts canonical input only.
#[verifier::external_body]
fn decode_url_safe(text: &str) -> (r: Option<Vec<u8>>)
    ensures
        r is Some <==> b64_decode(true, true, text@) is Some,
        r matches Some(v) ==> Some(v@) == b64_decode(true, true, text@)
            && text@ == b64_encode(true, true, v@)
            && (v@.len() == 0 <==> text@.len() == 0),
{
    match base64::Engine::decode(&base64::engine::general_purpose::URL_SAFE, text) {
        Ok(v) => Some(v),
        Err(_) => None,
    }
}

/// Relies on base64's `STANDARD_NO_PAD` engine: decoding accepts canonical input only.
#[verifier::external_body]
fn decode_standard_no_pad(text: &str) -> (r: Option<Vec<u8>>)
    ensures
        r is Some <==> b64_decode(false, false, text@) is Some,
        r matches Some(v) ==> Some(v@) == b64_decode(false, false, text@)
            && text@ == b64_encode(false, false, v@)
            && (v@.len() == 0 <==> text@.len() == 0),
{
    match base64::Engine::decode(&base64::engine::general_purpose::STANDARD_NO_PAD, text) {
        Ok(v) => Some(v),
        Err(_) => None,
    }
}

/// Relies on base64's `URL_SAFE_NO_PAD` engine: decoding accepts canonical input only.
#[verifier::external_body]
fn decode_url_safe_no_pad(text: &str) -> (r: Option<Vec<u8>>)
    ensures
        r is Some <==> b64_decode(true, false, text@) is Some,
        r matches Some(v) ==> Some(v@) == b64_decode(true, false, text@)
            && text@ == b64_encode(true, false, v@)
            && (v@.len() == 0 <==> text@.len() == 0),
{
    match base64::Engine::decode(&base64::engine::general_purpose::URL_SAFE_NO_PAD, text) {
        Ok(v) => Some(v),
        Err(_) => None,
    }
}

/// Encoding scheme for rendering the payload and the signature as token-safe
/// text. The unpadded variants shorten the token; the URL-safe variants keep
/// it usable inside a URL.
#[derive(Clone, Copy, Debug)]
pub enum Encoder {
    /// Standard base64 encoding.
    Standard,
    /// URL-safe base64 encoding.
    UrlSafe,
    /// Standard base64 encoding without padding.
    StandardNoPadding,
    /// URL-safe base64 encoding without padding (the default).
    UrlSafeNoPadding,
}

impl Encoder {
    /// Whether this variant uses the URL-safe alphabet.
    pub open spec fn spec_url_safe(&self) -> bool {
        match *self {
            Encoder::Standard => false,
            Encoder::UrlSafe => true,
            Encoder::StandardNoPadding => false,
            Encoder::UrlSafeNoPadding => true,
        }
    }

    /// Whether this variant pads the encoded text.
    pub open spec fn spec_padded(&self) -> bool {
        match *self {
            Encoder::Standard => true,
            Encoder::UrlSafe => true,
            Encoder::StandardNoPadding => false,
            Encoder::UrlSafeNoPadding => false,
        }
    }

    /// Renders bytes as base64 text in this variant.
    pub fn encode(&self, data: &[u8]) -> (r: String)
        ensures
            r@ == b64_encode(self.spec_url_safe(), self.spec_padded(), data@),
            b64_decode(self.spec_url_safe(), self.spec_padded(), r@) == Some(data@),
            r@.len() == 0 <==> data@.len() == 0,
            forall|i: int| 0 <= i < r@.len() ==> r@[i] != '.',
    {
        match *self {
            Encoder::Standard => encode_standard(data),
            Encoder::UrlSafe => encode_url_safe(data),
            Encoder::StandardNoPadding => encode_standard_no_pad(data),
            Encoder::UrlSafeNoPadding => encode_url_safe_no_pad(data),
        }
    }

    /// Decodes base64 text in this variant; rejects any text that is not the
    /// canonical encoding of some byte sequence.
    pub fn decode(&self, text: &str) -> (r: Option<Vec<u8>>)
        ensures
            r is Some <==> b64_decode(self.spec_url_safe(), self.spec_padded(), text@) is Some,
            r matches Some(v) ==> Some(v@) == b64_decode(
                self.spec_url_safe(),
                self.spec_padded(),
                text@,
            ) && text@ == b64_encode(self.spec_url_safe(), self.spec_padded(), v@) && (v@.len()
                == 0 <==> text@.len() == 0),
    {
        match *self {
            Encoder::Standard => decode_standard(text),
            Encoder::UrlSafe => decode_url_safe(text),
            Encoder::StandardNoPadding => decode_standard_no_pad(text),
            Encoder::UrlSafeNoPadding => decode_url_safe_no_pad(text),
        }
    }
}

impl Default for Encoder {
    fn default() -> (r: Self)
        ensures
            r == Encoder::UrlSafeNoPadding,
    {
        Encoder::UrlSafeNoPadding
    }
}

} // verus!
