//! The signed request for the FoxESS cloud's real-time device query.
//!
//! Each request carries the API key, the time in milliseconds since the Unix
//! epoch, and a signature: the lower-case hexadecimal MD5 digest of the
//! request path, the API key and the timestamp, separated by `\r\n`.
use vstd::prelude::*;
use vstd::string::StringExecFns;
use vstd::utf8::encode_utf8;
use md5::{Digest, Md5};
use crate::format::{decimal_digits, decimal_string, hex_lower, to_hex_lower};

verus! {

/// The MD5 digest of a byte sequence.
pub uninterp spec fn md5_digest_of(data: Seq<u8>) -> Seq<u8>;

/// Calls `Md5::digest` of the md-5 crate (RustCrypto's MD5, through the
/// `Digest` trait of the digest crate) and copies the digest into a vector.
/// Trusted: the result is the MD5 digest of the data, which depends on the
/// data alone, and it has 16 bytes, the output size of `Md5`.
#[verifier::external_body]
fn md5_digest(data: &[u8]) -> (r: Vec<u8>)
    ensures
        r@ == md5_digest_of(data@),
        r@.len() == 16,
{
    Md5::digest(data).to_vec()
}

/// The path of the real-time query.
pub open spec fn real_query_path() -> Seq<char> {
    "/op/v1/device/real/query"@
}

/// The text that is signed.
pub open spec fn signature_text(path: Seq<char>, api_key: Seq<char>, timestamp: Seq<char>) -> Seq<
    char,
> {
    path + "\r\n"@ + api_key + "\r\n"@ + timestamp
}

/// The signature: the MD5 digest of the UTF-8 signature text, in lower-case hexadecimal.
pub open spec fn request_signature_of(
    path: Seq<char>,
    api_key: Seq<char>,
    timestamp: Seq<char>,
) -> Seq<char> {
    hex_lower(md5_digest_of(encode_utf8(signature_text(path, api_key, timestamp))))
}

/// Signs a request for `path` made with `api_key` at `timestamp`.
pub fn request_signature(path: &str, api_key: &str, timestamp: &str) -> (sig: String)
    ensures
        sig@ == request_signature_of(path@, api_key@, timestamp@),
        sig@.len() == 32,
{
    let mut text = String::from_str(path);
    text.append("\r\n");
    text.append(api_key);
    text.append("\r\n");
    text.append(timestamp);
    let digest = md5_digest(text.as_str().as_bytes());
    to_hex_lower(digest.as_slice())
}

/// The headers of the real-time query, in the order they are sent.
pub open spec fn foxess_headers(api_key: Seq<char>, timestamp: Seq<char>, signature: Seq<char>) -> Seq<
    (Seq<char>, Seq<char>),
> {
    seq![
        ("Token"@, api_key),
        ("Timestamp"@, timestamp),
        ("Signature"@, signature),
        ("Lang"@, "en"@),
        ("Content-Type"@, "application/json"@),
        ("Timezone"@, "Australia/Sydney"@),
    ]
}

pub open spec fn headers_view(headers: Seq<(String, String)>) -> Seq<(Seq<char>, Seq<char>)> {
    headers.map_values(|h: (String, String)| (h.0@, h.1@))
}

/// A request to POST: where to, with which headers, and the inverter whose
/// readings it asks for (its JSON body is `{"sns": [inverter_serial]}`).
pub struct FoxessRequest {
    pub url: String,
    pub headers: Vec<(String, String)>,
    pub inverter_serial: String,
}

/// The real-time query for the inverter `inverter_serial`, made with `api_key`
/// at `timestamp_ms` milliseconds since the Unix epoch.
pub fn foxess_request(api_key: &str, inverter_serial: &str, timestamp_ms: u128) -> (r: FoxessRequest)
    ensures
        r.inverter_serial@ == inverter_serial@,
        r.url@ == "https://www.foxesscloud.com"@ + real_query_path(),
        headers_view(r.headers@) == foxess_headers(
            api_key@,
            decimal_digits(timestamp_ms as nat),
            request_signature_of(real_query_path(), api_key@, decimal_digits(timestamp_ms as nat)),
        ),
{
    let path = "/op/v1/device/real/query";
    let timestamp = decimal_string(timestamp_ms);
    let signature = request_signature(path, api_key, timestamp.as_str());
    let mut url = String::from_str("https://www.foxesscloud.com");
    url.append(path);
    let mut headers: Vec<(String, String)> = Vec::new();
    headers.push((String::from_str("Token"), String::from_str(api_key)));
    headers.push((String::from_str("Timestamp"), timestamp));
    headers.push((String::from_str("Signature"), signature));
    headers.push((String::from_str("Lang"), String::from_str("en")));
    headers.push((String::from_str("Content-Type"), String::from_str("application/json")));
    headers.push((String::from_str("Timezone"), String::from_str("Australia/Sydney")));
    assert(headers_view(headers@) =~= foxess_headers(
        api_key@,
        decimal_digits(timestamp_ms as nat),
        request_signature_of(real_query_path(), api_key@, decimal_digits(timestamp_ms as nat)),
    ));
    FoxessRequest { url, headers, inverter_serial: String::from_str(inverter_serial) }
}

} // verus!
