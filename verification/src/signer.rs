//! The request signer: from an action's payload, a timestamp and a pair of
//! credentials to the headers of an authenticated request.
//!
//! Signing is a pure computation. Its text is fixed byte for byte by the
//! specification functions below; the hash values inside it are the named
//! results of `crate::digest`.

use crate::calendar::{utc_date, utc_date_text, MAX_TIMESTAMP};
use crate::digest::{
    hex_encode, hex_text, hmac_sha256, hmac_sha256_tag, sha256, sha256_digest, DIGEST_BYTES,
    DIGEST_DIGITS,
};
use crate::text::{ascii_lowercase, decimal, decimal_text, to_ascii_lowercase};
use vstd::prelude::*;
use vstd::string::*;
use vstd::utf8::encode_utf8;

verus! {

/// The credentials a request is signed with. They are never printed: the
/// type has no `Debug`.
#[derive(Clone)]
pub struct Access {
    pub secret_id: String,
    pub secret_key: String,
}

/// One call of a named API action: where it goes and what it carries.
#[derive(Clone, Debug, PartialEq, Eq)]
pub struct ActionRequest {
    /// The action's name, as the API spells it.
    pub action: String,
    /// The short name of the service, part of the credential scope.
    pub service: String,
    /// The host that serves the action.
    pub host: String,
    /// The API version the payload is written for.
    pub version: String,
    /// The payload, already serialised as JSON.
    pub payload: String,
}

/// An authenticated request, ready to be sent.
#[derive(Clone, Debug, PartialEq, Eq)]
pub struct SignedRequest {
    pub method: String,
    pub uri: String,
    pub authorization: String,
    pub content_type: String,
    pub host: String,
    pub action: String,
    pub timestamp: String,
    pub version: String,
    pub body: String,
}

/// The signing algorithm's tag.
pub open spec fn algorithm_text() -> Seq<char> {
    "TC3-HMAC-SHA256"@
}

/// The content type of a JSON-body action.
pub open spec fn content_type_text() -> Seq<char> {
    "application/json; charset=utf-8"@
}

/// The names of the signed headers, in the order in which they are signed.
pub open spec fn signed_headers_text() -> Seq<char> {
    "content-type;host;x-tc-action"@
}

/// One line of the canonical headers block.
pub open spec fn header_line(name: Seq<char>, value: Seq<char>) -> Seq<char> {
    name + ":"@ + value + "\n"@
}

/// The canonical headers block: content type, host and lower-cased action
/// name, one line each, always in this order.
pub open spec fn canonical_headers_text(
    content_type: Seq<char>,
    host: Seq<char>,
    action: Seq<char>,
) -> Seq<char> {
    header_line("content-type"@, content_type) + header_line("host"@, host) + header_line(
        "x-tc-action"@,
        ascii_lowercase(action),
    )
}

/// The canonical request of a JSON-body action: method, URI, the empty query
/// string, the headers block, the signed-header list and the payload's
/// hash, joined by newlines.
pub open spec fn canonical_request_text(
    host: Seq<char>,
    action: Seq<char>,
    hashed_payload: Seq<char>,
) -> Seq<char> {
    "POST"@ + "\n"@ + "/"@ + "\n"@ + ""@ + "\n"@ + canonical_headers_text(
        content_type_text(),
        host,
        action,
    ) + "\n"@ + signed_headers_text() + "\n"@ + hashed_payload
}

/// The credential scope: date, service and the fixed terminator.
pub open spec fn credential_scope_text(date: Seq<char>, service: Seq<char>) -> Seq<char> {
    date + "/"@ + service + "/"@ + "tc3_request"@
}

/// The string to sign: algorithm, decimal timestamp, scope and the hash of
/// the canonical request, joined by newlines.
pub open spec fn string_to_sign_text(
    timestamp: nat,
    scope: Seq<char>,
    hashed_canonical_request: Seq<char>,
) -> Seq<char> {
    algorithm_text() + "\n"@ + decimal_text(timestamp) + "\n"@ + scope + "\n"@
        + hashed_canonical_request
}

/// The value of the authorization header.
pub open spec fn authorization_text(
    secret_id: Seq<char>,
    scope: Seq<char>,
    signature: Seq<char>,
) -> Seq<char> {
    algorithm_text() + " Credential="@ + secret_id + "/"@ + scope + ", SignedHeaders="@
        + signed_headers_text() + ", Signature="@ + signature
}

/// Lower-case hexadecimal SHA-256 of a text's UTF-8 bytes.
pub open spec fn text_hash(text: Seq<char>) -> Seq<char> {
    hex_text(sha256_digest(encode_utf8(text)))
}

/// The signing key: three chained HMACs, over the date, the service and the
/// fixed terminator, starting from the secret behind the prefix `TC3`.
pub open spec fn signing_key(secret_key: Seq<char>, date: Seq<char>, service: Seq<char>) -> Seq<
    u8,
> {
    let secret_date = hmac_sha256_tag(encode_utf8("TC3"@ + secret_key), encode_utf8(date));
    let secret_service = hmac_sha256_tag(secret_date, encode_utf8(service));
    hmac_sha256_tag(secret_service, encode_utf8("tc3_request"@))
}

/// The signature: lower-case hexadecimal HMAC of the string to sign.
pub open spec fn signature_text(key: Seq<u8>, string_to_sign: Seq<char>) -> Seq<char> {
    hex_text(hmac_sha256_tag(key, encode_utf8(string_to_sign)))
}

/// The canonical request of `request`.
pub open spec fn canonical_request_of(request: &ActionRequest) -> Seq<char> {
    canonical_request_text(request.host@, request.action@, text_hash(request.payload@))
}

/// The string to sign of `request` at `timestamp`, whose UTC date is `date`.
pub open spec fn string_to_sign_of(request: &ActionRequest, timestamp: u64, date: Seq<char>) -> Seq<
    char,
> {
    string_to_sign_text(
        timestamp as nat,
        credential_scope_text(date, request.service@),
        text_hash(canonical_request_of(request)),
    )
}

/// The signature of `request` signed at `timestamp`, whose UTC date is
/// `date`, with `access`.
pub open spec fn signature_of(
    request: &ActionRequest,
    timestamp: u64,
    date: Seq<char>,
    access: &Access,
) -> Seq<char> {
    signature_text(
        signing_key(access.secret_key@, date, request.service@),
        string_to_sign_of(request, timestamp, date),
    )
}

/// The authorization header of `request` signed at `timestamp`, whose UTC
/// date is `date`, with `access`.
pub open spec fn authorization_of(
    request: &ActionRequest,
    timestamp: u64,
    date: Seq<char>,
    access: &Access,
) -> Seq<char> {
    authorization_text(
        access.secret_id@,
        credential_scope_text(date, request.service@),
        signature_of(request, timestamp, date, access),
    )
}

/// `signed` is `request` signed at `timestamp` with `access`: every field of
/// it is fixed by them.
pub open spec fn signs(
    signed: &SignedRequest,
    request: &ActionRequest,
    timestamp: u64,
    access: &Access,
) -> bool {
    &&& utc_date_text(timestamp as int) is Some
    &&& signed.method@ == "POST"@
    &&& signed.uri@ == "/"@
    &&& signed.authorization@ == authorization_of(
        request,
        timestamp,
        utc_date_text(timestamp as int)->0,
        access,
    )
    &&& signed.content_type@ == content_type_text()
    &&& signed.host@ == request.host@
    &&& signed.action@ == request.action@
    &&& signed.timestamp@ == decimal_text(timestamp as nat)
    &&& signed.version@ == request.version@
    &&& signed.body@ == request.payload@
}

/// The names of the signed headers, in the order in which they are signed.
pub open spec fn signed_names() -> Seq<Seq<char>> {
    seq!["content-type"@, "host"@, "x-tc-action"@]
}

/// The URL that a signed request is sent to: the host over HTTPS, at the
/// root path.
pub open spec fn endpoint_text(host: Seq<char>) -> Seq<char> {
    "https://"@ + host + "/"@
}

/// The texts of a list of headers.
pub open spec fn header_texts(headers: Seq<(String, String)>) -> Seq<(Seq<char>, Seq<char>)> {
    Seq::new(headers.len(), |i: int| (headers[i].0@, headers[i].1@))
}

/// The six headers of a signed request, by name and value.
pub open spec fn headers_of(signed: &SignedRequest) -> Seq<(Seq<char>, Seq<char>)> {
    seq![
        ("Authorization"@, signed.authorization@),
        ("Content-Type"@, signed.content_type@),
        ("Host"@, signed.host@),
        ("X-TC-Action"@, signed.action@),
        ("X-TC-Timestamp"@, signed.timestamp@),
        ("X-TC-Version"@, signed.version@),
    ]
}

impl SignedRequest {
    /// The URL to send the request to.
    pub fn endpoint(&self) -> (r: String)
        ensures
            r@ == endpoint_text(self.host@),
    {
        let mut out = String::from_str("https://");
        out.append(self.host.as_str());
        out.append("/");
        out
    }

    /// The headers to send, exactly six: authorization, content type, host,
    /// action, timestamp and version.
    pub fn headers(&self) -> (r: Vec<(String, String)>)
        ensures
            header_texts(r@) == headers_of(self),
    {
        let mut out: Vec<(String, String)> = Vec::new();
        out.push((String::from_str("Authorization"), self.authorization.clone()));
        out.push((String::from_str("Content-Type"), self.content_type.clone()));
        out.push((String::from_str("Host"), self.host.clone()));
        out.push((String::from_str("X-TC-Action"), self.action.clone()));
        out.push((String::from_str("X-TC-Timestamp"), self.timestamp.clone()));
        out.push((String::from_str("X-TC-Version"), self.version.clone()));
        proof {
            assert(header_texts(out@) =~= headers_of(self));
        }
        out
    }
}

/// Signing has no hidden state: requests signed from the same texts, at the
/// same timestamp, with the same credentials, agree in every field, the
/// authorization header among them.
pub proof fn lemma_signing_is_deterministic(
    first: &SignedRequest,
    second: &SignedRequest,
    request: &ActionRequest,
    again: &ActionRequest,
    timestamp: u64,
    access: &Access,
    same_access: &Access,
)
    requires
        request.action@ == again.action@,
        request.service@ == again.service@,
        request.host@ == again.host@,
        request.version@ == again.version@,
        request.payload@ == again.payload@,
        access.secret_id@ == same_access.secret_id@,
        access.secret_key@ == same_access.secret_key@,
        signs(first, request, timestamp, access),
        signs(second, again, timestamp, same_access),
    ensures
        first.authorization@ == second.authorization@,
        first.method@ == second.method@,
        first.uri@ == second.uri@,
        first.content_type@ == second.content_type@,
        first.host@ == second.host@,
        first.action@ == second.action@,
        first.timestamp@ == second.timestamp@,
        first.version@ == second.version@,
        first.body@ == second.body@,
{
}

/// The canonical headers block is three lines, one for each signed header,
/// in the order of the signed-header list: content type, host, action. The
/// order is fixed by the block itself, not by the order in which a request
/// carries its headers.
pub proof fn lemma_canonical_headers_order(
    content_type: Seq<char>,
    host: Seq<char>,
    action: Seq<char>,
)
    ensures
        canonical_headers_text(content_type, host, action) == header_line(
            signed_names()[0],
            content_type,
        ) + header_line(signed_names()[1], host) + header_line(
            signed_names()[2],
            ascii_lowercase(action),
        ),
        signed_headers_text() == signed_names()[0] + ";"@ + signed_names()[1] + ";"@
            + signed_names()[2],
{
    reveal_strlit("content-type");
    reveal_strlit("host");
    reveal_strlit("x-tc-action");
    reveal_strlit(";");
    reveal_strlit("content-type;host;x-tc-action");
    assert(signed_headers_text() =~= signed_names()[0] + ";"@ + signed_names()[1] + ";"@
        + signed_names()[2]);
}

/// Builds the canonical headers block for a JSON-body action.
pub fn canonical_headers(host: &str, action: &str) -> (r: String)
    ensures
        r@ == canonical_headers_text(content_type_text(), host@, action@),
{
    let lowered = to_ascii_lowercase(action);
    let mut out = String::from_str("content-type");
    out.append(":");
    out.append("application/json; charset=utf-8");
    out.append("\n");
    let mut line = String::from_str("host");
    line.append(":");
    line.append(host);
    line.append("\n");
    out.append(line.as_str());
    let mut line = String::from_str("x-tc-action");
    line.append(":");
    line.append(lowered.as_str());
    line.append("\n");
    out.append(line.as_str());
    out
}

/// Builds the canonical request from the host, the action's name and the
/// hexadecimal hash of the payload.
pub fn canonical_request(host: &str, action: &str, hashed_payload: &str) -> (r: String)
    ensures
        r@ == canonical_request_text(host@, action@, hashed_payload@),
{
    let headers = canonical_headers(host, action);
    let mut out = String::from_str("POST");
    out.append("\n");
    out.append("/");
    out.append("\n");
    out.append("");
    out.append("\n");
    out.append(headers.as_str());
    out.append("\n");
    out.append("content-type;host;x-tc-action");
    out.append("\n");
    out.append(hashed_payload);
    out
}

/// Builds the credential scope from the date text and the service's name.
pub fn credential_scope(date: &str, service: &str) -> (r: String)
    ensures
        r@ == credential_scope_text(date@, service@),
{
    let mut out = String::from_str(date);
    out.append("/");
    out.append(service);
    out.append("/");
    out.append("tc3_request");
    out
}

/// Builds the string to sign from the timestamp, the credential scope and
/// the hexadecimal hash of the canonical request.
pub fn string_to_sign(timestamp: u64, scope: &str, hashed_canonical_request: &str) -> (r: String)
    ensures
        r@ == string_to_sign_text(timestamp as nat, scope@, hashed_canonical_request@),
{
    let numeral = decimal(timestamp);
    let mut out = String::from_str("TC3-HMAC-SHA256");
    out.append("\n");
    out.append(numeral.as_str());
    out.append("\n");
    out.append(scope);
    out.append("\n");
    out.append(hashed_canonical_request);
    out
}

/// Builds the authorization header from the key's id, the credential scope
/// and the hexadecimal signature.
pub fn authorization(secret_id: &str, scope: &str, signature: &str) -> (r: String)
    ensures
        r@ == authorization_text(secret_id@, scope@, signature@),
{
    let mut out = String::from_str("TC3-HMAC-SHA256");
    out.append(" Credential=");
    out.append(secret_id);
    out.append("/");
    out.append(scope);
    out.append(", SignedHeaders=");
    out.append("content-type;host;x-tc-action");
    out.append(", Signature=");
    out.append(signature);
    out
}

/// Lower-case hexadecimal SHA-256 of a text.
pub fn hash_text(text: &str) -> (r: String)
    ensures
        r@ == text_hash(text@),
        r@.len() == DIGEST_DIGITS,
{
    let digest = sha256(text.as_bytes());
    hex_encode(digest.as_slice())
}

/// Derives the signing key for a date and a service from the secret.
pub fn derive_signing_key(secret_key: &str, date: &str, service: &str) -> (r: Vec<u8>)
    ensures
        r@ == signing_key(secret_key@, date@, service@),
        r@.len() == DIGEST_BYTES,
{
    let mut prefixed = String::from_str("TC3");
    prefixed.append(secret_key);
    let secret_date = hmac_sha256(prefixed.as_str().as_bytes(), date.as_bytes());
    let secret_service = hmac_sha256(secret_date.as_slice(), service.as_bytes());
    hmac_sha256(secret_service.as_slice(), "tc3_request".as_bytes())
}

/// Signs a text with a derived key.
pub fn sign(key: &[u8], string_to_sign: &str) -> (r: String)
    ensures
        r@ == signature_text(key@, string_to_sign@),
        r@.len() == DIGEST_DIGITS,
{
    let tag = hmac_sha256(key, string_to_sign.as_bytes());
    hex_encode(tag.as_slice())
}

/// Signs `request` at `timestamp` with `access`.
///
/// The timestamp must have a calendar date, which every timestamp up to
/// `MAX_TIMESTAMP` has. The signature at the end of the authorization header
/// has 64 hexadecimal digits.
pub fn build_request(request: &ActionRequest, timestamp: u64, access: &Access) -> (r: SignedRequest)
    requires
        timestamp <= MAX_TIMESTAMP,
    ensures
        signs(&r, request, timestamp, access),
        signature_of(request, timestamp, utc_date_text(timestamp as int)->0, access).len()
            == DIGEST_DIGITS,
{
    let date = match utc_date(timestamp as i64) {
        Some(date) => date,
        None => {
            proof {
                assert(false);
            }
            String::new()
        },
    };
    let hashed_payload = hash_text(request.payload.as_str());
    let canonical = canonical_request(
        request.host.as_str(),
        request.action.as_str(),
        hashed_payload.as_str(),
    );
    let scope = credential_scope(date.as_str(), request.service.as_str());
    let hashed_canonical = hash_text(canonical.as_str());
    let to_sign = string_to_sign(timestamp, scope.as_str(), hashed_canonical.as_str());
    let key = derive_signing_key(
        access.secret_key.as_str(),
        date.as_str(),
        request.service.as_str(),
    );
    let signature = sign(key.as_slice(), to_sign.as_str());
    SignedRequest {
        method: String::from_str("POST"),
        uri: String::from_str("/"),
        authorization: authorization(access.secret_id.as_str(), scope.as_str(), signature.as_str()),
        content_type: String::from_str("application/json; charset=utf-8"),
        host: request.host.clone(),
        action: request.action.clone(),
        timestamp: decimal(timestamp),
        version: request.version.clone(),
        body: request.payload.clone(),
    }
}

} // verus!
