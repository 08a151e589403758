use vstd::prelude::*;

use crate::model::ApiResponse;

verus! {

/// The text that a reply body carries under its "Hash" key: the empty text
/// where the body is not a JSON object holding a string there. JSON parsing
/// is deterministic, so this is a pure function of the body; its value is
/// not spelled out here.
pub uninterp spec fn json_hash_text_of(body: Seq<char>) -> Seq<char>;

/// Relies on serde_json::from_str, Value::get and Value::as_str: yields the
/// string under the reply's "Hash" key, and the empty string where the body
/// is not a JSON object holding a string there. The reply text alone
/// determines the result.
#[verifier::external_body]
fn extract_hash(body: &str) -> (r: String)
    ensures
        r@ == json_hash_text_of(body@),
{
    serde_json::from_str::<serde_json::Value>(body)
        .ok()
        .and_then(|doc| doc.get("Hash").and_then(|v| v.as_str()).map(|s| s.to_string()))
        .unwrap_or_default()
}

/// The successful upload outcome: the content URI is the store's gateway
/// prefix followed by the content hash.
pub fn upload_success_response(hash: &str) -> (r: ApiResponse)
    ensures
        r.success,
        r.message@ == "File uploaded to IPFS successfully."@,
        r.token_uri matches Some(u) && u@ == "https://ipfs.io/ipfs/"@ + hash@,
{
    ApiResponse {
        success: true,
        message: String::from_str("File uploaded to IPFS successfully."),
        token_uri: Some(String::from_str("https://ipfs.io/ipfs/").concat(hash)),
    }
}

/// The failed upload outcome: no content URI is reported.
pub fn upload_failure_response() -> (r: ApiResponse)
    ensures
        !r.success,
        r.message@ == "IPFS upload failed."@,
        r.token_uri is None,
{
    ApiResponse {
        success: false,
        message: String::from_str("IPFS upload failed."),
        token_uri: None,
    }
}

/// Interprets the content store's HTTP reply. A failed request is a failed
/// upload; a successful one carries a JSON body whose "Hash" field — or the
/// empty text where the body holds none — names the stored content, and the
/// content URI is the store's gateway prefix followed by that hash.
pub fn interpret_upload_body(http_success: bool, body: &str) -> (r: ApiResponse)
    ensures
        !http_success ==> !r.success && r.message@ == "IPFS upload failed."@ && r.token_uri
            is None,
        http_success ==> r.success && r.message@ == "File uploaded to IPFS successfully."@ && (
        r.token_uri matches Some(u) && u@ == "https://ipfs.io/ipfs/"@ + json_hash_text_of(body@)),
{
    if !http_success {
        return upload_failure_response();
    }
    let hash = extract_hash(body);
    upload_success_response(hash.as_str())
}

} // verus!
