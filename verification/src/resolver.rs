use vstd::prelude::*;

verus! {

use crate::errors::ModManagerError;

/// What parsing a mod-detail response body yields: `Err` when the body is
/// not well-formed JSON, otherwise the download URL the response carries,
/// if any — a response without one is a legitimate answer, not a failure.
/// Parsing is a function of the body text alone.
pub uninterp spec fn detail_download_url(text: Seq<char>) -> Result<Option<Seq<char>>, ()>;

/// Relies on `serde_json::from_str::<Value>` and `Value::{get, as_str}`:
/// parsing the detail response and reading its optional
/// `download.download_url` field depends on the body text alone.
#[verifier::external_body]
fn parse_detail_text(text: &str) -> (r: Result<Option<String>, ()>)
    ensures
        r is Ok <==> detail_download_url(text@) is Ok,
        r is Ok ==> ((r->Ok_0) is Some <==> (detail_download_url(text@)->Ok_0) is Some),
        r matches Ok(Some(u)) ==> detail_download_url(text@)->Ok_0 matches Some(s) && u@ == s,
{
    let v: serde_json::Value = match serde_json::from_str(text) {
        Ok(v) => v,
        Err(_) => return Err(()),
    };
    let d = match v.get("download") {
        Some(d) => d,
        None => return Ok(None),
    };
    match d.get("download_url") {
        Some(u) => Ok(u.as_str().map(|s| s.to_string())),
        None => Ok(None),
    }
}

/// The resolver's reading of a mod-detail response body: a well-formed
/// response with a download URL yields that URL; a well-formed response
/// without one yields `None` (a legitimate terminal answer); a malformed
/// body is a parse error.
pub fn resolve_download_url(body: &str) -> (r: Result<Option<String>, ModManagerError>)
    ensures
        r is Ok <==> detail_download_url(body@) is Ok,
        r matches Err(e) ==> e matches ModManagerError::ParseError(m) && m@
            == "malformed mod-detail response"@,
        r is Ok ==> ((r->Ok_0) is Some <==> (detail_download_url(body@)->Ok_0) is Some),
        r matches Ok(Some(u)) ==> detail_download_url(body@)->Ok_0 matches Some(s) && u@ == s,
{
    match parse_detail_text(body) {
        Ok(o) => Ok(o),
        Err(_) => Err(
            ModManagerError::ParseError(String::from_str("malformed mod-detail response")),
        ),
    }
}

} // verus!
