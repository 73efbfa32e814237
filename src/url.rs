use vstd::prelude::*;
use crate::error::ApiError;
use std::str::FromStr;

verus! {

/// The service's base endpoint.
pub const TELEGRAM_URL: &'static str = "https://api.telegram.org/";

/// The address of `method` for the bot holding `token`:
/// `<base>bot<token>/<method>`.
pub open spec fn url_text(base: Seq<char>, token: Seq<char>, method: Seq<char>) -> Seq<char> {
    base + "bot"@ + token + "/"@ + method
}

/// Whether hyper's URI parser accepts the text.
pub uninterp spec fn uri_accepts(s: Seq<char>) -> bool;

#[verifier::external_type_specification]
#[verifier::external_body]
pub struct ExUri(hyper::Uri);

#[verifier::external_type_specification]
#[verifier::external_body]
pub struct ExUriError(hyper::error::UriError);

/// Relies on `<hyper::Uri as FromStr>::from_str`: parses the text, and
/// refuses the empty text.
#[verifier::external_body]
fn parse_uri(s: &str) -> (r: Result<hyper::Uri, hyper::error::UriError>)
    ensures
        r is Ok <==> uri_accepts(s@),
        s@.len() == 0 ==> r is Err,
{
    hyper::Uri::from_str(s)
}

/// The address text of `method` on `base` for the bot holding `token`.
pub fn request_url(base: &str, token: &str, method: &str) -> (r: String)
    ensures
        r@ == url_text(base@, token@, method@),
{
    let r = base.to_owned();
    let r = r.concat("bot");
    let r = r.concat(token);
    let r = r.concat("/");
    let r = r.concat(method);
    r
}

/// The parsed address of `method` on the service for the bot holding
/// `token`; `InvalidUrl` where the text is not a URI.
pub fn url(token: &str, method: &str) -> (r: Result<hyper::Uri, ApiError>)
    ensures
        r is Ok <==> uri_accepts(url_text(TELEGRAM_URL@, token@, method@)),
        r is Err ==> r->Err_0 is InvalidUrl,
{
    let text = request_url(TELEGRAM_URL, token, method);
    match parse_uri(text.as_str()) {
        Ok(u) => Ok(u),
        Err(_) => Err(ApiError::InvalidUrl),
    }
}

} // verus!
