//! The cookie parser of the `axum_extra` crate.

use axum::http::header::COOKIE;
use axum::http::{HeaderMap, HeaderValue};
use axum_extra::extract::CookieJar;
use vstd::prelude::*;

verus! {

/// The value of the cookie called `name` in the text of one `Cookie` request
/// header, or `None` where the header holds no such cookie.
pub uninterp spec fn cookie_in_header(header: Seq<char>, name: Seq<char>) -> Option<Seq<char>>;

/// Puts the text into a header map as its `Cookie` header, then calls
/// `CookieJar::from_headers` and `CookieJar::get`. The value found depends on
/// the header's text and the name alone.
#[verifier::external_body]
pub(crate) fn cookie_from_header(header: &str, name: &str) -> (value: Option<String>)
    ensures
        match value {
            Some(text) => cookie_in_header(header@, name@) == Some(text@),
            None => cookie_in_header(header@, name@).is_none(),
        },
{
    let mut headers = HeaderMap::new();
    if let Ok(line) = HeaderValue::from_str(header) {
        headers.insert(COOKIE, line);
    }
    CookieJar::from_headers(&headers).get(name).map(|cookie| cookie.value().to_owned())
}

} // verus!
