//! The address of a duplex connection: a `reqwest::Url`.
//!
//! Reading an address from text is the `url` crate's work, which `reqwest`
//! hands on. This module declares the address type, names what it holds and
//! what reading gives, and wraps the calls. Nothing in this module is proved:
//! the contracts are taken on trust from the `url` crate and from
//! `tungstenite`.

use vstd::prelude::*;

verus! {

/// `reqwest::Url`: an address that was read successfully, opaque to the
/// verifier.
#[verifier::external_type_specification]
#[verifier::external_body]
pub struct ExUrl(reqwest::Url);

/// What an address holds: its serialisation (`Url::as_str`).
pub uninterp spec fn url_text(url: reqwest::Url) -> Seq<char>;

/// What `Url::parse` reads from `text`: the serialisation of the address, or
/// `None` where the text is no absolute URL.
pub uninterp spec fn url_read(text: Seq<char>) -> Option<Seq<char>>;

/// Calls `reqwest::Url::parse` and keeps the address, if there is one.
///
/// Trusted: the outcome depends on the text alone. It is the address whose
/// serialisation [`url_read`] names, and none exactly where [`url_read`] is
/// `None`.
#[verifier::external_body]
pub(crate) fn parse_url(text: &str) -> (r: Option<reqwest::Url>)
    ensures
        match r {
            Some(url) => url_read(text@) == Some(url_text(url)),
            None => url_read(text@) is None,
        },
{
    reqwest::Url::parse(text).ok()
}

/// Builds `tungstenite`'s error for an address that cannot be connected to:
/// `Error::Url(UrlError::UnableToConnect(..))`.
///
/// Trusted: nothing is claimed of the error; it is carried to the caller.
#[verifier::external_body]
pub(crate) fn unable_to_connect(address: String) -> tungstenite::error::Error {
    tungstenite::error::Error::Url(tungstenite::error::UrlError::UnableToConnect(address))
}

} // verus!
