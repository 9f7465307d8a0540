//! Validation of remote playback sources: a URL is accepted only when it
//! parses as an absolute URL and its scheme is exactly `http` or `https`.
//! Parsing itself is delegated to the `url` crate; the verdict over the
//! parsed scheme is decided and verified here.

use vstd::prelude::*;

use crate::state::PlayerError;

verus! {

/// The scheme that `url::Url::parse` extracts from a string, lower-cased,
/// or nothing when the string does not parse as an absolute URL. The
/// result depends on the characters of the string alone.
pub uninterp spec fn url_scheme(s: Seq<char>) -> Option<Seq<char>>;

/// Relies on `url::Url::parse`, which fails exactly when no absolute URL
/// can be parsed from the input, and `url::Url::scheme`, which returns the
/// parsed scheme lower-cased without the `:` delimiter.
#[verifier::external_body]
fn parse_scheme(s: &str) -> (r: Option<String>)
    ensures
        match r {
            Some(sch) => url_scheme(s@) is Some && sch@ == url_scheme(s@)->Some_0,
            None => url_scheme(s@) is None,
        },
{
    match url::Url::parse(s) {
        Ok(u) => Some(u.scheme().to_string()),
        Err(_) => None,
    }
}

/// The verdict over a parsed scheme: a URL that did not parse is
/// `InvalidUrl`; one that parsed with any scheme but `http` or `https` is
/// `UnsupportedScheme`; only those two schemes pass.
pub open spec fn scheme_verdict(scheme: Option<Seq<char>>) -> Result<(), PlayerError> {
    match scheme {
        None => Err(PlayerError::InvalidUrl),
        Some(sch) => if sch == "http"@ || sch == "https"@ {
            Ok(())
        } else {
            Err(PlayerError::UnsupportedScheme)
        },
    }
}

/// The decision over a scheme already extracted from a URL, exactly as
/// `scheme_verdict` states it.
pub fn classify_scheme(scheme: Option<String>) -> (r: Result<(), PlayerError>)
    ensures
        r == scheme_verdict(match scheme {
            Some(sch) => Some(sch@),
            None => None::<Seq<char>>,
        }),
{
    match scheme {
        None => Err(PlayerError::InvalidUrl),
        Some(sch) => {
            let http: String = "http".to_owned();
            let https: String = "https".to_owned();
            if sch == http || sch == https {
                Ok(())
            } else {
                Err(PlayerError::UnsupportedScheme)
            }
        },
    }
}

/// Validate a URL for streaming playback, before anything is started:
/// parse it, then judge its scheme.
pub fn validate_stream_url(url: &str) -> (r: Result<(), PlayerError>)
    ensures
        r == scheme_verdict(url_scheme(url@)),
{
    classify_scheme(parse_scheme(url))
}

} // verus!
