//! URI validation: a candidate string is parsed by the transport's URI
//! parser, and the result is accepted only when it is an absolute URI
//! with a non-empty scheme and a non-empty authority.

use vstd::prelude::*;
use vstd::string::StringExecFns;

use crate::error::Error;
use crate::error::ErrorKind;

verus! {

/// What the transport's URI parser returns for a given string: `None`
/// when the string is rejected, otherwise the printed form of the parsed
/// URI together with its scheme and authority components, each absent
/// when the parsed URI lacks it. The outcome depends on the input
/// characters alone.
pub uninterp spec fn uri_parse_of(s: Seq<char>) -> Option<
    (Seq<char>, Option<Seq<char>>, Option<Seq<char>>),
>;

/// The components of a parsed URI, as plain strings: its printed form,
/// its scheme and its authority.
pub struct UriParts {
    pub text: String,
    pub scheme: Option<String>,
    pub authority: Option<String>,
}

impl View for UriParts {
    type V = (Seq<char>, Option<Seq<char>>, Option<Seq<char>>);

    open spec fn view(&self) -> (Seq<char>, Option<Seq<char>>, Option<Seq<char>>) {
        (
            self.text@,
            match self.scheme {
                Some(s) => Some(s@),
                None => None,
            },
            match self.authority {
                Some(a) => Some(a@),
                None => None,
            },
        )
    }
}

/// Relies on hyper's `Uri::try_from` for the absolute-URI grammar, and on
/// `Uri::to_string`, `Uri::scheme_str` and `Uri::authority` to read the
/// parsed URI's components back as plain strings. A rejection carries the
/// parser's description of the cause.
#[verifier::external_body]
fn hyper_parse_uri(raw: &str) -> (r: Result<UriParts, String>)
    ensures
        r matches Ok(p) ==> uri_parse_of(raw@) == Some(p@),
        r is Err ==> uri_parse_of(raw@) is None,
{
    match hyper::Uri::try_from(raw) {
        Ok(u) => Ok(
            UriParts {
                text: u.to_string(),
                scheme: u.scheme_str().map(|s| s.to_string()),
                authority: u.authority().map(|a| a.as_str().to_string()),
            },
        ),
        Err(e) => Err(e.to_string()),
    }
}

/// A parsed absolute URI: its printed form, with a non-empty scheme and
/// a non-empty authority.
#[derive(Debug)]
pub struct ValidatedUri {
    text: String,
    scheme: String,
    authority: String,
}

impl View for ValidatedUri {
    type V = (Seq<char>, Seq<char>, Seq<char>);

    closed spec fn view(&self) -> (Seq<char>, Seq<char>, Seq<char>) {
        (self.text@, self.scheme@, self.authority@)
    }
}

impl ValidatedUri {
    /// The invariant of a validated URI: scheme and authority are
    /// present and non-empty.
    pub open spec fn wf(&self) -> bool {
        self@.1.len() > 0 && self@.2.len() > 0
    }

    /// The URI in its printed form, as the transport will receive it.
    pub fn text(&self) -> (r: &String)
        ensures
            r@ == self@.0,
    {
        &self.text
    }

    /// The scheme component.
    pub fn scheme(&self) -> (r: &String)
        ensures
            r@ == self@.1,
    {
        &self.scheme
    }

    /// The authority component.
    pub fn authority(&self) -> (r: &String)
        ensures
            r@ == self@.2,
    {
        &self.authority
    }
}

/// The outcome the URI validator owes for a given parse result: accepted
/// exactly when the parse succeeded with a non-empty scheme and a
/// non-empty authority.
pub open spec fn uri_acceptable(s: Seq<char>) -> bool {
    match uri_parse_of(s) {
        Some(p) => {
            &&& p.1 matches Some(sch) && sch.len() > 0
            &&& p.2 matches Some(auth) && auth.len() > 0
        },
        None => false,
    }
}

/// Parses and validates a candidate URI string.
///
/// Strings the URI grammar rejects — opaque forms without an authority
/// separator, illegal characters, an empty authority — fail with
/// `MalformedUri`; strings that parse but carry no scheme fail with
/// `EmptyScheme`. On success the parsed URI is returned unchanged, in
/// its printed form, with its scheme and authority.
pub fn parse_uri(req_uri: &str) -> (r: Result<ValidatedUri, Error>)
    ensures
        r is Ok <==> uri_acceptable(req_uri@),
        r matches Ok(u) ==> {
            &&& uri_parse_of(req_uri@) matches Some(p)
            &&& u@.0 == p.0
            &&& Some(u@.1) == p.1
            &&& Some(u@.2) == p.2
            &&& u.wf()
        },
        r matches Err(e) ==> match uri_parse_of(req_uri@) {
            Some(p) => match p.1 {
                Some(sch) => if sch.len() == 0 {
                    e.kind == ErrorKind::EmptyScheme
                } else {
                    e.kind == ErrorKind::MalformedUri
                },
                None => e.kind == ErrorKind::EmptyScheme,
            },
            None => e.kind == ErrorKind::MalformedUri,
        },
{
    match hyper_parse_uri(req_uri) {
        Err(cause) => Err(Error::new(ErrorKind::MalformedUri, cause)),
        Ok(parts) => {
            let UriParts { text, scheme, authority } = parts;
            match scheme {
                None => Err(Error::new(ErrorKind::EmptyScheme, String::from_str("empty scheme"))),
                Some(sch) => {
                    if sch.as_str().is_empty() {
                        return Err(
                            Error::new(ErrorKind::EmptyScheme, String::from_str("empty scheme")),
                        );
                    }
                    match authority {
                        None => Err(
                            Error::new(
                                ErrorKind::MalformedUri,
                                String::from_str("missing authority"),
                            ),
                        ),
                        Some(auth) => {
                            if auth.as_str().is_empty() {
                                return Err(
                                    Error::new(
                                        ErrorKind::MalformedUri,
                                        String::from_str("empty authority"),
                                    ),
                                );
                            }
                            Ok(ValidatedUri { text, scheme: sch, authority: auth })
                        },
                    }
                },
            }
        },
    }
}

} // verus!
