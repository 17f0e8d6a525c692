//! Request targets: URLs in their parsed, serialized form.

use vstd::prelude::*;

verus! {

#[verifier::external_type_specification]
#[verifier::external_body]
pub struct ExUrlParseError(url::ParseError);

/// What `url::Url::parse` makes of `input`: the parsed URL's serialization
/// and its scheme, or `None` where `input` is no URL.
pub uninterp spec fn parsed_url(input: Seq<char>) -> Option<(Seq<char>, Seq<char>)>;

/// Parses `input` with `url::Url::parse` and returns the URL's serialization
/// (its `Display` text) and its scheme.
///
/// Claims of `url::Url::parse`: the result is the named [`parsed_url`] of the
/// input, and parsing the serialization of a parsed URL gives that URL back
/// (the `url` crate's own `Url::check_invariants` asserts this re-parse).
#[verifier::external_body]
fn parse_url(input: &str) -> (r: Result<(String, String), url::ParseError>)
    ensures
        r is Ok <==> parsed_url(input@) is Some,
        r matches Ok(p) ==> parsed_url(input@) == Some((p.0@, p.1@)),
        r matches Ok(p) ==> parsed_url(p.0@) == Some((p.0@, p.1@)),
{
    match url::Url::parse(input) {
        Ok(u) => Ok((u.to_string(), u.scheme().to_string())),
        Err(e) => Err(e),
    }
}

/// The text given for a target is no URL.
#[derive(Clone, Copy, Debug, PartialEq, Eq, Structural)]
pub struct InvalidUrl;

/// A parsed URL, held as its serialization and its scheme.
///
/// Its view is the pair (serialization, scheme); the serialization parses back
/// to the same pair.
#[derive(Debug, PartialEq, Eq)]
pub struct Target {
    text: String,
    scheme: String,
}

impl Target {
    #[verifier::type_invariant]
    closed spec fn parses_back(self) -> bool {
        parsed_url(self.text@) == Some((self.text@, self.scheme@))
    }

    /// Parses `input` as a URL.
    pub fn parse(input: &str) -> (r: Result<Target, InvalidUrl>)
        ensures
            r is Ok <==> parsed_url(input@) is Some,
            r matches Ok(t) ==> parsed_url(input@) == Some(t@),
    {
        match parse_url(input) {
            Ok(p) => Ok(Target { text: p.0, scheme: p.1 }),
            Err(_) => Err(InvalidUrl),
        }
    }

    /// The URL's serialization.
    pub fn as_str(&self) -> (s: &str)
        ensures
            s@ == self@.0,
            parsed_url(s@) == Some(self@),
    {
        proof {
            use_type_invariant(self);
        }
        self.text.as_str()
    }

    /// The URL's scheme.
    pub fn scheme(&self) -> (s: &str)
        ensures
            s@ == self@.1,
    {
        self.scheme.as_str()
    }

    /// Whether the URL's scheme is `scheme`.
    pub fn has_scheme(&self, scheme: &str) -> (b: bool)
        ensures
            b == (self@.1 == scheme@),
    {
        self.scheme == scheme.to_owned()
    }

    /// The URL's serialization, as an owned string.
    pub fn to_text(&self) -> (s: String)
        ensures
            s@ == self@.0,
            parsed_url(s@) == Some(self@),
    {
        proof {
            use_type_invariant(self);
        }
        self.text.clone()
    }
}

impl Clone for Target {
    fn clone(&self) -> (r: Target)
        ensures
            r == *self,
    {
        proof {
            use_type_invariant(self);
        }
        Target { text: self.text.clone(), scheme: self.scheme.clone() }
    }
}

impl View for Target {
    type V = (Seq<char>, Seq<char>);

    closed spec fn view(&self) -> (Seq<char>, Seq<char>) {
        (self.text@, self.scheme@)
    }
}

} // verus!
