//! From file names to the URIs that a pipeline opens.

use vstd::prelude::*;

verus! {

/// Why a path has no URI.
#[derive(Clone, Copy, Debug, PartialEq, Eq, Structural)]
pub enum UriError {
    /// The path is not absolute, or is of a form that no file URI names.
    NotConvertible,
}

impl UriError {
    /// What went wrong, in words.
    pub open spec fn text(self) -> Seq<char> {
        match self {
            UriError::NotConvertible => "Couldn't convert to uri"@,
        }
    }

    /// What went wrong, in words.
    pub fn message(&self) -> (m: &'static str)
        ensures
            m@ == self.text(),
    {
        match self {
            UriError::NotConvertible => "Couldn't convert to uri",
        }
    }
}

/// What every file URI begins with.
pub open spec fn file_scheme() -> Seq<char> {
    seq!['f', 'i', 'l', 'e', ':', '/', '/']
}

/// `url::Url::from_file_path`, and the URL as text. A URL that it makes is
/// in the `file` scheme. Which paths it takes depends on the platform's
/// notion of an absolute path, so nothing is claimed of when it makes one.
#[verifier::external_body]
fn file_url(path: &str) -> (url: Option<String>)
    ensures
        url matches Some(text) ==> file_scheme().is_prefix_of(text@),
{
    match url::Url::from_file_path(path) {
        Ok(url) => Some(url.to_string()),
        Err(()) => None,
    }
}

/// The answer for a conversion that yielded `converted`.
pub fn uri_of_conversion(converted: Option<String>) -> (r: Result<String, UriError>)
    ensures
        r == (match converted {
            Some(text) => Ok::<String, UriError>(text),
            None => Err::<String, UriError>(UriError::NotConvertible),
        }),
{
    match converted {
        Some(text) => Ok(text),
        None => Err(UriError::NotConvertible),
    }
}

/// The `file` URI of an absolute path.
pub fn path_to_uri(path: &str) -> (r: Result<String, UriError>)
    ensures
        r matches Ok(uri) ==> file_scheme().is_prefix_of(uri@),
{
    uri_of_conversion(file_url(path))
}

} // verus!
