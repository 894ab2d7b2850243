//! The environment that the daemon runs in, as it tells its peers.

use vstd::prelude::*;
use vstd::string::StringExecFns;

verus! {

/// The text in lower case, as `str::to_lowercase` gives it.
pub uninterp spec fn lowercase_of(text: Seq<char>) -> Seq<char>;

/// Calls `str::to_lowercase`. Trusted: the result is the text that
/// [`lowercase_of`] names.
#[verifier::external_body]
pub(crate) fn to_lowercase(text: &str) -> (lower: String)
    ensures
        lower@ == lowercase_of(text@),
{
    text.to_lowercase()
}

/// The name of an environment. Names are kept in lower case, but for the name
/// `Unknown`, which older peers send in this spelling.
#[derive(Debug, Clone, PartialEq, Eq)]
pub struct Environment(String);

impl View for Environment {
    type V = Seq<char>;

    closed spec fn view(&self) -> Seq<char> {
        self.0@
    }
}

impl Environment {
    /// The spelling in which a name is kept.
    pub open spec fn known_variance(name: Seq<char>) -> Seq<char> {
        if lowercase_of(name) == "unknown"@ {
            "Unknown"@
        } else {
            lowercase_of(name)
        }
    }

    /// The environment of a name, in any case.
    pub fn new(val: &str) -> (environment: Environment)
        ensures
            environment@ == Self::known_variance(val@),
    {
        Environment(Environment::parse_known_variances(val))
    }

    /// The environment that is not known.
    pub fn unknown() -> (environment: Environment)
        ensures
            environment@ == "Unknown"@,
    {
        Environment(String::from_str("Unknown"))
    }

    /// The name of the environment.
    pub fn as_string(&self) -> (name: String)
        ensures
            name@ == self@,
    {
        self.0.clone()
    }

    fn parse_known_variances(string: &str) -> (name: String)
        ensures
            name@ == Self::known_variance(string@),
    {
        let lower = to_lowercase(string);
        if lower == String::from_str("unknown") {
            String::from_str("Unknown")
        } else {
            lower
        }
    }
}

} // verus!
