//! The optional file-name filter: a regular expression given by the user.

use vstd::prelude::*;
use vstd::string::*;

verus! {

/// A compiled regular expression of the `regex` crate. Nothing inside it is visible here.
#[verifier::external_type_specification]
#[verifier::external_body]
pub struct ExRegex(regex::Regex);

/// The error of the `regex` crate for a pattern that it does not compile.
#[verifier::external_type_specification]
#[verifier::external_body]
pub struct ExRegexError(regex::Error);

/// The pattern text a compiled expression was made from: what `regex::Regex::as_str` returns.
pub uninterp spec fn regex_source(re: regex::Regex) -> Seq<char>;

/// Whether a compiled expression matches somewhere in `haystack`: what
/// `regex::Regex::is_match` returns.
pub uninterp spec fn regex_matches(re: regex::Regex, haystack: Seq<char>) -> bool;

/// Calls `regex::Regex::new`. A compiled expression remembers the pattern it was made
/// from; whether a pattern compiles is left to the `regex` crate and not stated.
#[verifier::external_body]
fn regex_new(pattern: &str) -> (r: Result<regex::Regex, regex::Error>)
    ensures
        r matches Ok(re) ==> regex_source(re) == pattern@,
{
    regex::Regex::new(pattern)
}

/// Calls `regex::Regex::is_match`, an unanchored search of `haystack`.
#[verifier::external_body]
fn regex_is_match(re: &regex::Regex, haystack: &str) -> (b: bool)
    ensures
        b == regex_matches(*re, haystack@),
{
    re.is_match(haystack)
}

/// Calls `regex::Regex::as_str`, which returns the pattern that was compiled.
#[verifier::external_body]
fn regex_as_str(re: &regex::Regex) -> (s: &str)
    ensures
        s@ == regex_source(*re),
{
    re.as_str()
}

/// Calls `to_string` on a `regex::Error`: the crate's description of what is wrong with a
/// pattern. Nothing is claimed of the text.
#[verifier::external_body]
fn regex_error_text(e: &regex::Error) -> (s: String)
{
    e.to_string()
}

/// A pattern that could not be compiled, with the reason.
#[derive(Debug, PartialEq, Eq)]
pub struct InvalidRegex {
    pub pattern: String,
    pub reason: String,
}

/// A regular expression supplied by the user to select file names.
#[derive(Debug)]
pub struct UserRegex {
    re: regex::Regex,
}

impl View for UserRegex {
    type V = Seq<char>;

    /// The pattern text.
    closed spec fn view(&self) -> Seq<char> {
        regex_source(self.re)
    }
}

impl UserRegex {
    /// Whether the expression matches somewhere in `text`.
    pub closed spec fn matches(&self, text: Seq<char>) -> bool {
        regex_matches(self.re, text)
    }

    /// Wraps the outcome of compiling `pattern`: a compiled expression is kept, a refusal
    /// is reported with the pattern and the reason.
    pub fn from_compiled(pattern: &str, compiled: Result<regex::Regex, regex::Error>) -> (r: Result<
        UserRegex,
        InvalidRegex,
    >)
        ensures
            r is Ok <==> compiled is Ok,
            r matches Ok(u) ==> u@ == regex_source(compiled->Ok_0) && forall|t: Seq<char>|
                u.matches(t) == regex_matches(compiled->Ok_0, t),
            r matches Err(e) ==> e.pattern@ == pattern@,
    {
        match compiled {
            Ok(re) => Ok(UserRegex { re }),
            Err(e) => Err(
                InvalidRegex { pattern: String::from_str(pattern), reason: regex_error_text(&e) },
            ),
        }
    }

    /// Compiles `pattern`. Which patterns compile is decided by the `regex` crate; a
    /// compiled expression has `pattern` as its text.
    pub fn from_str(pattern: &str) -> (r: Result<UserRegex, InvalidRegex>)
        ensures
            r matches Ok(u) ==> u@ == pattern@,
            r matches Err(e) ==> e.pattern@ == pattern@,
    {
        let compiled = regex_new(pattern);
        UserRegex::from_compiled(pattern, compiled)
    }

    /// The pattern text.
    pub fn as_str(&self) -> (s: &str)
        ensures
            s@ == self@,
    {
        regex_as_str(&self.re)
    }

    /// Searches `text` for a match, anywhere in it.
    pub fn is_match(&self, text: &str) -> (b: bool)
        ensures
            b == self.matches(text@),
    {
        regex_is_match(&self.re, text)
    }
}

impl std::str::FromStr for UserRegex {
    type Err = InvalidRegex;

    /// Compiles a pattern as [`UserRegex::from_str`] does; the `regex` crate decides.
    fn from_str(pattern: &str) -> (r: Result<UserRegex, InvalidRegex>)
        ensures
            r matches Ok(u) ==> u@ == pattern@,
            r matches Err(e) ==> e.pattern@ == pattern@,
    {
        UserRegex::from_str(pattern)
    }
}

} // verus!
