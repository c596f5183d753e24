//! Dump versions and the version requested by a user.

use vstd::prelude::*;
use vstd::string::*;
use crate::text::{all_digits, char_is_digit, is_digit, str_eq};

verus! {

/// The text of a version: exactly eight ASCII decimal digits, a date such as `20230301`.
pub open spec fn is_version_text(s: Seq<char>) -> bool {
    s.len() == 8 && all_digits(s)
}

/// The value of a decimal digit. Meaningful for digits only.
pub open spec fn digit_value(c: char) -> nat {
    (c as int - '0' as int) as nat
}

/// The number written by the decimal digits of `s`.
pub open spec fn decimal_value(s: Seq<char>) -> nat
    decreases s.len(),
{
    if s.len() == 0 {
        0
    } else {
        decimal_value(s.drop_last()) * 10 + digit_value(s.last())
    }
}

/// What a version request asks for, as plain text: `None` for the latest version,
/// `Some` with the eight digits for one exact version.
pub open spec fn spec_of_text(s: Seq<char>) -> Option<Option<Seq<char>>> {
    if s == "latest"@ {
        Some(None)
    } else if is_version_text(s) {
        Some(Some(s))
    } else {
        None
    }
}

/// The version of a dump: eight decimal digits. Two versions are equal when their texts are.
#[derive(Debug, PartialEq, Eq)]
pub struct Version {
    text: String,
}

impl View for Version {
    type V = Seq<char>;

    closed spec fn view(&self) -> Seq<char> {
        self.text@
    }
}

impl Clone for Version {
    fn clone(&self) -> (r: Self)
        ensures
            r == *self,
    {
        proof {
            use_type_invariant(self);
        }
        Version { text: self.text.clone() }
    }
}

impl Version {
    #[verifier::type_invariant]
    spec fn well_formed(self) -> bool {
        is_version_text(self.text@)
    }

    /// Reads a version from `s`. Succeeds exactly on eight ASCII decimal digits.
    pub fn parse(s: &str) -> (r: Option<Version>)
        ensures
            r is Some <==> is_version_text(s@),
            r matches Some(v) ==> v@ == s@,
    {
        if s.unicode_len() != 8 {
            return None;
        }
        let mut i: usize = 0;
        while i < 8
            invariant
                i <= 8,
                s@.len() == 8,
                forall|j: int| 0 <= j < i ==> is_digit(#[trigger] s@[j]),
            decreases 8 - i,
        {
            if !char_is_digit(s.get_char(i)) {
                return None;
            }
            i = i + 1;
        }
        Some(Version { text: String::from_str(s) })
    }

    /// The eight digits.
    pub fn as_str(&self) -> (r: &str)
        ensures
            r@ == self@,
            is_version_text(r@),
    {
        proof {
            use_type_invariant(self);
        }
        self.text.as_str()
    }

    /// The date as a number, by which versions are ordered: a later version has a larger one.
    pub fn number(&self) -> (n: u32)
        ensures
            n == decimal_value(self@),
            n < 100_000_000,
    {
        proof {
            use_type_invariant(self);
        }
        let s = self.text.as_str();
        let mut n: u32 = 0;
        let mut i: usize = 0;
        while i < 8
            invariant
                i <= 8,
                s@ == self@,
                is_version_text(s@),
                n == decimal_value(s@.subrange(0, i as int)),
                n < power_of_ten(i as nat),
            decreases 8 - i,
        {
            let c = s.get_char(i);
            let d: u32 = (c as u32) - ('0' as u32);
            proof {
                let t = s@.subrange(0, i as int + 1);
                assert(t.drop_last() =~= s@.subrange(0, i as int));
                assert(t.last() == c);
                assert(is_digit(s@[i as int]));
                lemma_power_of_ten(i as nat);
                lemma_power_of_ten(i as nat + 1);
            }
            n = n * 10 + d;
            i = i + 1;
        }
        proof {
            assert(s@.subrange(0, 8) =~= s@);
            lemma_power_of_ten(8);
        }
        n
    }

    /// Whether two versions have the same text.
    pub fn same(&self, other: &Version) -> (r: bool)
        ensures
            r == (self@ == other@),
    {
        self.text == other.text
    }
}

/// Ten to the power `i`.
pub open spec fn power_of_ten(i: nat) -> nat
    decreases i,
{
    if i == 0 {
        1
    } else {
        10 * power_of_ten((i - 1) as nat)
    }
}

proof fn lemma_power_of_ten(i: nat)
    requires
        i <= 8,
    ensures
        power_of_ten(i) <= 100_000_000,
        i < 8 ==> power_of_ten(i) <= 10_000_000,
        i > 0 ==> power_of_ten(i) == 10 * power_of_ten((i - 1) as nat),
{
    reveal_with_fuel(power_of_ten, 10);
}

/// The version a user asks for.
#[derive(Debug, PartialEq, Eq)]
pub enum VersionSpec {
    /// The most recent version whose data is complete.
    Latest,
    /// One exact version.
    Version(Version),
}

impl Clone for VersionSpec {
    fn clone(&self) -> (r: Self)
        ensures
            r == *self,
    {
        match self {
            VersionSpec::Latest => VersionSpec::Latest,
            VersionSpec::Version(v) => VersionSpec::Version(v.clone()),
        }
    }
}

impl View for VersionSpec {
    type V = Option<Seq<char>>;

    open spec fn view(&self) -> Option<Seq<char>> {
        match self {
            VersionSpec::Latest => None,
            VersionSpec::Version(v) => Some(v@),
        }
    }
}

/// Why a text is no version request.
#[derive(Debug, PartialEq, Eq)]
pub struct InvalidVersionSpec {}

impl InvalidVersionSpec {
    /// The explanation shown to the user.
    pub fn message(&self) -> (r: &'static str)
        ensures
            r@ == "The value must be 8 numerical digits (e.g. \"20230301\") or the string \"latest\"."@,
    {
        "The value must be 8 numerical digits (e.g. \"20230301\") or the string \"latest\"."
    }
}

impl VersionSpec {
    /// Reads a version request: the word `latest`, or the eight digits of a version.
    /// Every other text is refused.
    pub fn from_str(s: &str) -> (r: Result<VersionSpec, InvalidVersionSpec>)
        ensures
            r is Ok <==> spec_of_text(s@) is Some,
            r matches Ok(spec) ==> Some(spec@) == spec_of_text(s@),
    {
        if str_eq(s, "latest") {
            return Ok(VersionSpec::Latest);
        }
        match Version::parse(s) {
            Some(v) => Ok(VersionSpec::Version(v)),
            None => Err(InvalidVersionSpec {}),
        }
    }
}

impl std::str::FromStr for VersionSpec {
    type Err = InvalidVersionSpec;

    /// Reads a version request: `latest` or eight digits, as [`VersionSpec::from_str`].
    fn from_str(s: &str) -> (r: Result<VersionSpec, InvalidVersionSpec>)
        ensures
            r is Ok <==> spec_of_text(s@) is Some,
            r matches Ok(spec) ==> Some(spec@) == spec_of_text(s@),
    {
        VersionSpec::from_str(s)
    }
}

} // verus!
