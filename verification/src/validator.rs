use vstd::prelude::*;
use vstd::string::StrSliceExecFns;

verus! {

/// The fewest characters a compliant password can have.
pub const MINIMUM_LENGTH: usize = 8;

/// Whether the character has the Unicode Lowercase property.
pub uninterp spec fn unicode_lowercase(c: char) -> bool;

/// Whether the character has the Unicode Uppercase property.
pub uninterp spec fn unicode_uppercase(c: char) -> bool;

/// Relies on `char::is_lowercase`: whether the character has the Unicode
/// Lowercase property, a function of the character alone.
#[verifier::external_body]
fn char_is_lowercase(c: char) -> (r: bool)
    ensures
        r == unicode_lowercase(c),
{
    c.is_lowercase()
}

/// Relies on `char::is_uppercase`: whether the character has the Unicode
/// Uppercase property, a function of the character alone.
#[verifier::external_body]
fn char_is_uppercase(c: char) -> (r: bool)
    ensures
        r == unicode_uppercase(c),
{
    c.is_uppercase()
}

/// Whether the character is a decimal digit.
pub open spec fn spec_is_digit(c: char) -> bool {
    '0' <= c && c <= '9'
}

fn is_decimal_digit(c: char) -> (r: bool)
    ensures
        r == spec_is_digit(c),
{
    '0' <= c && c <= '9'
}

/// A single requirement a password can miss.
#[derive(Clone, Copy, Debug, PartialEq, Eq)]
pub enum Criteria {
    LowercaseChar,
    UppercaseChar,
    Digit,
}

/// The wording used when reporting a missing requirement.
pub open spec fn spec_describe(c: Criteria) -> Seq<char> {
    match c {
        Criteria::LowercaseChar => "1 lowercase character"@,
        Criteria::UppercaseChar => "1 uppercase character"@,
        Criteria::Digit => "1 digit"@,
    }
}

impl Criteria {
    /// How the missing requirement is reported to the user.
    pub fn describe(self) -> (r: &'static str)
        ensures
            r@ == spec_describe(self),
    {
        match self {
            Criteria::LowercaseChar => "1 lowercase character",
            Criteria::UppercaseChar => "1 uppercase character",
            Criteria::Digit => "1 digit",
        }
    }
}

/// The outcome of validating one password attempt.
#[derive(Debug, PartialEq, Eq)]
pub enum ValidationState {
    TooShort,
    Failed(Vec<Criteria>),
    Passed,
}

/// Whether some character of s has the Unicode Lowercase property.
pub open spec fn spec_has_lowercase(s: Seq<char>) -> bool {
    exists|j: int| 0 <= j < s.len() && unicode_lowercase(s[j])
}

/// Whether some character of s has the Unicode Uppercase property.
pub open spec fn spec_has_uppercase(s: Seq<char>) -> bool {
    exists|j: int| 0 <= j < s.len() && unicode_uppercase(s[j])
}

/// Whether some character of s is a decimal digit.
pub open spec fn spec_has_digit(s: Seq<char>) -> bool {
    exists|j: int| 0 <= j < s.len() && spec_is_digit(s[j])
}

/// The criteria the password misses, always in the order lowercase,
/// uppercase, digit.
pub open spec fn spec_missing(s: Seq<char>) -> Seq<Criteria> {
    (if !spec_has_lowercase(s) {
        seq![Criteria::LowercaseChar]
    } else {
        Seq::empty()
    }) + (if !spec_has_uppercase(s) {
        seq![Criteria::UppercaseChar]
    } else {
        Seq::empty()
    }) + (if !spec_has_digit(s) {
        seq![Criteria::Digit]
    } else {
        Seq::empty()
    })
}

/// Validate one password attempt: fewer than MINIMUM_LENGTH characters is
/// TooShort; otherwise Failed carries exactly the missing criteria, and the
/// password Passed when a lowercase letter, an uppercase letter and a digit
/// are all present.
pub fn validate(password: String) -> (r: ValidationState)
    ensures
        r is TooShort <==> password@.len() < MINIMUM_LENGTH,
        r is Passed <==> (password@.len() >= MINIMUM_LENGTH && spec_missing(password@).len()
            == 0),
        r is Failed <==> (password@.len() >= MINIMUM_LENGTH && spec_missing(password@).len() > 0),
        (r matches ValidationState::Failed(missing) ==> missing@ == spec_missing(password@)),
{
    let s = password.as_str();
    let len = s.unicode_len();
    if len < MINIMUM_LENGTH {
        return ValidationState::TooShort;
    }
    let mut has_lowercase = false;
    let mut has_uppercase = false;
    let mut has_digit = false;
    let mut idx: usize = 0;
    while idx < len
        invariant
            idx <= len,
            len as nat == s@.len(),
            s@ == password@,
            has_lowercase <==> exists|j: int| 0 <= j < idx && unicode_lowercase(s@[j]),
            has_uppercase <==> exists|j: int| 0 <= j < idx && unicode_uppercase(s@[j]),
            has_digit <==> exists|j: int| 0 <= j < idx && spec_is_digit(s@[j]),
        decreases len - idx,
    {
        let c = s.get_char(idx);
        if char_is_lowercase(c) {
            has_lowercase = true;
        }
        if char_is_uppercase(c) {
            has_uppercase = true;
        }
        if is_decimal_digit(c) {
            has_digit = true;
        }
        idx = idx + 1;
    }
    let mut failures: Vec<Criteria> = Vec::new();
    if !has_lowercase {
        failures.push(Criteria::LowercaseChar);
    }
    if !has_uppercase {
        failures.push(Criteria::UppercaseChar);
    }
    if !has_digit {
        failures.push(Criteria::Digit);
    }
    if failures.len() > 0 {
        proof {
            assert(failures@ =~= spec_missing(password@));
        }
        ValidationState::Failed(failures)
    } else {
        proof {
            assert(spec_missing(password@) =~= Seq::empty());
        }
        ValidationState::Passed
    }
}

} // verus!
