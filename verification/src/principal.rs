//! Principal identity for multi-user deployments.
//!
//! A [`PrincipalId`] identifies a user (human or agent). Each principal gets
//! an isolated home directory under `~/.astrid/home/{principal}/`.

use vstd::prelude::*;
use crate::text::{ascii_alnum, chars_to_string, is_ascii_alnum, str_to_chars, IntoText};

verus! {

/// Characters a principal id may hold: `[a-zA-Z0-9_-]`.
pub open spec fn is_principal_char(c: char) -> bool {
    is_ascii_alnum(c) || c == '-' || c == '_'
}

/// Index of the first character that is not a principal character
/// (`s.len()` when there is none).
pub open spec fn first_bad_principal_char(s: Seq<char>) -> int
    decreases s.len(),
{
    if s.len() == 0 || !is_principal_char(s[0]) {
        0
    } else {
        1 + first_bad_principal_char(s.drop_first())
    }
}

/// A well-formed principal id: 1 to 64 characters of `[a-zA-Z0-9_-]`.
pub open spec fn is_valid_principal(s: Seq<char>) -> bool {
    &&& s.len() > 0
    &&& s.len() <= 64
    &&& forall|i: int| 0 <= i < s.len() ==> #[trigger] is_principal_char(s[i])
}

proof fn lemma_first_bad_principal_char(s: Seq<char>)
    ensures
        0 <= first_bad_principal_char(s) <= s.len(),
        forall|i: int| 0 <= i < first_bad_principal_char(s) ==> is_principal_char(s[i]),
        first_bad_principal_char(s) < s.len() ==> !is_principal_char(
            s[first_bad_principal_char(s)],
        ),
    decreases s.len(),
{
    if s.len() > 0 && is_principal_char(s[0]) {
        lemma_first_bad_principal_char(s.drop_first());
        assert forall|i: int| 0 <= i < first_bad_principal_char(s) implies is_principal_char(
            s[i],
        ) by {
            if i > 0 {
                assert(s[i] == s.drop_first()[i - 1]);
            }
        }
    }
}

/// Validated principal identifier.
#[derive(Clone, Debug, PartialEq, Eq, Hash)]
pub struct PrincipalId(String);

/// Error returned when a [`PrincipalId`] string fails validation.
#[derive(Debug, Clone, PartialEq, Eq)]
pub enum PrincipalIdError {
    /// The input was empty.
    Empty,
    /// The input exceeded the 64-character limit.
    TooLong,
    /// The input contained a character outside `[a-zA-Z0-9_-]`.
    InvalidChar(char),
}

impl PrincipalIdError {
    /// Human-readable description of the error.
    pub fn message(&self) -> (r: String)
        ensures
            r@ == match *self {
                PrincipalIdError::Empty => "principal id must not be empty"@,
                PrincipalIdError::TooLong => "principal id exceeds 64 characters"@,
                PrincipalIdError::InvalidChar(c) => "principal id contains invalid character '"@
                    + seq![c] + "' (allowed: a-z, A-Z, 0-9, -, _)"@,
            },
    {
        match self {
            PrincipalIdError::Empty => String::from_str("principal id must not be empty"),
            PrincipalIdError::TooLong => String::from_str("principal id exceeds 64 characters"),
            PrincipalIdError::InvalidChar(c) => {
                let mut m = String::from_str("principal id contains invalid character '");
                m.push(*c);
                m.append("' (allowed: a-z, A-Z, 0-9, -, _)");
                m
            },
        }
    }
}

impl View for PrincipalId {
    type V = Seq<char>;

    closed spec fn view(&self) -> Seq<char> {
        self.0@
    }
}

/// What validating `s` as a principal id gives.
pub open spec fn principal_result(s: Seq<char>) -> Result<Seq<char>, PrincipalIdError> {
    if s.len() == 0 {
        Err(PrincipalIdError::Empty)
    } else if s.len() > 64 {
        Err(PrincipalIdError::TooLong)
    } else if first_bad_principal_char(s) < s.len() {
        Err(PrincipalIdError::InvalidChar(s[first_bad_principal_char(s)]))
    } else {
        Ok(s)
    }
}

impl PrincipalId {
    /// A copy of the id.
    pub fn duplicate(&self) -> (r: Self)
        ensures
            r == *self,
    {
        PrincipalId(self.0.clone())
    }

    /// Create a new `PrincipalId`, validating the input.
    ///
    /// Fails with [`PrincipalIdError::Empty`] on empty input, then
    /// [`PrincipalIdError::TooLong`] above 64 characters, then with the first
    /// character outside `[a-zA-Z0-9_-]`.
    #[verifier::loop_isolation(false)]
    pub fn new<S: IntoText>(id: S) -> (r: Result<Self, PrincipalIdError>)
        ensures
            match r {
                Ok(p) => principal_result(id.text_view()) == Ok::<Seq<char>, PrincipalIdError>(p@),
                Err(e) => principal_result(id.text_view()) == Err::<Seq<char>, PrincipalIdError>(e),
            },
            r is Ok <==> is_valid_principal(id.text_view()),
    {
        let id = id.into_text();
        let chars = str_to_chars(id.as_str());
        proof {
            lemma_first_bad_principal_char(chars@);
        }
        if chars.len() == 0 {
            return Err(PrincipalIdError::Empty);
        }
        if chars.len() > 64 {
            return Err(PrincipalIdError::TooLong);
        }
        let mut i: usize = 0;
        while i < chars.len()
            invariant
                i <= chars@.len(),
                forall|j: int| 0 <= j < i ==> is_principal_char(#[trigger] chars@[j]),
                0 <= first_bad_principal_char(chars@) <= chars@.len(),
                forall|j: int| 0 <= j < first_bad_principal_char(chars@) ==> is_principal_char(chars@[j]),
                first_bad_principal_char(chars@) < chars@.len() ==> !is_principal_char(
                    chars@[first_bad_principal_char(chars@)],
                ),
            decreases chars@.len() - i,
        {
            let c = chars[i];
            if !(ascii_alnum(c) || c == '-' || c == '_') {
                assert(first_bad_principal_char(chars@) == i);
                return Err(PrincipalIdError::InvalidChar(c));
            }
            i = i + 1;
        }
        Ok(PrincipalId(id))
    }

    /// Return the underlying string slice.
    pub fn as_str(&self) -> (r: &str)
        ensures
            r@ == self@,
    {
        self.0.as_str()
    }

    /// The id as an owned string.
    pub fn to_string(&self) -> (r: String)
        ensures
            r@ == self@,
    {
        self.0.clone()
    }

    /// The default principal, `"default"` (single-user mode).
    pub fn default_principal() -> (r: Self)
        ensures
            r@ == "default"@,
    {
        PrincipalId(String::from_str("default"))
    }
}

impl Default for PrincipalId {
    fn default() -> (r: Self)
        ensures
            r@ == "default"@,
    {
        PrincipalId::default_principal()
    }
}

impl From<PrincipalId> for String {
    fn from(id: PrincipalId) -> (r: String)
        ensures
            r@ == id@,
    {
        id.0
    }
}

impl vstd::std_specs::convert::FromSpecImpl<PrincipalId> for String {
    open spec fn obeys_from_spec() -> bool {
        true
    }

    closed spec fn from_spec(v: PrincipalId) -> String {
        v.0
    }
}

impl core::str::FromStr for PrincipalId {
    type Err = PrincipalIdError;

    fn from_str(s: &str) -> (r: Result<Self, Self::Err>)
        ensures
            match r {
                Ok(p) => principal_result(s@) == Ok::<Seq<char>, PrincipalIdError>(p@),
                Err(e) => principal_result(s@) == Err::<Seq<char>, PrincipalIdError>(e),
            },
    {
        PrincipalId::new(s)
    }
}

impl AsRef<str> for PrincipalId {
    fn as_ref(&self) -> (r: &str)
        ensures
            r@ == self@,
    {
        self.0.as_str()
    }
}

} // verus!
