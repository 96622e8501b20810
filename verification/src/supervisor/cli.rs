use vstd::prelude::*;

use crate::text::trim;

verus! {

/// Why a secret given on the command line is refused.
#[derive(Clone, Copy, Debug, PartialEq, Eq, Structural)]
pub enum SecretError {
    /// Both a value and a file were given.
    Both,
    /// The secret is empty (after trimming, for a file).
    Empty,
    /// The secret is required and neither was given.
    Missing,
}

/// A secret given by value or by file: not both; a file's content is
/// trimmed; the result must not be empty.
pub open spec fn spec_optional_secret(value: Option<Seq<char>>, file_text: Option<Seq<char>>) -> Result<Option<Seq<char>>, SecretError> {
    if value is Some && file_text is Some {
        Err(SecretError::Both)
    } else {
        let v = match (value, file_text) {
            (Some(v), _) => Some(v),
            (None, Some(t)) => Some(trim(t)),
            (None, None) => None,
        };
        if v matches Some(s) && s.len() == 0 {
            Err(SecretError::Empty)
        } else {
            Ok(v)
        }
    }
}

/// `file_text` is the content of the named file, or `None` when no file was
/// named; when a value is given too, the file is not read and any text
/// stands for it.
pub fn optional_secret(value: Option<String>, file_text: Option<String>) -> (r: Result<Option<String>, SecretError>)
    ensures
        match r {
            Ok(v) => spec_optional_secret(
                crate::gateway::state::opt_view(value),
                crate::gateway::state::opt_view(file_text),
            ) == Ok::<Option<Seq<char>>, SecretError>(crate::gateway::state::opt_view(v)),
            Err(e) => spec_optional_secret(
                crate::gateway::state::opt_view(value),
                crate::gateway::state::opt_view(file_text),
            ) == Err::<Option<Seq<char>>, SecretError>(e),
        },
{
    if value.is_some() && file_text.is_some() {
        return Err(SecretError::Both);
    }
    let v = match (value, file_text) {
        (Some(v), _) => Some(v),
        (None, Some(t)) => {
            let chars = crate::text::trim_str(t.as_str());
            Some(crate::text::from_chars(chars.as_slice()))
        },
        (None, None) => None,
    };
    match &v {
        Some(s) => if crate::text::str_is_empty(s.as_str()) {
            return Err(SecretError::Empty);
        },
        None => {},
    }
    Ok(v)
}

/// A required secret: as `optional_secret`, and one must be given.
pub fn secret(value: Option<String>, file_text: Option<String>) -> (r: Result<String, SecretError>)
    ensures
        match r {
            Ok(s) => spec_optional_secret(
                crate::gateway::state::opt_view(value),
                crate::gateway::state::opt_view(file_text),
            ) == Ok::<Option<Seq<char>>, SecretError>(Some(s@)),
            Err(SecretError::Missing) => spec_optional_secret(
                crate::gateway::state::opt_view(value),
                crate::gateway::state::opt_view(file_text),
            ) == Ok::<Option<Seq<char>>, SecretError>(None),
            Err(e) => spec_optional_secret(
                crate::gateway::state::opt_view(value),
                crate::gateway::state::opt_view(file_text),
            ) == Err::<Option<Seq<char>>, SecretError>(e),
        },
{
    match optional_secret(value, file_text) {
        Err(e) => Err(e),
        Ok(None) => Err(SecretError::Missing),
        Ok(Some(s)) => Ok(s),
    }
}

/// A secret that is given is never empty, and giving both forms is refused.
pub proof fn law_secret_never_empty(value: Option<Seq<char>>, file_text: Option<Seq<char>>)
    ensures
        spec_optional_secret(value, file_text) matches Ok(Some(s)) ==> s.len() > 0,
        value is Some && file_text is Some ==> spec_optional_secret(value, file_text) == Err::<Option<Seq<char>>, SecretError>(SecretError::Both),
{
}

} // verus!

verus! {

impl SecretError {
    pub open spec fn spec_message(self, description: Seq<char>) -> Seq<char> {
        match self {
            SecretError::Both => "specify "@ + description + " by value or file, not both"@,
            SecretError::Empty => description + " must not be empty"@,
            SecretError::Missing => description + " is required"@,
        }
    }

    /// The message the error is reported with, for the secret described.
    pub fn message(&self, description: &str) -> (r: String)
        ensures
            r@ == self.spec_message(description@),
    {
        match self {
            SecretError::Both => {
                let head = crate::text::concat_str("specify ", description);
                crate::text::concat_str(head.as_str(), " by value or file, not both")
            },
            SecretError::Empty => crate::text::concat_str(description, " must not be empty"),
            SecretError::Missing => crate::text::concat_str(description, " is required"),
        }
    }
}

} // verus!
