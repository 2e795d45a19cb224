//! Semantic versions, read by the `semver` crate.

use crate::decode::FromJson;
use crate::error::DecodeError;
use crate::json::{Json, JsonView};
use vstd::prelude::*;

verus! {

/// `semver::Version`, carried through as it is: nothing here reads what it holds.
#[verifier::external_type_specification]
#[verifier::external_body]
pub struct ExVersion(semver::Version);

/// `semver::Error`, the refusal of a text by `semver::Version::parse`. It is told apart from a
/// version and dropped.
#[verifier::external_type_specification]
#[verifier::external_body]
pub struct ExVersionError(semver::Error);

/// `Clone` of `semver::Version`, which the crate derives: the copy is the version itself.
pub assume_specification[ <semver::Version as Clone>::clone ](version: &semver::Version) -> (copy:
    semver::Version)
    ensures
        copy == *version,
;

/// The version that `semver` reads from a text, or `None` where it refuses the text.
pub uninterp spec fn parsed_version(text: Seq<char>) -> Option<semver::Version>;

/// Calls `semver::Version::parse`. The contract claims only that the outcome is a function of
/// the text: the version read, or a refusal, is what [`parsed_version`] names.
#[verifier::external_body]
fn parse(text: &str) -> (parsed: Result<semver::Version, semver::Error>)
    ensures
        match parsed {
            Ok(version) => parsed_version(text@) == Some(version),
            Err(_) => parsed_version(text@) is None,
        },
{
    semver::Version::parse(text)
}

/// Reads a semantic version from a text, or `None` where the text is none.
pub fn read_version(text: &str) -> (version: Option<semver::Version>)
    ensures
        version == parsed_version(text@),
{
    match parse(text) {
        Ok(version) => Some(version),
        Err(_) => None,
    }
}

/// What a version field makes of the outcome of reading its text.
pub fn version_field(read: Option<semver::Version>, key: &'static str) -> (decoded: Result<
    semver::Version,
    DecodeError,
>)
    ensures
        decoded == match read {
            Some(version) => Ok::<semver::Version, DecodeError>(version),
            None => Err(DecodeError::BadVersion(key)),
        },
{
    match read {
        Some(version) => Ok(version),
        None => Err(DecodeError::BadVersion(key)),
    }
}

impl FromJson for semver::Version {
    open spec fn defect(v: JsonView, key: &'static str) -> Option<DecodeError> {
        match v {
            JsonView::Text(text) => if parsed_version(text) is Some {
                None
            } else {
                Some(DecodeError::BadVersion(key))
            },
            _ => Some(DecodeError::WrongType(key)),
        }
    }

    open spec fn encoded_by(&self, v: JsonView) -> bool {
        v matches JsonView::Text(text) && parsed_version(text) == Some(*self)
    }

    fn decode(json: &Json, key: &'static str) -> (decoded: Result<semver::Version, DecodeError>) {
        match json {
            Json::Text(text) => version_field(read_version(text.as_str()), key),
            _ => Err(DecodeError::WrongType(key)),
        }
    }
}

} // verus!
