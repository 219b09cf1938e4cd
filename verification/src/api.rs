//! Typed shapes of the three upstream calls: the directory lookup result, the
//! profile record, the decoded texture blob, and the discriminated
//! success-or-error response envelope that the first two calls answer with.

use vstd::prelude::*;

verus! {

/// The structured failure envelope an upstream call can answer with:
/// a machine-readable code and a human-readable message.
#[derive(Clone, Debug, PartialEq, Eq)]
pub struct ApiError {
    pub error: String,
    pub error_message: String,
}

/// An upstream call that answered, but reported an application-level
/// failure envelope instead of a payload.
#[derive(Clone, Debug, PartialEq, Eq)]
pub enum Error {
    Api(ApiError),
}

/// One resolved identifier from a directory lookup.
#[derive(Clone, Debug, PartialEq, Eq)]
pub struct GetUuid {
    pub id: String,
}

/// One profile attribute: a name/value pair.
#[derive(Clone, Debug, PartialEq, Eq)]
pub struct Property {
    pub name: String,
    pub value: String,
}

/// An upstream profile: an ordered sequence of attribute pairs.
#[derive(Clone, Debug, PartialEq, Eq)]
pub struct Profile {
    pub properties: Vec<Property>,
}

/// The skin sub-resource of a texture blob: where to fetch the image.
#[derive(Clone, Debug, PartialEq, Eq)]
pub struct Skin {
    pub url: String,
}

/// The keyed sub-resources of a texture blob; only the skin is consumed.
#[derive(Clone, Debug, PartialEq, Eq)]
pub struct Textures {
    pub skin: Option<Skin>,
}

/// A texture blob once decoded: JSON holding the optional skin sub-resource.
#[derive(Clone, Debug, PartialEq, Eq)]
pub struct PropertyTextures {
    pub textures: Textures,
}

/// A discriminated upstream response: either the typed success payload or
/// the upstream's structured error envelope.
#[derive(Clone, Debug, PartialEq, Eq)]
pub enum SuccessOrError<T> {
    Success(T),
    Error(ApiError),
}

impl<T> SuccessOrError<T> {
    /// Unwraps the envelope: the payload as it came, or the envelope as a
    /// typed domain error.
    pub fn into_success(self) -> (r: Result<T, Error>)
        ensures
            self matches SuccessOrError::Success(inner) ==> r == Ok::<T, Error>(inner),
            self matches SuccessOrError::Error(err) ==> r == Err::<T, Error>(Error::Api(err)),
    {
        match self {
            Self::Success(inner) => Ok(inner),
            Self::Error(err) => Err(Error::Api(err)),
        }
    }
}

} // verus!
