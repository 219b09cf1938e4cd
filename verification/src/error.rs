//! The pipeline's failure taxonomy and its mapping to HTTP status codes.

use vstd::prelude::*;
use crate::api;

verus! {

/// Every way one pipeline run can fail. A failure is terminal for its
/// request: nothing is retried, and the caller receives exactly one of these.
#[derive(Clone, Debug, PartialEq, Eq)]
pub enum Error {
    /// The directory lookup matched no player.
    NoPlayer,
    /// The profile has no texture attribute, or the blob has no skin entry.
    NoSkin,
    /// The texture attribute's value is not valid standard base64.
    Base64,
    /// The decoded bytes are not a well-formed texture blob.
    Json,
    /// The upstream reported an application-level failure envelope.
    Api(api::Error),
}

impl Error {
    /// True of the failures a caller can cure by asking for another name:
    /// the lookup or the profile simply had nothing to offer.
    pub open spec fn is_not_found(&self) -> bool {
        self is NoPlayer || self is NoSkin
    }

    /// The HTTP status this failure maps to: 404 where nothing was found,
    /// 500 for everything unexpected.
    pub fn status_code(&self) -> (code: u16)
        ensures
            self.is_not_found() ==> code == 404,
            !self.is_not_found() ==> code == 500,
    {
        match self {
            Self::NoPlayer | Self::NoSkin => 404,
            _ => 500,
        }
    }
}

} // verus!
