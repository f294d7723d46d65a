//! The ways a run of the pipeline can fail.

use vstd::prelude::*;

verus! {

/// The failure classes that a caller has to tell apart.
#[derive(Clone, Copy, Debug, PartialEq, Eq, Structural)]
pub enum ErrorKind {
    /// The network, or the party at its other end, let the run down, on the
    /// way in or on the way out.
    Transport,
    /// The fetched bytes are not an image in any format the decoder knows.
    Decode,
    /// The transformed image could not be written in the upload format.
    Encode,
    /// A text that should be a URL is not one.
    UrlParse,
    /// The caller's transform declined the image.
    PipelineRejected,
    /// The hosting service took the upload but named no link.
    MissingResultUrl,
}

/// Why a run ended without a published URL.
///
/// Each variant belongs to exactly one stage, so the variant alone says how
/// far the run got.
#[derive(Debug)]
pub enum Error {
    /// The fetch did not complete; the text is the HTTP client's account.
    ReqwestErr(String),
    /// The fetch was answered with this status, which is not a success.
    StatusErr(u16),
    /// The decoder refused the fetched bytes.
    ImageErr(image::ImageError),
    /// The encoder could not write the transformed image.
    EncodeErr(image::ImageError),
    /// The upload did not complete; the text is the upload client's account.
    ImgurErr(String),
    /// The hosting service named a link that is not a URL.
    UrlErr(url::ParseError),
    /// The transform returned no image.
    PipelineErr,
    /// The hosting service answered without a link.
    NoUrlErr,
}

impl Error {
    /// The failure class of each variant.
    pub open spec fn spec_kind(&self) -> ErrorKind {
        match *self {
            Error::ReqwestErr(_) => ErrorKind::Transport,
            Error::StatusErr(_) => ErrorKind::Transport,
            Error::ImageErr(_) => ErrorKind::Decode,
            Error::EncodeErr(_) => ErrorKind::Encode,
            Error::ImgurErr(_) => ErrorKind::Transport,
            Error::UrlErr(_) => ErrorKind::UrlParse,
            Error::PipelineErr => ErrorKind::PipelineRejected,
            Error::NoUrlErr => ErrorKind::MissingResultUrl,
        }
    }

    /// The failure class of this error.
    #[verifier::when_used_as_spec(spec_kind)]
    pub fn kind(&self) -> (k: ErrorKind)
        ensures
            k == self.spec_kind(),
    {
        match self {
            Error::ReqwestErr(_) | Error::StatusErr(_) | Error::ImgurErr(_) => ErrorKind::Transport,
            Error::ImageErr(_) => ErrorKind::Decode,
            Error::EncodeErr(_) => ErrorKind::Encode,
            Error::UrlErr(_) => ErrorKind::UrlParse,
            Error::PipelineErr => ErrorKind::PipelineRejected,
            Error::NoUrlErr => ErrorKind::MissingResultUrl,
        }
    }
}

} // verus!
