//! What holds of every run, proved from the outcomes that the step
//! functions promise.
//!
//! Each law takes the codec's verdict on the fetched body as `loaded`.
//! Where a law speaks of whether the body decodes, it asks that `loaded` be
//! a verdict that the codec can give on that body, as the step functions
//! promise of the one they act on.

use vstd::prelude::*;
use image::{DynamicImage, ImageError};
use url::{ParseError, Url};
use crate::address::parsed_url;
use crate::codec::{decoded_image, png_encoding};
use crate::error::{Error, ErrorKind};
use crate::pipeline::{
    after_fetch, after_upload, decoder_gave, run_outcome, upload_body, ActionView,
};
use crate::stages::{fetch_outcome, is_success, is_verdict_on, ResponseView};

verus! {

/// A run succeeds exactly when every stage does: the fetch is answered with
/// a success status, the body decodes, the transform returns an image, the
/// image encodes, the upload is answered with a link, and the link parses.
/// Its result is then the URL that the link parses to, and no other.
pub proof fn law_success_is_the_parsed_link(
    fetch_report: Result<ResponseView, String>,
    loaded: Result<DynamicImage, ImageError>,
    transformed: Option<DynamicImage>,
    upload_report: Result<Option<Seq<char>>, String>,
    url: Url,
)
    requires
        decoder_gave(fetch_report, loaded),
    ensures
        run_outcome(fetch_report, loaded, transformed, upload_report) == Ok::<Url, Error>(url)
            <==> {
            &&& fetch_report matches Ok(answer)
            &&& is_success(answer.status)
            &&& decoded_image(answer.body) is Some
            &&& transformed matches Some(out)
            &&& png_encoding(out) is Ok
            &&& upload_report matches Ok(Some(link))
            &&& parsed_url(link) == Ok::<Url, ParseError>(url)
        },
{
}

/// Where the fetched body decodes and the transform returns nothing, the
/// run is rejected: nothing is uploaded, and no upload report could change
/// the result.
pub proof fn law_rejection_ends_the_run(
    answer: ResponseView,
    loaded: Result<DynamicImage, ImageError>,
    upload_report: Result<Option<Seq<char>>, String>,
)
    requires
        is_success(answer.status),
        decoded_image(answer.body) is Some,
        is_verdict_on(loaded, answer.body),
    ensures
        after_fetch(Ok(answer), loaded, None) == ActionView::Finish(Err(Error::PipelineErr)),
        run_outcome(Ok(answer), loaded, None, upload_report) == Err::<Url, Error>(
            Error::PipelineErr,
        ),
        Error::PipelineErr.kind() == ErrorKind::PipelineRejected,
{
}

/// Where the fetch does not complete, or is answered with a status that is
/// no success, the run ends at once with a transport failure: nothing is
/// uploaded, whatever the body holds, whatever the transform would have
/// returned and whatever an upload would have been answered.
pub proof fn law_failed_fetch_ends_the_run(
    fetch_report: Result<ResponseView, String>,
    loaded: Result<DynamicImage, ImageError>,
    transformed: Option<DynamicImage>,
    upload_report: Result<Option<Seq<char>>, String>,
)
    requires
        fetch_report matches Ok(answer) ==> !is_success(answer.status),
    ensures
        fetch_outcome(fetch_report) matches Err(e) && {
            &&& e.kind() == ErrorKind::Transport
            &&& after_fetch(fetch_report, loaded, transformed) == ActionView::Finish(Err(e))
            &&& run_outcome(fetch_report, loaded, transformed, upload_report) == Err::<Url, Error>(
                e,
            )
        },
        fetch_report matches Err(reason) ==> fetch_outcome(fetch_report) == Err::<Seq<u8>, Error>(
            Error::ReqwestErr(reason),
        ),
        fetch_report matches Ok(answer) ==> fetch_outcome(fetch_report) == Err::<Seq<u8>, Error>(
            Error::StatusErr(answer.status),
        ),
{
}

/// Where the fetched body is no image that the decoder knows, the run ends
/// with a decode failure that carries the codec's account: the transform's
/// answer does not count, and nothing is uploaded.
pub proof fn law_undecodable_body_ends_the_run(
    answer: ResponseView,
    loaded: Result<DynamicImage, ImageError>,
    transformed: Option<DynamicImage>,
    upload_report: Result<Option<Seq<char>>, String>,
)
    requires
        is_success(answer.status),
        decoded_image(answer.body) is None,
        is_verdict_on(loaded, answer.body),
    ensures
        loaded matches Err(account) && {
            &&& after_fetch(Ok(answer), loaded, transformed) == ActionView::Finish(
                Err(Error::ImageErr(account)),
            )
            &&& run_outcome(Ok(answer), loaded, transformed, upload_report) == Err::<Url, Error>(
                Error::ImageErr(account),
            )
            &&& Error::ImageErr(account).kind() == ErrorKind::Decode
        },
{
}

/// An upload that is answered without a link ends the run with a missing
/// result URL; an upload that does not complete ends it with a transport
/// failure. The two are never the same error, nor of the same class.
pub proof fn law_missing_link_is_no_transport_failure(reason: String)
    ensures
        after_upload(Ok(None)) == ActionView::Finish(Err(Error::NoUrlErr)),
        after_upload(Err(reason)) == ActionView::Finish(Err(Error::ImgurErr(reason))),
        Error::NoUrlErr.kind() == ErrorKind::MissingResultUrl,
        Error::ImgurErr(reason).kind() == ErrorKind::Transport,
        after_upload(Ok(None)) != after_upload(Err(reason)),
{
}

/// With a transform that returns its input unchanged, what is uploaded is
/// the PNG encoding of the very image that the fetched body decodes to.
pub proof fn law_identity_uploads_the_decoded_image(
    answer: ResponseView,
    loaded: Result<DynamicImage, ImageError>,
    img: DynamicImage,
    png: Seq<u8>,
)
    requires
        is_success(answer.status),
        decoded_image(answer.body) == Some(img),
        is_verdict_on(loaded, answer.body),
        png_encoding(img) == Ok::<Seq<u8>, ImageError>(png),
    ensures
        loaded == Ok::<DynamicImage, ImageError>(img),
        after_fetch(Ok(answer), loaded, Some(img)) == ActionView::Upload(png),
{
}

/// A run makes at most one fetch and at most one upload, in that order: no
/// report is ever answered with a second fetch, an upload is asked for only
/// with an encoded body in hand, a run that ends on the fetch report ends
/// in failure, and an upload report always ends the run.
pub proof fn law_one_fetch_then_one_upload(
    fetch_report: Result<ResponseView, String>,
    loaded: Result<DynamicImage, ImageError>,
    transformed: Option<DynamicImage>,
    upload_report: Result<Option<Seq<char>>, String>,
)
    ensures
        !(after_fetch(fetch_report, loaded, transformed) is Fetch),
        after_fetch(fetch_report, loaded, transformed) is Upload <==> upload_body(
            fetch_report,
            loaded,
            transformed,
        ) is Ok,
        after_fetch(fetch_report, loaded, transformed) matches ActionView::Finish(result)
            ==> result is Err,
        after_upload(upload_report) is Finish,
{
}

/// The result of a run is what a caller who follows the steps ends with:
/// where the fetch report ends the run, that result, whatever an upload
/// would have been answered; else the result that the upload report ends
/// it with. So the first stage to fail decides the error.
pub proof fn law_run_follows_the_steps(
    fetch_report: Result<ResponseView, String>,
    loaded: Result<DynamicImage, ImageError>,
    transformed: Option<DynamicImage>,
    upload_report: Result<Option<Seq<char>>, String>,
)
    ensures
        after_fetch(fetch_report, loaded, transformed) matches ActionView::Finish(result)
            ==> run_outcome(fetch_report, loaded, transformed, upload_report) == result,
        after_fetch(fetch_report, loaded, transformed) is Upload ==> after_upload(upload_report)
            == ActionView::Finish(
            run_outcome(fetch_report, loaded, transformed, upload_report),
        ),
{
}

} // verus!
