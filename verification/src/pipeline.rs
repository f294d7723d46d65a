//! The run as a sequence of steps. The library decides each step; the
//! caller performs the network call that the step names and reports back.
//!
//! A run opens with [`start`], which asks for the fetch. The report of the
//! fetch goes to [`on_fetched`], which either asks for the upload or ends
//! the run. The report of the upload goes to [`on_uploaded`], which ends
//! the run.

use vstd::prelude::*;
use image::{DynamicImage, ImageError};
use url::Url;
use crate::address::url_text;
use crate::codec::png_encoding;
use crate::error::Error;
use crate::stages::{
    decode, decode_outcome, encode, encode_outcome, fetch_outcome, fetch_view, fetched,
    invoke, invoke_outcome, is_verdict_on, publish_outcome, published, upload_view, Response,
    ResponseView,
};

verus! {

/// What the caller is to do next.
#[derive(Debug)]
pub enum Action {
    /// GET this address and report the outcome to [`on_fetched`].
    Fetch(String),
    /// Upload these bytes to the hosting service and report the outcome to
    /// [`on_uploaded`].
    Upload(Vec<u8>),
    /// The run is over: this is its result.
    Finish(Result<Url, Error>),
}

/// An [`Action`] with its text or bytes as a sequence.
pub enum ActionView {
    Fetch(Seq<char>),
    Upload(Seq<u8>),
    Finish(Result<Url, Error>),
}

impl View for Action {
    type V = ActionView;

    open spec fn view(&self) -> ActionView {
        match *self {
            Action::Fetch(address) => ActionView::Fetch(address@),
            Action::Upload(body) => ActionView::Upload(body@),
            Action::Finish(result) => ActionView::Finish(result),
        }
    }
}

/// The bytes to upload after a fetch report, or the failure that ends the
/// run: the first of fetcher, decoder, invoker and encoder to fail decides.
/// `loaded` is the codec's verdict on the fetched body and `transformed`
/// what the transform returned on the decoded image; each counts only
/// where the run got that far.
pub open spec fn upload_body(
    report: Result<ResponseView, String>,
    loaded: Result<DynamicImage, ImageError>,
    transformed: Option<DynamicImage>,
) -> Result<Seq<u8>, Error> {
    match fetch_outcome(report) {
        Err(e) => Err(e),
        Ok(_) => match decode_outcome(loaded) {
            Err(e) => Err(e),
            Ok(_) => match invoke_outcome(transformed) {
                Err(e) => Err(e),
                Ok(out) => encode_outcome(png_encoding(out)),
            },
        },
    }
}

/// The step that follows a fetch report.
pub open spec fn after_fetch(
    report: Result<ResponseView, String>,
    loaded: Result<DynamicImage, ImageError>,
    transformed: Option<DynamicImage>,
) -> ActionView {
    match upload_body(report, loaded, transformed) {
        Ok(body) => ActionView::Upload(body),
        Err(e) => ActionView::Finish(Err(e)),
    }
}

/// The step that follows an upload report.
pub open spec fn after_upload(report: Result<Option<Seq<char>>, String>) -> ActionView {
    ActionView::Finish(publish_outcome(report))
}

/// The result of a whole run, given both reports, the codec's verdict and
/// the transform's answer. The upload report counts only where the run got
/// that far.
pub open spec fn run_outcome(
    fetch_report: Result<ResponseView, String>,
    loaded: Result<DynamicImage, ImageError>,
    transformed: Option<DynamicImage>,
    upload_report: Result<Option<Seq<char>>, String>,
) -> Result<Url, Error> {
    match upload_body(fetch_report, loaded, transformed) {
        Err(e) => Err(e),
        Ok(_) => publish_outcome(upload_report),
    }
}

/// Whether `loaded` is a verdict that the codec can give on the fetched
/// body. Holds of every verdict where the run never reaches the decoder.
pub open spec fn decoder_gave(
    report: Result<ResponseView, String>,
    loaded: Result<DynamicImage, ImageError>,
) -> bool {
    match fetch_outcome(report) {
        Err(_) => true,
        Ok(bytes) => is_verdict_on(loaded, bytes),
    }
}

/// Whether `transformed` is an answer that `pipeline` can give on the image
/// that the fetched body decoded to. Holds of every answer where the run
/// never reaches the transform.
pub open spec fn transform_gave<F>(
    pipeline: F,
    report: Result<ResponseView, String>,
    loaded: Result<DynamicImage, ImageError>,
    transformed: Option<DynamicImage>,
) -> bool where F: FnOnce(DynamicImage) -> Option<DynamicImage> {
    match fetch_outcome(report) {
        Err(_) => true,
        Ok(_) => match loaded {
            Err(_) => true,
            Ok(img) => pipeline.ensures((img,), transformed),
        },
    }
}

/// Opens a run: the first step is always to fetch the URL, by its own
/// text.
pub fn start(url: &Url) -> (action: Action)
    ensures
        action@ == ActionView::Fetch(url_text(*url)),
{
    Action::Fetch(url.as_str().to_owned())
}

/// Takes the report of the fetch and decides the next step: where the body
/// arrives, decodes, passes the transform and encodes, the upload of the
/// encoded bytes; else the end of the run with the first failure.
pub fn on_fetched<F>(report: Result<Response, String>, pipeline: F) -> (action: Action) where
    F: FnOnce(DynamicImage) -> Option<DynamicImage>,

    requires
        forall|img: DynamicImage| pipeline.requires((img,)),
    ensures
        exists|loaded: Result<DynamicImage, ImageError>, transformed: Option<DynamicImage>|
            decoder_gave(fetch_view(report), loaded) && transform_gave(
                pipeline,
                fetch_view(report),
                loaded,
                transformed,
            ) && action@ == #[trigger] after_fetch(fetch_view(report), loaded, transformed),
{
    let ghost seen = fetch_view(report);
    let bytes = match fetched(report) {
        Ok(bytes) => bytes,
        Err(e) => {
            // Neither the codec nor the transform was asked: any verdict will do.
            assert(after_fetch(seen, arbitrary(), None) == ActionView::Finish(Err(e)));
            return Action::Finish(Err(e));
        },
    };
    let img = match decode(bytes.as_slice()) {
        Ok(img) => img,
        Err(e) => {
            let ghost loaded = Err::<DynamicImage, ImageError>(e->ImageErr_0);
            assert(after_fetch(seen, loaded, None) == ActionView::Finish(Err(e)));
            return Action::Finish(Err(e));
        },
    };
    let ghost loaded = Ok::<DynamicImage, ImageError>(img);
    let out = match invoke(pipeline, img) {
        Ok(out) => out,
        Err(e) => {
            assert(after_fetch(seen, loaded, None) == ActionView::Finish(Err(e)));
            return Action::Finish(Err(e));
        },
    };
    let action = match encode(&out) {
        Ok(body) => Action::Upload(body),
        Err(e) => Action::Finish(Err(e)),
    };
    assert(action@ == after_fetch(seen, loaded, Some(out)));
    action
}

/// Takes the report of the upload and ends the run: with the URL that the
/// link parses to, or with the reason there is none.
pub fn on_uploaded(report: Result<Option<String>, String>) -> (action: Action)
    ensures
        action@ == after_upload(upload_view(report)),
{
    Action::Finish(published(report))
}

} // verus!
