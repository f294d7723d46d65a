//! The five stages of a run, each with the outcome it owes.
//!
//! The network calls themselves are the caller's; the fetcher and the
//! publisher here read what the caller reports of them. A stage that leans
//! on the codec or on the URL parser comes in two parts: a function that
//! reads the outside verdict, and one that asks for the verdict and hands
//! it to the first.

use vstd::prelude::*;
use image::{DynamicImage, ImageError};
use url::{ParseError, Url};
use crate::address::parsed_url;
use crate::codec::{decoded_image, png_encoding, write_png};
use crate::error::Error;

verus! {

/// An answer to the GET: its status code and its whole body.
#[derive(Debug)]
pub struct Response {
    pub status: u16,
    pub body: Vec<u8>,
}

/// A [`Response`] with the body as a sequence.
pub struct ResponseView {
    pub status: u16,
    pub body: Seq<u8>,
}

impl View for Response {
    type V = ResponseView;

    open spec fn view(&self) -> ResponseView {
        ResponseView { status: self.status, body: self.body@ }
    }
}

/// Whether a status code reports success: the codes from 200 to 299.
pub open spec fn is_success(status: u16) -> bool {
    200 <= status <= 299
}

/// The fetcher's outcome, given what the caller reports of the GET: the
/// body of an answer with a success status; else the status, or the
/// client's account of why no answer came.
pub open spec fn fetch_outcome(report: Result<ResponseView, String>) -> Result<Seq<u8>, Error> {
    match report {
        Err(reason) => Err(Error::ReqwestErr(reason)),
        Ok(answer) => if is_success(answer.status) {
            Ok(answer.body)
        } else {
            Err(Error::StatusErr(answer.status))
        },
    }
}

/// Whether `loaded` is a verdict that the codec can give on `bytes`: the
/// image that they decode to, or, where they do not decode, any refusal.
pub open spec fn is_verdict_on(loaded: Result<DynamicImage, ImageError>, bytes: Seq<u8>) -> bool {
    match decoded_image(bytes) {
        Some(img) => loaded == Ok::<DynamicImage, ImageError>(img),
        None => loaded is Err,
    }
}

/// The decoder's outcome, given the codec's verdict on the fetched bytes:
/// the image, or the codec's refusal as a decode failure.
pub open spec fn decode_outcome(loaded: Result<DynamicImage, ImageError>) -> Result<
    DynamicImage,
    Error,
> {
    match loaded {
        Ok(img) => Ok(img),
        Err(e) => Err(Error::ImageErr(e)),
    }
}

/// The invoker's outcome, given what the transform returned: the new image,
/// or a rejection.
pub open spec fn invoke_outcome(transformed: Option<DynamicImage>) -> Result<DynamicImage, Error> {
    match transformed {
        Some(img) => Ok(img),
        None => Err(Error::PipelineErr),
    }
}

/// The encoder's outcome, given the codec's verdict on the transformed
/// image: the PNG bytes, or the codec's refusal as an encode failure.
pub open spec fn encode_outcome(written: Result<Seq<u8>, ImageError>) -> Result<Seq<u8>, Error> {
    match written {
        Ok(png) => Ok(png),
        Err(e) => Err(Error::EncodeErr(e)),
    }
}

/// The publisher's outcome on a completed upload, given the parser's
/// verdict on the link that the hosting service named, if it named one.
pub open spec fn extract_outcome(link: Option<Result<Url, ParseError>>) -> Result<Url, Error> {
    match link {
        None => Err(Error::NoUrlErr),
        Some(Ok(url)) => Ok(url),
        Some(Err(e)) => Err(Error::UrlErr(e)),
    }
}

/// The publisher's outcome, given what the caller reports of the upload:
/// the outcome of the link where the upload completed, else the client's
/// account of why it did not.
pub open spec fn publish_outcome(report: Result<Option<Seq<char>>, String>) -> Result<Url, Error> {
    match report {
        Err(reason) => Err(Error::ImgurErr(reason)),
        Ok(link) => extract_outcome(parsed_link(link)),
    }
}

/// The parser's verdict on a link that may be absent.
pub open spec fn parsed_link(link: Option<Seq<char>>) -> Option<Result<Url, ParseError>> {
    match link {
        Some(text) => Some(parsed_url(text)),
        None => None,
    }
}

/// A fetch report with the body as a sequence.
pub open spec fn fetch_view(report: Result<Response, String>) -> Result<ResponseView, String> {
    match report {
        Ok(answer) => Ok(answer@),
        Err(reason) => Err(reason),
    }
}

/// Bytes, or the failure in their place, with the bytes as a sequence.
pub open spec fn bytes_view<E>(bytes: Result<Vec<u8>, E>) -> Result<Seq<u8>, E> {
    match bytes {
        Ok(b) => Ok(b@),
        Err(e) => Err(e),
    }
}

/// A link that may be absent, with its text as a sequence.
pub open spec fn link_view(link: Option<String>) -> Option<Seq<char>> {
    match link {
        Some(text) => Some(text@),
        None => None,
    }
}

/// An upload report with the link as a sequence.
pub open spec fn upload_view(report: Result<Option<String>, String>) -> Result<
    Option<Seq<char>>,
    String,
> {
    match report {
        Ok(link) => Ok(link_view(link)),
        Err(reason) => Err(reason),
    }
}

/// Reads the caller's report of the GET: only the body of an answer with a
/// success status goes on to the decoder.
pub fn fetched(report: Result<Response, String>) -> (r: Result<Vec<u8>, Error>)
    ensures
        bytes_view(r) == fetch_outcome(fetch_view(report)),
{
    match report {
        Err(reason) => Err(Error::ReqwestErr(reason)),
        Ok(answer) => {
            if 200 <= answer.status && answer.status <= 299 {
                Ok(answer.body)
            } else {
                Err(Error::StatusErr(answer.status))
            }
        },
    }
}

/// Reads the codec's verdict on the fetched bytes.
pub fn decoded(loaded: Result<DynamicImage, ImageError>) -> (r: Result<DynamicImage, Error>)
    ensures
        r == decode_outcome(loaded),
{
    match loaded {
        Ok(img) => Ok(img),
        Err(e) => Err(Error::ImageErr(e)),
    }
}

/// Decodes fetched bytes into a bitmap. The format, one of PNG, GIF and
/// BMP, is taken from the bytes themselves, never from a name or a header.
/// Bytes that do not decode are a decode failure, whatever account the
/// codec gives of them.
pub fn decode(bytes: &[u8]) -> (r: Result<DynamicImage, Error>)
    ensures
        match decoded_image(bytes@) {
            Some(img) => r == Ok::<DynamicImage, Error>(img),
            None => r matches Err(Error::ImageErr(_)),
        },
{
    decoded(image::load_from_memory(bytes))
}

/// Reads the transform's answer: a transform that returns nothing rejects
/// the image.
pub fn invoked(transformed: Option<DynamicImage>) -> (r: Result<DynamicImage, Error>)
    ensures
        r == invoke_outcome(transformed),
{
    match transformed {
        Some(out) => Ok(out),
        None => Err(Error::PipelineErr),
    }
}

/// Applies the caller's transform to the decoded bitmap. The bitmap is
/// given away, and the transform, taken by value, cannot be called twice.
pub fn invoke<F>(pipeline: F, img: DynamicImage) -> (r: Result<DynamicImage, Error>) where
    F: FnOnce(DynamicImage) -> Option<DynamicImage>,

    requires
        pipeline.requires((img,)),
    ensures
        exists|transformed: Option<DynamicImage>| #[trigger]
            pipeline.ensures((img,), transformed) && r == invoke_outcome(transformed),
{
    invoked(pipeline(img))
}

/// Reads the codec's verdict on the transformed image.
pub fn encoded(written: Result<Vec<u8>, ImageError>) -> (r: Result<Vec<u8>, Error>)
    ensures
        bytes_view(r) == encode_outcome(bytes_view(written)),
{
    match written {
        Ok(png) => Ok(png),
        Err(e) => Err(Error::EncodeErr(e)),
    }
}

/// Encodes a bitmap as PNG, whatever format it was fetched in.
pub fn encode(img: &DynamicImage) -> (r: Result<Vec<u8>, Error>)
    ensures
        bytes_view(r) == encode_outcome(png_encoding(*img)),
{
    encoded(write_png(img))
}

/// Reads the parser's verdict on the link of a completed upload.
pub fn extracted(link: Option<Result<Url, ParseError>>) -> (r: Result<Url, Error>)
    ensures
        r == extract_outcome(link),
{
    match link {
        None => Err(Error::NoUrlErr),
        Some(Ok(url)) => Ok(url),
        Some(Err(e)) => Err(Error::UrlErr(e)),
    }
}

/// Takes the link out of a completed upload's answer and parses it.
pub fn extract_url(link: Option<String>) -> (r: Result<Url, Error>)
    ensures
        r == extract_outcome(parsed_link(link_view(link))),
{
    match link {
        None => extracted(None),
        Some(text) => extracted(Some(Url::parse(text.as_str()))),
    }
}

/// Reads the caller's report of the upload: the URL that the answer's link
/// parses to, or the reason there is none.
pub fn published(report: Result<Option<String>, String>) -> (r: Result<Url, Error>)
    ensures
        r == publish_outcome(upload_view(report)),
{
    match report {
        Err(reason) => Err(Error::ImgurErr(reason)),
        Ok(link) => extract_url(link),
    }
}

} // verus!
