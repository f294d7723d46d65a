use std::io::Cursor;

use image::{DynamicImage, GrayImage, ImageOutputFormat, Luma};
use rippl::error::{Error, ErrorKind};
use rippl::stages::{
    decode, decoded, encode, encoded, extract_url, extracted, fetched, invoke, invoked, published,
    Response,
};
use url::Url;

fn gray_picture(width: u32, height: u32) -> DynamicImage {
    DynamicImage::ImageLuma8(GrayImage::from_fn(width, height, |x, y| Luma([(x * 3 + y * 5) as u8])))
}

fn png_of(img: &DynamicImage) -> Vec<u8> {
    let mut out = Cursor::new(Vec::new());
    img.write_to(&mut out, ImageOutputFormat::Png).unwrap();
    out.into_inner()
}

fn codec_refusal() -> image::ImageError {
    image::load_from_memory(b"no picture here").unwrap_err()
}

#[test]
fn decode_reads_a_png() {
    let picture = gray_picture(5, 7);
    let img = decode(&png_of(&picture)).unwrap();
    assert_eq!(img.width(), 5);
    assert_eq!(img.height(), 7);
    assert_eq!(img.color(), image::ColorType::L8);
    assert_eq!(img, picture);
}

#[test]
fn decode_refuses_text() {
    let error = decode(b"<html>not found</html>").unwrap_err();
    assert!(matches!(error, Error::ImageErr(_)));
}

#[test]
fn decoded_passes_the_image_on() {
    let picture = gray_picture(2, 2);
    assert_eq!(decoded(Ok(picture.clone())).unwrap(), picture);
}

#[test]
fn decoded_keeps_the_codec_account() {
    let account = codec_refusal().to_string();
    match decoded(Err(codec_refusal())) {
        Err(Error::ImageErr(e)) => assert_eq!(e.to_string(), account),
        other => panic!("expected a decode failure, got {:?}", other),
    }
}

#[test]
fn invoke_returns_what_the_transform_returns() {
    let picture = gray_picture(4, 4);
    let out = invoke(|img: DynamicImage| Some(img.rotate90().crop_imm(0, 0, 3, 2)), picture).unwrap();
    assert_eq!((out.width(), out.height()), (3, 2));
}

#[test]
fn invoke_turns_nothing_into_a_rejection() {
    let error = invoke(|_img: DynamicImage| None, gray_picture(4, 4)).unwrap_err();
    assert!(matches!(error, Error::PipelineErr));
}

#[test]
fn invoke_takes_a_plain_function() {
    fn flip(img: DynamicImage) -> Option<DynamicImage> {
        Some(img.fliph())
    }
    let pipeline: fn(DynamicImage) -> Option<DynamicImage> = flip;
    let picture = gray_picture(3, 1);
    let out = invoke(pipeline, picture.clone()).unwrap();
    assert_eq!(out.as_bytes(), &[6, 3, 0]);
    assert_eq!(picture.as_bytes(), &[0, 3, 6]);
}

#[test]
fn encode_writes_a_png_of_the_image() {
    let picture = gray_picture(10, 3);
    let png = encode(&picture).unwrap();
    assert_eq!(&png[..8], &[0x89, b'P', b'N', b'G', 0x0d, 0x0a, 0x1a, 0x0a]);
    assert_ne!(png.as_slice(), picture.as_bytes());
    assert_eq!(png, png_of(&picture));
    assert_eq!(image::load_from_memory(&png).unwrap(), picture);
}

#[test]
fn encode_refuses_float_pixels() {
    let picture = DynamicImage::ImageRgba32F(gray_picture(2, 2).to_rgba32f());
    let error = encode(&picture).unwrap_err();
    assert!(matches!(error, Error::EncodeErr(_)));
    assert_eq!(error.kind(), ErrorKind::Encode);
}

#[test]
fn encoded_passes_the_bytes_on() {
    assert_eq!(encoded(Ok(vec![1, 2, 3])).unwrap(), vec![1, 2, 3]);
}

#[test]
fn encoded_marks_the_refusal_as_an_encode_failure() {
    let error = encoded(Err(codec_refusal())).unwrap_err();
    assert!(matches!(error, Error::EncodeErr(_)));
}

#[test]
fn extracted_reads_each_verdict() {
    let url = Url::parse("https://i.imgur.com/a.png").unwrap();
    assert_eq!(extracted(Some(Ok(url.clone()))).unwrap(), url);
    assert!(matches!(extracted(None), Err(Error::NoUrlErr)));
    assert!(matches!(
        extracted(Some(Err(url::ParseError::EmptyHost))),
        Err(Error::UrlErr(url::ParseError::EmptyHost))
    ));
}

#[test]
fn extract_url_parses_the_link() {
    let url = extract_url(Some("https://i.imgur.com/a%20b.png?x=1".to_string())).unwrap();
    assert_eq!(url.scheme(), "https");
    assert_eq!(url.path(), "/a%20b.png");
    assert_eq!(url.query(), Some("x=1"));
}

#[test]
fn extract_url_reports_the_parser_reason() {
    assert!(matches!(
        extract_url(Some("https://".to_string())),
        Err(Error::UrlErr(url::ParseError::EmptyHost))
    ));
    assert!(matches!(extract_url(None), Err(Error::NoUrlErr)));
}

#[test]
fn every_error_has_its_class() {
    assert_eq!(Error::ReqwestErr("timed out".to_string()).kind(), ErrorKind::Transport);
    assert_eq!(Error::StatusErr(502).kind(), ErrorKind::Transport);
    assert_eq!(Error::ImageErr(codec_refusal()).kind(), ErrorKind::Decode);
    assert_eq!(Error::EncodeErr(codec_refusal()).kind(), ErrorKind::Encode);
    assert_eq!(Error::ImgurErr("timed out".to_string()).kind(), ErrorKind::Transport);
    assert_eq!(Error::UrlErr(url::ParseError::InvalidPort).kind(), ErrorKind::UrlParse);
    assert_eq!(Error::PipelineErr.kind(), ErrorKind::PipelineRejected);
    assert_eq!(Error::NoUrlErr.kind(), ErrorKind::MissingResultUrl);
}

#[test]
fn fetched_passes_the_body_of_a_success_on() {
    assert_eq!(fetched(Ok(Response { status: 200, body: vec![7, 8, 9] })).unwrap(), vec![7, 8, 9]);
    assert_eq!(fetched(Ok(Response { status: 299, body: Vec::new() })).unwrap(), Vec::<u8>::new());
}

#[test]
fn fetched_refuses_other_statuses() {
    assert!(matches!(
        fetched(Ok(Response { status: 199, body: vec![1] })),
        Err(Error::StatusErr(199))
    ));
    assert!(matches!(
        fetched(Ok(Response { status: 300, body: vec![1] })),
        Err(Error::StatusErr(300))
    ));
    assert!(matches!(
        fetched(Ok(Response { status: 404, body: vec![1] })),
        Err(Error::StatusErr(404))
    ));
}

#[test]
fn fetched_keeps_the_client_account() {
    match fetched(Err("dns error".to_string())) {
        Err(Error::ReqwestErr(reason)) => assert_eq!(reason, "dns error"),
        other => panic!("expected a transport failure, got {:?}", other),
    }
}

#[test]
fn published_reads_each_report() {
    let url = published(Ok(Some("https://i.imgur.com/q.png".to_string()))).unwrap();
    assert_eq!(url.as_str(), "https://i.imgur.com/q.png");
    assert!(matches!(published(Ok(None)), Err(Error::NoUrlErr)));
    assert!(matches!(published(Ok(Some("i.imgur.com/q.png".to_string()))), Err(Error::UrlErr(_))));
    match published(Err("broken pipe".to_string())) {
        Err(Error::ImgurErr(reason)) => assert_eq!(reason, "broken pipe"),
        other => panic!("expected a transport failure, got {:?}", other),
    }
}

#[test]
fn invoked_reads_each_answer() {
    let picture = gray_picture(2, 3);
    assert_eq!(invoked(Some(picture.clone())).unwrap(), picture);
    assert!(matches!(invoked(None), Err(Error::PipelineErr)));
}
