use ruka::audio::{cover_art_extension, FetchStep, YoutubeDownloader, MAX_ATTEMPTS};
use ruka::error::Error;

#[test]
fn fetch_retries_until_the_last_attempt() {
    assert_eq!(MAX_ATTEMPTS, 3);
    assert_eq!(YoutubeDownloader::after_attempt(1, false), FetchStep::Retry);
    assert_eq!(YoutubeDownloader::after_attempt(2, false), FetchStep::Retry);
    assert_eq!(YoutubeDownloader::after_attempt(3, false), FetchStep::GiveUp);
    assert_eq!(YoutubeDownloader::after_attempt(1, true), FetchStep::Proceed);
    assert_eq!(YoutubeDownloader::after_attempt(3, true), FetchStep::Proceed);
}

#[test]
fn cover_extension_from_image_type() {
    assert_eq!(cover_art_extension(Some("image/jpeg")), Ok("jpeg".to_string()));
    assert_eq!(cover_art_extension(Some("image/png")), Ok("png".to_string()));
    assert_eq!(cover_art_extension(Some("image/svg+xml/x")), Ok("svg+xml".to_string()));
    assert_eq!(cover_art_extension(Some("image/")), Ok(String::new()));
}

#[test]
fn cover_without_content_type_fails() {
    assert_eq!(
        cover_art_extension(None),
        Err(Error::Generic("Cover art content-Type header missing.".to_string()))
    );
}

#[test]
fn cover_that_is_not_an_image_fails() {
    let expected = Err(Error::Generic("Cover art URL does not point to an image.".to_string()));
    assert_eq!(cover_art_extension(Some("text/html")), expected);
    assert_eq!(cover_art_extension(Some("image")), expected);
    assert_eq!(cover_art_extension(Some("")), expected);
}
