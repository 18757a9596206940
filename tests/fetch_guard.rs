use gifdex::fetch::{FetchError, FetchGuard, DETECT_LIMIT, MAX_BLOB_SIZE};
use gifdex::media::MediaError;

#[test]
fn body_within_ceiling_is_kept_whole() {
    let mut g = FetchGuard::new(100);
    assert_eq!(g.push_chunk(&[1u8; 40]), Ok(()));
    assert_eq!(g.push_chunk(&[2u8; 60]), Ok(()));
    assert_eq!(g.len(), 100);
    let body = g.finish().unwrap();
    assert_eq!(body.len(), 100);
    assert_eq!(&body[..40], &[1u8; 40]);
    assert_eq!(&body[40..], &[2u8; 60]);
}

#[test]
fn chunk_past_the_ceiling_is_refused_and_not_kept() {
    let mut g = FetchGuard::new(100);
    assert_eq!(g.push_chunk(&[1u8; 90]), Ok(()));
    assert_eq!(g.push_chunk(&[2u8; 11]), Err(FetchError::TooLarge));
    assert_eq!(g.len(), 90);
}

#[test]
fn memory_stays_bounded_for_any_body_length() {
    let mut g = FetchGuard::new(1000);
    let chunk = [0u8; 333];
    let mut refused = 0;
    for _ in 0..50 {
        if g.push_chunk(&chunk).is_err() {
            refused += 1;
        }
        assert!(g.len() <= 1000);
    }
    assert_eq!(g.len(), 999);
    assert_eq!(refused, 47);
}

#[test]
fn default_ceiling_is_ten_mebibytes() {
    assert_eq!(MAX_BLOB_SIZE, 10 * 1024 * 1024);
    let mut g = FetchGuard::new(MAX_BLOB_SIZE);
    let big = vec![0u8; MAX_BLOB_SIZE];
    assert_eq!(g.push_chunk(&big), Ok(()));
    assert_eq!(g.push_chunk(&[0u8]), Err(FetchError::TooLarge));
}

#[test]
fn detection_accepts_a_gif_early() {
    let mut g = FetchGuard::with_detection(MAX_BLOB_SIZE);
    assert_eq!(g.push_chunk(b"GIF89a"), Ok(()));
    let mut rest = vec![1u8, 0, 1, 0];
    rest.extend(std::iter::repeat(0u8).take(40));
    assert_eq!(g.push_chunk(&rest), Ok(()));
    assert_eq!(g.push_chunk(&[9u8; 100]), Ok(()));
    assert_eq!(g.finish().unwrap().len(), 150);
}

#[test]
fn detection_rejects_a_disallowed_format_early() {
    let mut g = FetchGuard::with_detection(MAX_BLOB_SIZE);
    let mut png = b"\x89PNG\r\n\x1a\n\x00\x00\x00\x0dIHDR".to_vec();
    png.extend(std::iter::repeat(0u8).take(40));
    assert_eq!(g.push_chunk(&png), Err(FetchError::Rejected(MediaError::DisallowedType)));
}

#[test]
fn detection_gives_up_after_the_window() {
    let mut g = FetchGuard::with_detection(MAX_BLOB_SIZE);
    assert_eq!(g.push_chunk(&vec![0u8; DETECT_LIMIT]), Ok(()));
    assert_eq!(g.push_chunk(&[0u8; 1]), Err(FetchError::FormatUndetected));
}

#[test]
fn short_unrecognised_body_fails_at_the_end() {
    let mut g = FetchGuard::with_detection(MAX_BLOB_SIZE);
    assert_eq!(g.push_chunk(&[0u8; 10]), Ok(()));
    assert_eq!(g.finish().unwrap_err(), FetchError::FormatUndetected);
}
