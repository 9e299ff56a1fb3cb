use icon_cache::bitmap::CanonicalImage;
use icon_cache::codec::{decode, encode, CacheEntry, CodecError};

#[test]
fn round_trip_with_image() {
    let pixels = vec![
        255, 0, 0, 255, 0, 255, 0, 255, 0, 0, 255, 255, 9, 8, 7, 6,
    ];
    let img = CanonicalImage { width: 2, height: 2, pixels: pixels.clone() };
    let entry = CacheEntry { image: Some(img), timestamp: 1234567890123 };
    let bytes = encode(&entry).unwrap();
    assert!(bytes.len() > 8);
    let d = decode(&bytes).ok().unwrap();
    assert!(!d.corrupt);
    assert_eq!(d.entry.timestamp, 1234567890123);
    let back = d.entry.image.unwrap();
    assert_eq!(back.width, 2);
    assert_eq!(back.height, 2);
    assert_eq!(back.pixels, pixels);
}

#[test]
fn timestamp_only_round_trip() {
    let entry = CacheEntry { image: None, timestamp: 42 };
    let bytes = encode(&entry).unwrap();
    assert_eq!(bytes, 42u64.to_le_bytes().to_vec());
    let d = decode(&bytes).ok().unwrap();
    assert!(!d.corrupt);
    assert_eq!(d.entry.timestamp, 42);
    assert!(d.entry.image.is_none());
}

#[test]
fn decode_empty_fails_too_small() {
    assert!(matches!(decode(&[]), Err(CodecError::TooSmall)));
}

#[test]
fn decode_short_fails_too_small() {
    assert!(matches!(decode(&[1, 2, 3, 4, 5, 6, 7]), Err(CodecError::TooSmall)));
}

#[test]
fn garbage_payload_is_soft_corruption() {
    let mut bytes = 7u64.to_le_bytes().to_vec();
    bytes.extend_from_slice(b"this is not an image");
    let d = decode(&bytes).ok().unwrap();
    assert!(d.corrupt);
    assert_eq!(d.entry.timestamp, 7);
    assert!(d.entry.image.is_none());
}

#[test]
fn large_timestamp_survives() {
    let entry = CacheEntry { image: None, timestamp: u64::MAX };
    let bytes = encode(&entry).unwrap();
    let d = decode(&bytes).ok().unwrap();
    assert_eq!(d.entry.timestamp, u64::MAX);
}
