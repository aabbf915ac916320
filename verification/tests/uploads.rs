use image_service::constants::{CONTENT_LENGTH_LIMIT, PENDING_QUALITY};
use image_service::filetype::{bytes_start_with, determine_file_type, FileType};
use image_service::id::AssetId;
use image_service::lifecycle::{determine_img_path, Presence};
use image_service::path::Stage;
use image_service::upload::{plan_upload, upload_handler, UploadError};

const JPEG: [u8; 5] = [0xff, 0xd8, 0xff, 0xe0, 0x00];
const PNG: [u8; 9] = [0x89, 0x50, 0x4e, 0x47, 0x0d, 0x0a, 0x1a, 0x0a, 0x00];
const WEBP: [u8; 4] = [0x52, 0x49, 0x46, 0x46];
const HEIF: [u8; 13] = [0x00, 0x00, 0x00, 0x18, 0x66, 0x74, 0x79, 0x70, 0x68, 0x65, 0x69, 0x63, 0x01];
const AVIF: [u8; 12] = [0x00, 0x00, 0x00, 0x1c, 0x66, 0x74, 0x79, 0x70, 0x61, 0x76, 0x69, 0x66];

#[test]
fn limits() {
    assert_eq!(CONTENT_LENGTH_LIMIT, 12 * 1024 * 1024);
    assert_eq!(PENDING_QUALITY, 80);
}

#[test]
fn each_format_is_recognised() {
    let cases: [(&[u8], FileType, &str); 5] = [
        (&JPEG, FileType::JPEG, "jpg"),
        (&PNG, FileType::PNG, "png"),
        (&WEBP, FileType::WEBP, "webp"),
        (&HEIF, FileType::HEIF, "heic"),
        (&AVIF, FileType::AVIF, "avif"),
    ];
    for (bytes, file_type, extension) in cases {
        let found = determine_file_type(bytes).unwrap();
        assert_eq!(found.file_type, file_type);
        assert_eq!(found.file_extension, extension);
        assert!(bytes.starts_with(&found.file_header));
        assert_eq!(found.file_header, file_type.header());
        assert_eq!(file_type.extension(), extension);
    }
}

#[test]
fn unknown_bytes_have_no_format() {
    assert!(determine_file_type(&[]).is_none());
    assert!(determine_file_type(&[0xff, 0xd8]).is_none());
    assert!(determine_file_type(b"GIF89a").is_none());
    assert!(determine_file_type(&[0x00, 0x00, 0x00, 0x20, 0x66, 0x74, 0x79, 0x70, 0x61, 0x76, 0x69, 0x66]).is_none());
    assert!(determine_file_type(&HEIF[..11]).is_none());
}

#[test]
fn byte_prefix_test() {
    assert!(bytes_start_with(&[1, 2, 3], &vec![1, 2]));
    assert!(bytes_start_with(&[1, 2, 3], &vec![]));
    assert!(!bytes_start_with(&[1, 2], &vec![1, 2, 3]));
    assert!(!bytes_start_with(&[1, 3, 3], &vec![1, 2]));
}

#[test]
fn empty_upload_is_refused() {
    assert_eq!(upload_handler(&[]).err(), Some(UploadError::EmptyFile));
    assert_eq!(plan_upload(AssetId::new(1), &[]).err(), Some(UploadError::EmptyFile));
}

#[test]
fn upload_of_unknown_format_is_refused() {
    assert_eq!(upload_handler(b"plain text").err(), Some(UploadError::UnsupportedType));
}

#[test]
fn upload_is_planned_under_the_given_identifier() {
    let id = AssetId::new(0x5e903080d50a4a459718cca6b7b90d7b);
    let plan = plan_upload(id, &PNG).unwrap();
    assert_eq!(plan.id, id);
    assert_eq!(plan.file_type, FileType::PNG);
    assert_eq!(plan.pending_path, "data/pending/5e903080-d50a-4a45-9718-cca6b7b90d7b.avif");
    assert_eq!(plan.raw_path, "data/raw/5e903080-d50a-4a45-9718-cca6b7b90d7b.raw");
    assert_eq!(plan.quality, 80);
}

#[test]
fn accepted_upload_gets_a_fresh_identifier_in_pending() {
    let plan = upload_handler(&JPEG).unwrap();
    assert!(!plan.id.is_nil());
    assert_eq!(plan.file_type, FileType::JPEG);
    assert_eq!(plan.pending_path, format!("data/pending/{}.avif", plan.id.to_text()));
    assert_eq!(plan.raw_path, format!("data/raw/{}.raw", plan.id.to_text()));
    let stored = Presence::only_in(Stage::Pending);
    assert_eq!(determine_img_path(Stage::Pending, plan.id, stored), Ok(plan.pending_path.clone()));
    let other = upload_handler(&JPEG).unwrap();
    assert_ne!(other.id, plan.id);
}
