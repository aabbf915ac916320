use image_service::id::AssetId;
use image_service::path::{
    get_asset_file_name, get_asset_path, get_cache_path, get_original_path, get_pending_path, get_raw_path,
    get_stage_path, get_unapproved_path, Stage,
};

#[test]
fn stage_directories() {
    assert_eq!(get_pending_path(), "data/pending");
    assert_eq!(get_unapproved_path(), "data/unapproved");
    assert_eq!(get_original_path(), "data/originals");
    assert_eq!(get_cache_path(), "data/cache");
    assert_eq!(get_raw_path(), "data/raw");
}

#[test]
fn stage_path_follows_the_stage() {
    assert_eq!(get_stage_path(Stage::Pending), get_pending_path());
    assert_eq!(get_stage_path(Stage::Unapproved), get_unapproved_path());
    assert_eq!(get_stage_path(Stage::Original), get_original_path());
    assert_eq!(get_stage_path(Stage::Raw), get_raw_path());
}

#[test]
fn asset_paths_use_the_canonical_extension() {
    let id = AssetId::new(0x5e903080d50a4a459718cca6b7b90d7b);
    assert_eq!(
        get_asset_path(Stage::Pending, id),
        "data/pending/5e903080-d50a-4a45-9718-cca6b7b90d7b.avif"
    );
    assert_eq!(
        get_asset_path(Stage::Unapproved, id),
        "data/unapproved/5e903080-d50a-4a45-9718-cca6b7b90d7b.avif"
    );
    assert_eq!(
        get_asset_path(Stage::Original, id),
        "data/originals/5e903080-d50a-4a45-9718-cca6b7b90d7b.avif"
    );
}

#[test]
fn raw_copies_have_their_own_extension() {
    let id = AssetId::new(1);
    assert_eq!(get_asset_path(Stage::Raw, id), "data/raw/00000000-0000-0000-0000-000000000001.raw");
}

#[test]
fn file_names_in_the_stages() {
    let id = AssetId::new(0xa1a2a3a4b1b2c1c2d1d2d3d4d5d6d7d8);
    assert_eq!(get_asset_file_name(Stage::Original, id), "a1a2a3a4-b1b2-c1c2-d1d2-d3d4d5d6d7d8.avif");
    assert_eq!(get_asset_file_name(Stage::Pending, id), "a1a2a3a4-b1b2-c1c2-d1d2-d3d4d5d6d7d8.avif");
    assert_eq!(get_asset_file_name(Stage::Raw, id), "a1a2a3a4-b1b2-c1c2-d1d2-d3d4d5d6d7d8.raw");
}
