use image_service::cleaner::{
    delete_corresponding_raw_image, delete_old_pending_images, dir_entry_handler, file_stem,
    first_with_prefix, is_expired, is_hidden, raw_copy_follows, PendingEntry,
};
use image_service::outcome::Removal;
use image_service::constants::{RETENTION_SECONDS, SWEEP_INTERVAL_SECONDS};
use image_service::id::AssetId;
use image_service::lifecycle::{determine_img_path, LifecycleError, Presence};
use image_service::path::Stage;

fn entry(name: &str, is_file: bool, modified: Option<u64>) -> PendingEntry {
    PendingEntry { name: name.to_string(), is_file, modified }
}

fn names(list: &[&str]) -> Vec<String> {
    list.iter().map(|s| s.to_string()).collect()
}

#[test]
fn retention_is_longer_than_the_interval() {
    assert_eq!(RETENTION_SECONDS, 3600);
    assert_eq!(SWEEP_INTERVAL_SECONDS, 900);
}

#[test]
fn expiry_is_strictly_older_than_the_window() {
    assert!(is_expired(0, 3601));
    assert!(!is_expired(0, 3600));
    assert!(!is_expired(1, 3601));
    assert!(is_expired(999, 4600));
    assert!(!is_expired(1000, 4600));
    assert!(!is_expired(5000, 4600));
    assert!(!is_expired(0, 0));
    assert!(!is_expired(0, 10));
    assert!(!is_expired(u64::MAX, u64::MAX));
    assert!(is_expired(u64::MAX - 3601, u64::MAX));
}

#[test]
fn hidden_names_begin_with_a_dot() {
    assert!(is_hidden(".gitkeep"));
    assert!(is_hidden("."));
    assert!(!is_hidden("a.avif"));
    assert!(!is_hidden(""));
}

#[test]
fn sweep_takes_old_regular_visible_files() {
    let now = 100_000;
    assert!(dir_entry_handler(&entry("a.avif", true, Some(10)), now));
    assert!(!dir_entry_handler(&entry("a.avif", false, Some(10)), now));
    assert!(!dir_entry_handler(&entry(".a.avif", true, Some(10)), now));
    assert!(!dir_entry_handler(&entry("a.avif", true, None), now));
    assert!(!dir_entry_handler(&entry("a.avif", true, Some(99_000)), now));
}

#[test]
fn sweep_plan_lists_exactly_the_stale_entries_in_order() {
    let now = 100_000;
    let listing = vec![
        entry("fresh.avif", true, Some(99_999)),
        entry("old-1.avif", true, Some(1)),
        entry(".gitkeep", true, Some(1)),
        entry("dir", false, Some(1)),
        entry("unreadable.avif", true, None),
        entry("old-2.avif", true, Some(96_399)),
        entry("edge.avif", true, Some(96_400)),
    ];
    assert_eq!(delete_old_pending_images(&listing, now), vec![1, 5]);
    assert_eq!(delete_old_pending_images(&Vec::new(), now), Vec::<usize>::new());
    assert_eq!(delete_old_pending_images(&listing, 0), Vec::<usize>::new());
}

#[test]
fn stale_pending_asset_is_reclaimed_with_its_raw_copy() {
    let id = AssetId::new(0x5e903080d50a4a459718cca6b7b90d7b);
    let now = 1_700_000_000;
    let mut pending = vec![entry("5e903080-d50a-4a45-9718-cca6b7b90d7b.avif", true, Some(now - 3601))];
    let mut raw = names(&[
        "00000000-0000-0000-0000-000000000001.raw",
        "5e903080-d50a-4a45-9718-cca6b7b90d7b.raw",
    ]);
    let plan = delete_old_pending_images(&pending, now);
    assert_eq!(plan, vec![0]);
    let removed = pending.remove(plan[0]);
    let companion = delete_corresponding_raw_image(&removed.name, &raw);
    assert_eq!(companion, Some(1));
    raw.remove(1);
    assert_eq!(raw, names(&["00000000-0000-0000-0000-000000000001.raw"]));
    let seen = Presence { pending: !pending.is_empty(), unapproved: false, original: false };
    assert_eq!(determine_img_path(Stage::Pending, id, seen), Err(LifecycleError::NotFound));
}

#[test]
fn raw_copy_is_the_first_match() {
    let raw = names(&["b.raw", "abc.jpg", "abc.raw", "ab.raw"]);
    assert_eq!(delete_corresponding_raw_image("abc.avif", &raw), Some(1));
    assert_eq!(delete_corresponding_raw_image("ab.avif", &raw), Some(1));
    assert_eq!(delete_corresponding_raw_image("b.avif", &raw), Some(0));
    assert_eq!(delete_corresponding_raw_image("zzz.avif", &raw), None);
    assert_eq!(delete_corresponding_raw_image("abc", &raw), None);
    assert_eq!(delete_corresponding_raw_image("abc.avif", &Vec::new()), None);
}

#[test]
fn stem_is_cut_at_the_last_dot() {
    assert_eq!(file_stem("a.b.c"), Some("a.b"));
    assert_eq!(file_stem("abc.avif"), Some("abc"));
    assert_eq!(file_stem(".avif"), Some(""));
    assert_eq!(file_stem("abc."), Some("abc"));
    assert_eq!(file_stem("abc"), None);
    assert_eq!(file_stem(""), None);
}

#[test]
fn first_name_with_a_prefix() {
    let list = names(&["xa", "ab", "abc"]);
    assert_eq!(first_with_prefix(&list, "ab"), Some(1));
    assert_eq!(first_with_prefix(&list, "abc"), Some(2));
    assert_eq!(first_with_prefix(&list, ""), Some(0));
    assert_eq!(first_with_prefix(&list, "q"), None);
}

#[test]
fn raw_copy_goes_only_with_a_removed_entry() {
    assert!(raw_copy_follows(Removal::Removed));
    assert!(!raw_copy_follows(Removal::AlreadyGone));
    assert!(!raw_copy_follows(Removal::Failed));
}
