use image_service::cache::{get_cache_entry, remove_cache_entries, CacheBehavior};
use image_service::id::AssetId;
use image_service::lifecycle::{apply, transition, Operation, Presence};
use image_service::path::Stage;
use image_service::resolver::{
    check_id, choose_source, image_handler_helper, manipulate_image, plan_delivery,
    plan_rendition, resolve, Crop, Delivery, Dimensions, ImageQuery, Observation, Rendition,
    ResolveError, Route, Source, Transform,
};

fn u1() -> AssetId {
    AssetId::new(0x5e903080d50a4a459718cca6b7b90d7b)
}

fn query(width: Option<i32>, height: Option<i32>, quality: Option<i32>) -> ImageQuery {
    ImageQuery { width, height, quality, auth: None }
}

const NATIVE: Dimensions = Dimensions { width: 4000, height: 3000 };

fn entry_name(id: AssetId, q: &ImageQuery) -> String {
    let r = plan_rendition(q);
    let path = get_cache_entry(&id.to_text(), r.height, r.width, r.quality);
    path.strip_prefix("data/cache/").unwrap().to_string()
}

fn observe(presence: Presence, authorized: bool, cache: &[String], id: AssetId, q: &ImageQuery) -> Observation {
    Observation {
        in_original: presence.contains(Stage::Original),
        authorized,
        in_unapproved: presence.contains(Stage::Unapproved),
        cache_hit: cache.contains(&entry_name(id, q)),
        native: Some(NATIVE),
    }
}

#[test]
fn nil_identifier_is_a_client_error() {
    assert_eq!(check_id(AssetId::nil()), Err(ResolveError::InvalidIdentifier));
    assert_eq!(check_id(u1()), Ok(()));
    let seen = Observation { in_original: true, authorized: true, in_unapproved: true, cache_hit: true, native: Some(NATIVE) };
    assert_eq!(resolve(AssetId::nil(), &query(None, None, None), seen), Err(ResolveError::InvalidIdentifier));
}

#[test]
fn pending_asset_is_not_found_without_credential() {
    let presence = Presence::only_in(Stage::Pending);
    let q = query(None, None, None);
    let seen = observe(presence, false, &[], u1(), &q);
    assert_eq!(resolve(u1(), &q, seen), Err(ResolveError::NotFound));
    let seen = observe(presence, true, &[], u1(), &q);
    assert_eq!(resolve(u1(), &q, seen), Err(ResolveError::NotFound));
}

#[test]
fn unapproved_asset_is_served_to_moderators_past_the_cache() {
    let pending = Presence::only_in(Stage::Pending);
    let presence = apply(pending, transition(Operation::Submit, u1(), pending).unwrap());
    assert_eq!(presence, Presence::only_in(Stage::Unapproved));
    let q = query(Some(100), None, None);
    let seen = observe(presence, true, &[], u1(), &q);
    let answer = resolve(u1(), &q, seen).unwrap();
    assert_eq!(answer.source, Source { stage: Stage::Unapproved, cache: CacheBehavior::Skip });
    assert_eq!(answer.rendition, Rendition { width: Some(100), height: None, quality: 80 });
    let transform = Transform { target_width: 100, target_height: 3000, crop: Crop::Fit, quality: 80 };
    assert_eq!(answer.delivery, Delivery::Compute { transform, store: false });
    let stale = vec!["5e903080-d50a-4a45-9718-cca6b7b90d7b-100xUNSPEC-80.webp".to_string()];
    let seen = observe(presence, true, &stale, u1(), &q);
    assert!(seen.cache_hit);
    assert_eq!(resolve(u1(), &q, seen).unwrap().delivery, Delivery::Compute { transform, store: false });
}

#[test]
fn unapproved_asset_is_hidden_from_everyone_else() {
    let presence = Presence::only_in(Stage::Unapproved);
    let q = query(Some(100), None, None);
    let seen = observe(presence, false, &[], u1(), &q);
    assert_eq!(resolve(u1(), &q, seen), Err(ResolveError::NotFound));
    let nowhere = observe(Presence::absent(), false, &[], u1(), &q);
    assert_eq!(resolve(u1(), &q, nowhere), Err(ResolveError::NotFound));
    assert_eq!(choose_source(false, false, true), choose_source(false, false, false));
}

#[test]
fn approved_asset_is_computed_once_and_then_read_from_the_cache() {
    let unapproved = Presence::only_in(Stage::Unapproved);
    let presence = apply(unapproved, transition(Operation::Approve, u1(), unapproved).unwrap());
    let q = query(Some(100), None, None);
    let mut cache: Vec<String> = Vec::new();
    let mut backend_calls = 0;

    let first = resolve(u1(), &q, observe(presence, false, &cache, u1(), &q)).unwrap();
    assert_eq!(first.source, Source { stage: Stage::Original, cache: CacheBehavior::Normal });
    match first.delivery {
        Delivery::Compute { transform, store } => {
            backend_calls += 1;
            assert!(store);
            assert_eq!(transform, Transform { target_width: 100, target_height: 3000, crop: Crop::Fit, quality: 80 });
            let r = first.rendition;
            let path = get_cache_entry(&u1().to_text(), r.height, r.width, r.quality);
            assert_eq!(path, "data/cache/5e903080-d50a-4a45-9718-cca6b7b90d7b-100xUNSPEC-80.webp");
            cache.push(path.strip_prefix("data/cache/").unwrap().to_string());
        }
        Delivery::FromCache => panic!("nothing was cached yet"),
    }

    let mut seen = observe(presence, false, &cache, u1(), &q);
    seen.native = None;
    let second = resolve(u1(), &q, seen).unwrap();
    assert_eq!(second.delivery, Delivery::FromCache);
    assert_eq!(second.rendition, first.rendition);
    assert_eq!(backend_calls, 1);
}

#[test]
fn rotation_makes_the_next_read_recompute() {
    let presence = Presence::only_in(Stage::Original);
    let q = query(Some(100), None, None);
    let mut cache = vec!["5e903080-d50a-4a45-9718-cca6b7b90d7b-100xUNSPEC-80.webp".to_string()];
    assert_eq!(
        resolve(u1(), &q, observe(presence, false, &cache, u1(), &q)).unwrap().delivery,
        Delivery::FromCache
    );
    let action = transition(Operation::Rotate { angle: 90 }, u1(), presence).unwrap();
    assert!(action.invalidates_cache());
    let gone = remove_cache_entries(u1(), &cache);
    cache.retain(|n| !gone.contains(n));
    assert!(cache.is_empty());
    let presence = apply(presence, action);
    let again = resolve(u1(), &q, observe(presence, false, &cache, u1(), &q)).unwrap();
    assert!(matches!(again.delivery, Delivery::Compute { store: true, .. }));
}

#[test]
fn request_without_size_keeps_the_native_size() {
    let presence = Presence::only_in(Stage::Original);
    let q = query(None, None, None);
    let answer = resolve(u1(), &q, observe(presence, false, &[], u1(), &q)).unwrap();
    assert_eq!(answer.rendition, Rendition { width: None, height: None, quality: 80 });
    assert_eq!(
        answer.delivery,
        Delivery::Compute {
            transform: Transform { target_width: 4000, target_height: 3000, crop: Crop::Fit, quality: 80 },
            store: true,
        }
    );
}

#[test]
fn rendition_names_the_request() {
    assert_eq!(plan_rendition(&query(Some(1), Some(2), Some(3))), Rendition { width: Some(1), height: Some(2), quality: 3 });
    assert_eq!(plan_rendition(&query(None, None, None)), Rendition { width: None, height: None, quality: 80 });
    assert_eq!(plan_rendition(&query(Some(0), None, Some(0))), Rendition { width: Some(0), height: None, quality: 0 });
}

#[test]
fn transform_of_each_kind_of_request() {
    assert_eq!(
        manipulate_image(Some(50), Some(100), 35, NATIVE),
        Transform { target_width: 100, target_height: 50, crop: Crop::Centre, quality: 35 }
    );
    assert_eq!(
        manipulate_image(None, Some(100), 80, NATIVE),
        Transform { target_width: 100, target_height: 3000, crop: Crop::Fit, quality: 80 }
    );
    assert_eq!(
        manipulate_image(Some(50), None, 0, NATIVE),
        Transform { target_width: 4000, target_height: 50, crop: Crop::Fit, quality: 0 }
    );
    assert_eq!(
        manipulate_image(Some(0), Some(0), 80, NATIVE),
        Transform { target_width: 0, target_height: 0, crop: Crop::Centre, quality: 80 }
    );
}

#[test]
fn route_for_each_cache_state() {
    assert_eq!(plan_delivery(CacheBehavior::Normal, true), Route::Cache);
    assert_eq!(plan_delivery(CacheBehavior::Normal, false), Route::Backend { store: true });
    assert_eq!(plan_delivery(CacheBehavior::Skip, true), Route::Backend { store: false });
    assert_eq!(plan_delivery(CacheBehavior::Skip, false), Route::Backend { store: false });
}

#[test]
fn source_for_each_observation() {
    let public = Ok(Source { stage: Stage::Original, cache: CacheBehavior::Normal });
    let restricted = Ok(Source { stage: Stage::Unapproved, cache: CacheBehavior::Skip });
    assert_eq!(choose_source(true, false, false), public);
    assert_eq!(choose_source(true, true, true), public);
    assert_eq!(choose_source(false, true, true), restricted);
    assert_eq!(choose_source(false, true, false), Err(ResolveError::NotFound));
    assert_eq!(choose_source(false, false, true), Err(ResolveError::NotFound));
}

#[test]
fn unreadable_asset_is_a_backend_failure_unless_cached() {
    let source = Source { stage: Stage::Original, cache: CacheBehavior::Normal };
    let q = query(Some(1), Some(1), None);
    assert_eq!(image_handler_helper(source, &q, false, None), Err(ResolveError::BackendFailure));
    assert_eq!(image_handler_helper(source, &q, true, None).unwrap().delivery, Delivery::FromCache);
    let hidden = Source { stage: Stage::Unapproved, cache: CacheBehavior::Skip };
    assert_eq!(image_handler_helper(hidden, &q, true, None), Err(ResolveError::BackendFailure));
    let seen = Observation { in_original: true, authorized: false, in_unapproved: false, cache_hit: false, native: None };
    assert_eq!(resolve(u1(), &q, seen), Err(ResolveError::BackendFailure));
}
