use image_service::constants::ROTATION_QUALITY;
use image_service::id::AssetId;
use image_service::lifecycle::{
    apply, check_request, delete_image, determine_img_dir, determine_img_path,
    get_rotation_temp_path, move_image, transition, valid_rotation, Action, ImageSearchBehaviour,
    LifecycleError, Operation, Presence,
};
use image_service::path::Stage;

fn sample() -> AssetId {
    AssetId::new(0x5e903080d50a4a459718cca6b7b90d7b)
}

#[test]
fn only_quarter_turns_are_rotations() {
    assert!(valid_rotation(90));
    assert!(valid_rotation(180));
    assert!(valid_rotation(270));
    for angle in [0i64, 45, 360, 450, -90, 1, 89, 91, 359, i64::MIN, i64::MAX] {
        assert!(!valid_rotation(angle));
    }
}

#[test]
fn rotation_by_45_is_refused_before_storage_is_read() {
    let refused = check_request(Operation::Rotate { angle: 45 }, sample());
    assert_eq!(refused, Err(LifecycleError::InvalidAngle));
    for presence in [Presence::absent(), Presence::only_in(Stage::Original), Presence::only_in(Stage::Unapproved)] {
        assert_eq!(
            transition(Operation::Rotate { angle: 45 }, sample(), presence),
            Err(LifecycleError::InvalidAngle)
        );
    }
}

#[test]
fn nil_identifier_is_refused() {
    for op in [Operation::Submit, Operation::Approve, Operation::Unapprove, Operation::Delete, Operation::Rotate { angle: 90 }] {
        assert_eq!(check_request(op, AssetId::nil()), Err(LifecycleError::InvalidIdentifier));
        assert_eq!(
            transition(op, AssetId::nil(), Presence::only_in(Stage::Pending)),
            Err(LifecycleError::InvalidIdentifier)
        );
    }
    assert_eq!(check_request(Operation::Rotate { angle: 0 }, AssetId::nil()), Err(LifecycleError::InvalidAngle));
    assert_eq!(check_request(Operation::Submit, sample()), Ok(()));
}

#[test]
fn submit_moves_pending_to_unapproved() {
    let before = Presence::only_in(Stage::Pending);
    let action = transition(Operation::Submit, sample(), before).unwrap();
    assert_eq!(action, Action::Move { from: Stage::Pending, to: Stage::Unapproved, invalidate: false });
    assert!(!action.invalidates_cache());
    let after = apply(before, action);
    assert_eq!(determine_img_path(Stage::Pending, sample(), after), Err(LifecycleError::NotFound));
    assert_eq!(
        determine_img_path(Stage::Unapproved, sample(), after),
        Ok("data/unapproved/5e903080-d50a-4a45-9718-cca6b7b90d7b.avif".to_string())
    );
    assert!(after.is_exclusive());
}

#[test]
fn approve_moves_to_original_and_invalidates() {
    for from in [Stage::Unapproved, Stage::Pending] {
        let before = Presence::only_in(from);
        let action = transition(Operation::Approve, sample(), before).unwrap();
        assert_eq!(action, Action::Move { from, to: Stage::Original, invalidate: true });
        assert!(action.invalidates_cache());
        let after = apply(before, action);
        assert!(!after.contains(from));
        assert!(after.contains(Stage::Original));
        assert_eq!(after, Presence::only_in(Stage::Original));
    }
}

#[test]
fn unapprove_moves_original_to_unapproved() {
    let before = Presence::only_in(Stage::Original);
    let action = transition(Operation::Unapprove, sample(), before).unwrap();
    assert_eq!(action, Action::Move { from: Stage::Original, to: Stage::Unapproved, invalidate: true });
    assert_eq!(apply(before, action), Presence::only_in(Stage::Unapproved));
}

#[test]
fn transitions_fail_when_the_source_is_absent() {
    let id = sample();
    assert_eq!(transition(Operation::Submit, id, Presence::absent()), Err(LifecycleError::NotFound));
    assert_eq!(transition(Operation::Submit, id, Presence::only_in(Stage::Unapproved)), Err(LifecycleError::NotFound));
    assert_eq!(transition(Operation::Submit, id, Presence::only_in(Stage::Original)), Err(LifecycleError::NotFound));
    assert_eq!(transition(Operation::Approve, id, Presence::absent()), Err(LifecycleError::NotFound));
    assert_eq!(transition(Operation::Approve, id, Presence::only_in(Stage::Original)), Err(LifecycleError::NotFound));
    assert_eq!(transition(Operation::Unapprove, id, Presence::only_in(Stage::Pending)), Err(LifecycleError::NotFound));
    assert_eq!(transition(Operation::Unapprove, id, Presence::only_in(Stage::Unapproved)), Err(LifecycleError::NotFound));
    assert_eq!(transition(Operation::Rotate { angle: 90 }, id, Presence::only_in(Stage::Pending)), Err(LifecycleError::NotFound));
    assert_eq!(transition(Operation::Rotate { angle: 90 }, id, Presence::absent()), Err(LifecycleError::NotFound));
}

#[test]
fn an_asset_in_two_stages_is_a_conflict() {
    let id = sample();
    let both = Presence { pending: true, unapproved: false, original: true };
    assert!(!both.is_exclusive());
    for op in [Operation::Submit, Operation::Approve, Operation::Unapprove, Operation::Rotate { angle: 180 }] {
        assert_eq!(transition(op, id, both), Err(LifecycleError::Conflict));
    }
    let all = Presence { pending: true, unapproved: true, original: true };
    assert_eq!(transition(Operation::Approve, id, all), Err(LifecycleError::Conflict));
}

#[test]
fn delete_removes_from_every_stage() {
    let id = sample();
    for before in [
        Presence::only_in(Stage::Pending),
        Presence::only_in(Stage::Unapproved),
        Presence::only_in(Stage::Original),
        Presence { pending: true, unapproved: false, original: true },
        Presence { pending: true, unapproved: true, original: true },
    ] {
        let action = transition(Operation::Delete, id, before).unwrap();
        assert_eq!(action, Action::Remove);
        assert!(action.invalidates_cache());
        assert_eq!(apply(before, action), Presence::absent());
    }
}

#[test]
fn delete_of_an_absent_asset_is_not_found() {
    assert_eq!(transition(Operation::Delete, sample(), Presence::absent()), Err(LifecycleError::NotFound));
}

#[test]
fn rotate_reencodes_in_place() {
    let id = sample();
    for stage in [Stage::Unapproved, Stage::Original] {
        let before = Presence::only_in(stage);
        let action = transition(Operation::Rotate { angle: 90 }, id, before).unwrap();
        assert_eq!(action, Action::Reencode { stage, angle: 90, quality: 100 });
        assert_eq!(ROTATION_QUALITY, 100);
        assert!(action.invalidates_cache());
        assert_eq!(apply(before, action), before);
    }
}

#[test]
fn rotation_writes_beside_the_asset() {
    assert_eq!(
        get_rotation_temp_path(Stage::Original, sample(), 270),
        "data/originals/5e903080-d50a-4a45-9718-cca6b7b90d7b-rotation270.avif"
    );
}

#[test]
fn search_order_is_unapproved_original_pending() {
    let everywhere = Presence { pending: true, unapproved: true, original: true };
    assert_eq!(determine_img_dir(everywhere, ImageSearchBehaviour::All), Ok(Stage::Unapproved));
    let two = Presence { pending: true, unapproved: false, original: true };
    assert_eq!(determine_img_dir(two, ImageSearchBehaviour::All), Ok(Stage::Original));
    let pending = Presence::only_in(Stage::Pending);
    assert_eq!(determine_img_dir(pending, ImageSearchBehaviour::All), Ok(Stage::Pending));
    assert_eq!(determine_img_dir(pending, ImageSearchBehaviour::Valid), Err(LifecycleError::NotFound));
    assert_eq!(determine_img_dir(Presence::absent(), ImageSearchBehaviour::All), Err(LifecycleError::NotFound));
}

#[test]
fn presence_of_the_raw_slot_is_never_reported() {
    assert_eq!(Presence::only_in(Stage::Raw), Presence::absent());
    let everywhere = Presence { pending: true, unapproved: true, original: true };
    assert!(!everywhere.contains(Stage::Raw));
    assert_eq!(determine_img_path(Stage::Raw, sample(), everywhere), Err(LifecycleError::NotFound));
}

#[test]
fn move_plan_names_both_paths() {
    let id = sample();
    let plan = move_image(Stage::Pending, Stage::Unapproved, id, Presence::only_in(Stage::Pending)).unwrap();
    assert_eq!(plan.source, "data/pending/5e903080-d50a-4a45-9718-cca6b7b90d7b.avif");
    assert_eq!(plan.target, "data/unapproved/5e903080-d50a-4a45-9718-cca6b7b90d7b.avif");
    let missing = move_image(Stage::Pending, Stage::Unapproved, id, Presence::only_in(Stage::Original));
    assert_eq!(missing.err(), Some(LifecycleError::NotFound));
}

#[test]
fn delete_plan_tolerates_absence() {
    let id = sample();
    assert_eq!(delete_image(Stage::Original, id, Presence::absent()), None);
    assert_eq!(
        delete_image(Stage::Original, id, Presence::only_in(Stage::Original)),
        Some("data/originals/5e903080-d50a-4a45-9718-cca6b7b90d7b.avif".to_string())
    );
}

#[test]
fn every_successful_move_relocates_the_asset() {
    let id = sample();
    let states = [
        Presence::absent(),
        Presence::only_in(Stage::Pending),
        Presence::only_in(Stage::Unapproved),
        Presence::only_in(Stage::Original),
    ];
    for op in [Operation::Submit, Operation::Approve, Operation::Unapprove] {
        for before in states {
            if let Ok(Action::Move { from, to, invalidate }) = transition(op, id, before) {
                assert_ne!(from, to);
                let after = apply(before, Action::Move { from, to, invalidate });
                assert_eq!(determine_img_path(from, id, after), Err(LifecycleError::NotFound));
                assert!(determine_img_path(to, id, after).is_ok());
                assert!(after.is_exclusive());
            }
        }
    }
}
