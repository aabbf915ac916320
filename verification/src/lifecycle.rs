//! The lifecycle of an asset: which approval stage holds it, and which moves
//! between stages each moderation action performs.
//!
//! The functions here decide; they touch no file. A caller first asks
//! `check_request`, which needs nothing from storage, then observes which
//! stage directories hold the asset's file (a `Presence`), and hands that to
//! `transition`. The `Action` that comes back is what the caller performs:
//! one rename, a removal, or a rotation in place.

use crate::constants::ROTATION_QUALITY;
use crate::id::{id_text, AssetId};
use crate::path::{
    asset_file_name, asset_path, get_asset_file_name, get_asset_path, get_stage_path, stage_dir,
    Stage,
};
use crate::text::{decimal, decimal_text};
use vstd::prelude::*;
use vstd::string::*;

verus! {

/// Which stages a search for an asset looks into.
#[derive(Clone, Copy, Debug, PartialEq, Eq, Structural)]
pub enum ImageSearchBehaviour {
    /// Every approval stage, pending uploads included.
    All,
    /// Only the stages of assets that were submitted: unapproved and original.
    Valid,
}

/// Which approval stages hold a file for one identifier, as observed in
/// storage.
#[derive(Clone, Copy, Debug, PartialEq, Eq, Structural)]
pub struct Presence {
    pub pending: bool,
    pub unapproved: bool,
    pub original: bool,
}

/// Why a lifecycle action was refused.
#[derive(Clone, Copy, Debug, PartialEq, Eq, Structural)]
pub enum LifecycleError {
    /// The identifier is nil.
    InvalidIdentifier,
    /// The rotation angle is not 90, 180 or 270 degrees.
    InvalidAngle,
    /// No stage that the action starts from holds the asset.
    NotFound,
    /// More than one approval stage holds the asset.
    Conflict,
}

/// A moderation action on one asset.
#[derive(Clone, Copy, Debug, PartialEq, Eq, Structural)]
pub enum Operation {
    Submit,
    Approve,
    Unapprove,
    Delete,
    Rotate { angle: i64 },
}

/// What the caller performs in storage once an action was accepted.
#[derive(Clone, Copy, Debug, PartialEq, Eq, Structural)]
pub enum Action {
    /// Rename the asset's file from the directory of `from` into that of
    /// `to`; afterwards, if `invalidate` is set, drop the asset's cached
    /// renditions.
    Move { from: Stage, to: Stage, invalidate: bool },
    /// Remove the asset's file from every approval stage, tolerating its
    /// absence in each; remove its raw copy, if there is one; drop its
    /// cached renditions.
    Remove,
    /// Rotate the asset held by `stage` by `angle` degrees, encode it with
    /// `quality` into a temporary file beside it, rename that file over the
    /// asset, and drop the asset's cached renditions.
    Reencode { stage: Stage, angle: i64, quality: i32 },
}

/// The two paths of a rename.
#[derive(Clone, Debug)]
pub struct MovePlan {
    pub source: String,
    pub target: String,
}

impl Presence {
    /// Whether `stage` holds the asset. The raw slot is not an approval
    /// stage and is never reported.
    pub open spec fn holds(self, stage: Stage) -> bool {
        match stage {
            Stage::Raw => false,
            Stage::Pending => self.pending,
            Stage::Unapproved => self.unapproved,
            Stage::Original => self.original,
        }
    }

    /// In how many approval stages the asset was seen.
    pub open spec fn count(self) -> nat {
        (if self.pending { 1nat } else { 0nat })
            + (if self.unapproved { 1nat } else { 0nat })
            + (if self.original { 1nat } else { 0nat })
    }

    /// The invariant of the store: at most one approval stage holds an asset.
    pub open spec fn exclusive(self) -> bool {
        self.count() <= 1
    }

    /// An asset that no stage holds.
    pub fn absent() -> (r: Presence)
        ensures
            r == (Presence { pending: false, unapproved: false, original: false }),
            r.count() == 0,
    {
        Presence { pending: false, unapproved: false, original: false }
    }

    /// An asset that exactly `stage` holds; for the raw slot, none.
    pub fn only_in(stage: Stage) -> (r: Presence)
        ensures
            r == (Presence {
                pending: stage == Stage::Pending,
                unapproved: stage == Stage::Unapproved,
                original: stage == Stage::Original,
            }),
            r.exclusive(),
    {
        Presence {
            pending: stage == Stage::Pending,
            unapproved: stage == Stage::Unapproved,
            original: stage == Stage::Original,
        }
    }

    /// Tells whether `stage` holds the asset.
    pub fn contains(&self, stage: Stage) -> (r: bool)
        ensures
            r == self.holds(stage),
    {
        match stage {
            Stage::Raw => false,
            Stage::Pending => self.pending,
            Stage::Unapproved => self.unapproved,
            Stage::Original => self.original,
        }
    }

    /// Tells whether at most one approval stage holds the asset.
    pub fn is_exclusive(&self) -> (r: bool)
        ensures
            r == self.exclusive(),
    {
        !((self.pending && self.unapproved) || (self.pending && self.original) || (
        self.unapproved && self.original))
    }
}

/// The accepted rotation angles: the multiples of 90 degrees strictly
/// between 0 and 360.
pub open spec fn rotation_allowed(angle: int) -> bool {
    0 < angle < 360 && angle % 90 == 0
}

/// Tells whether `angle` is an accepted rotation.
pub fn valid_rotation(angle: i64) -> (r: bool)
    ensures
        r == rotation_allowed(angle as int),
        r == (angle == 90 || angle == 180 || angle == 270),
{
    angle == 90 || angle == 180 || angle == 270
}

/// What can be said of a request before storage is looked at: a rotation
/// needs an accepted angle, and every action a non-nil identifier.
pub open spec fn request_check(op: Operation, id: AssetId) -> Result<(), LifecycleError> {
    match op {
        Operation::Rotate { angle } if !rotation_allowed(angle as int) => Err(
            LifecycleError::InvalidAngle,
        ),
        _ => if id.spec_is_nil() {
            Err(LifecycleError::InvalidIdentifier)
        } else {
            Ok(())
        },
    }
}

/// Checks a request before any file is touched.
pub fn check_request(op: Operation, id: AssetId) -> (r: Result<(), LifecycleError>)
    ensures
        r == request_check(op, id),
{
    if let Operation::Rotate { angle } = op {
        if !valid_rotation(angle) {
            return Err(LifecycleError::InvalidAngle);
        }
    }
    if id.is_nil() {
        Err(LifecycleError::InvalidIdentifier)
    } else {
        Ok(())
    }
}

/// The stage that a search reports: unapproved before original, and
/// pending last and only where the search includes it.
pub open spec fn located_stage(presence: Presence, search: ImageSearchBehaviour) -> Option<Stage> {
    if presence.unapproved {
        Some(Stage::Unapproved)
    } else if presence.original {
        Some(Stage::Original)
    } else if search == ImageSearchBehaviour::All && presence.pending {
        Some(Stage::Pending)
    } else {
        None
    }
}

/// Finds the stage that holds an asset, in the fixed order of
/// `located_stage`.
pub fn determine_img_dir(presence: Presence, search_behaviour: ImageSearchBehaviour) -> (r: Result<
    Stage,
    LifecycleError,
>)
    ensures
        match located_stage(presence, search_behaviour) {
            Some(stage) => r == Ok::<Stage, LifecycleError>(stage),
            None => r == Err::<Stage, LifecycleError>(LifecycleError::NotFound),
        },
        r is Ok ==> presence.holds(r->Ok_0),
{
    if presence.unapproved {
        return Ok(Stage::Unapproved);
    }
    if presence.original {
        return Ok(Stage::Original);
    }
    if search_behaviour == ImageSearchBehaviour::Valid {
        return Err(LifecycleError::NotFound);
    }
    if presence.pending {
        return Ok(Stage::Pending);
    }
    Err(LifecycleError::NotFound)
}

/// Where `stage` holds the asset, if it does.
pub open spec fn located(stage: Stage, id: AssetId, presence: Presence) -> Option<Seq<char>> {
    if presence.holds(stage) {
        Some(asset_path(stage, id))
    } else {
        None
    }
}

/// Locates an asset in one stage: its canonical path there if the stage
/// holds it, and `NotFound` if not.
pub fn determine_img_path(stage: Stage, id: AssetId, presence: Presence) -> (r: Result<
    String,
    LifecycleError,
>)
    ensures
        r is Ok <==> presence.holds(stage),
        r is Ok ==> Some(r->Ok_0@) == located(stage, id, presence),
        r is Err ==> r->Err_0 == LifecycleError::NotFound,
{
    if presence.contains(stage) {
        Ok(get_asset_path(stage, id))
    } else {
        Err(LifecycleError::NotFound)
    }
}

/// Where a rename puts the file of an asset: into the directory of `to`,
/// under the name it has in `from`.
pub open spec fn move_target(from: Stage, to: Stage, id: AssetId) -> Seq<char> {
    stage_dir(to) + "/"@ + asset_file_name(from, id)
}

/// Plans the rename that moves an asset from one stage directory into
/// another under its file name. The asset must be in the source stage; the
/// target is never created otherwise. Between approval stages the target is
/// the asset's canonical path in the target stage.
pub fn move_image(from: Stage, to: Stage, id: AssetId, presence: Presence) -> (r: Result<
    MovePlan,
    LifecycleError,
>)
    ensures
        r is Ok <==> presence.holds(from),
        r is Ok ==> r->Ok_0.source@ == asset_path(from, id) && r->Ok_0.target@ == move_target(
            from,
            to,
            id,
        ),
        r is Ok && to != Stage::Raw ==> r->Ok_0.target@ == asset_path(to, id),
        r is Err ==> r->Err_0 == LifecycleError::NotFound,
{
    if !presence.contains(from) {
        return Err(LifecycleError::NotFound);
    }
    let source: String = get_asset_path(from, id);
    let mut target: String = get_stage_path(to);
    target.append("/");
    let name: String = get_asset_file_name(from, id);
    target.append(name.as_str());
    Ok(MovePlan { source, target })
}

/// Plans the removal of an asset from one stage: the path to remove, or
/// `None` where the stage does not hold it, which is no error.
pub fn delete_image(from: Stage, id: AssetId, presence: Presence) -> (r: Option<String>)
    ensures
        r is Some <==> presence.holds(from),
        r is Some ==> r->Some_0@ == asset_path(from, id),
{
    if presence.contains(from) {
        Some(get_asset_path(from, id))
    } else {
        None
    }
}

/// The temporary file that a rotation writes before it renames it over the
/// asset: beside the asset, named by the identifier and the angle.
pub open spec fn rotation_temp_path(stage: Stage, id: AssetId, angle: i64) -> Seq<char> {
    stage_dir(stage) + "/"@ + id_text(id.bits) + "-rotation"@ + decimal(angle as int) + ".avif"@
}

/// Builds the path of the temporary file of a rotation.
pub fn get_rotation_temp_path(stage: Stage, id: AssetId, angle: i64) -> (r: String)
    ensures
        r@ == rotation_temp_path(stage, id, angle),
{
    let mut path: String = get_stage_path(stage);
    path.append("/");
    let name: String = id.to_text();
    path.append(name.as_str());
    path.append("-rotation");
    let degrees: String = decimal_text(angle);
    path.append(degrees.as_str());
    path.append(".avif");
    path
}

/// The transition table. Every action is refused with `NotFound` where none
/// of its source stages holds the asset. `Delete` is accepted wherever the
/// asset is, also where it is in several stages at once, which it repairs.
/// Every other action is refused with `Conflict` where more than one stage
/// holds the asset.
pub open spec fn transition_of(op: Operation, id: AssetId, presence: Presence) -> Result<
    Action,
    LifecycleError,
> {
    if request_check(op, id) is Err {
        Err(request_check(op, id)->Err_0)
    } else if op == Operation::Delete {
        if presence.count() == 0 {
            Err(LifecycleError::NotFound)
        } else {
            Ok(Action::Remove)
        }
    } else if !presence.exclusive() {
        Err(LifecycleError::Conflict)
    } else {
        match op {
            Operation::Submit => if presence.pending {
                Ok(Action::Move { from: Stage::Pending, to: Stage::Unapproved, invalidate: false })
            } else {
                Err(LifecycleError::NotFound)
            },
            Operation::Approve => if presence.unapproved {
                Ok(Action::Move { from: Stage::Unapproved, to: Stage::Original, invalidate: true })
            } else if presence.pending {
                Ok(Action::Move { from: Stage::Pending, to: Stage::Original, invalidate: true })
            } else {
                Err(LifecycleError::NotFound)
            },
            Operation::Unapprove => if presence.original {
                Ok(Action::Move { from: Stage::Original, to: Stage::Unapproved, invalidate: true })
            } else {
                Err(LifecycleError::NotFound)
            },
            Operation::Delete => Err(LifecycleError::NotFound),
            Operation::Rotate { angle } => match located_stage(
                presence,
                ImageSearchBehaviour::Valid,
            ) {
                Some(stage) => Ok(Action::Reencode { stage, angle, quality: ROTATION_QUALITY }),
                None => Err(LifecycleError::NotFound),
            },
        }
    }
}

/// Decides what a moderation action does to an asset that was observed in
/// the stages of `presence`.
pub fn transition(op: Operation, id: AssetId, presence: Presence) -> (r: Result<
    Action,
    LifecycleError,
>)
    ensures
        r == transition_of(op, id, presence),
{
    match check_request(op, id) {
        Err(e) => {
            return Err(e);
        },
        Ok(_) => {},
    }
    if let Operation::Delete = op {
        if presence.pending || presence.unapproved || presence.original {
            return Ok(Action::Remove);
        }
        return Err(LifecycleError::NotFound);
    }
    if !presence.is_exclusive() {
        return Err(LifecycleError::Conflict);
    }
    match op {
        Operation::Submit => {
            if presence.pending {
                Ok(Action::Move { from: Stage::Pending, to: Stage::Unapproved, invalidate: false })
            } else {
                Err(LifecycleError::NotFound)
            }
        },
        Operation::Approve => {
            if presence.unapproved {
                Ok(Action::Move { from: Stage::Unapproved, to: Stage::Original, invalidate: true })
            } else if presence.pending {
                Ok(Action::Move { from: Stage::Pending, to: Stage::Original, invalidate: true })
            } else {
                Err(LifecycleError::NotFound)
            }
        },
        Operation::Unapprove => {
            if presence.original {
                Ok(Action::Move { from: Stage::Original, to: Stage::Unapproved, invalidate: true })
            } else {
                Err(LifecycleError::NotFound)
            }
        },
        Operation::Delete => Err(LifecycleError::NotFound),
        Operation::Rotate { angle } => {
            match determine_img_dir(presence, ImageSearchBehaviour::Valid) {
                Ok(stage) => Ok(Action::Reencode { stage, angle, quality: ROTATION_QUALITY }),
                Err(_) => Err(LifecycleError::NotFound),
            }
        },
    }
}

impl Action {
    /// Whether the action ends by dropping the asset's cached renditions.
    pub open spec fn invalidates(self) -> bool {
        match self {
            Action::Move { invalidate, .. } => invalidate,
            Action::Remove => true,
            Action::Reencode { .. } => true,
        }
    }

    /// Tells whether the caller must drop the asset's cached renditions
    /// as the last step of the action.
    pub fn invalidates_cache(&self) -> (r: bool)
        ensures
            r == self.invalidates(),
    {
        match self {
            Action::Move { invalidate, .. } => *invalidate,
            Action::Remove => true,
            Action::Reencode { .. } => true,
        }
    }
}

/// The stages that hold an asset once `stage` was emptied.
pub open spec fn without_stage(presence: Presence, stage: Stage) -> Presence {
    Presence {
        pending: presence.pending && stage != Stage::Pending,
        unapproved: presence.unapproved && stage != Stage::Unapproved,
        original: presence.original && stage != Stage::Original,
    }
}

/// The stages that hold an asset once `stage` received it.
pub open spec fn with_stage(presence: Presence, stage: Stage) -> Presence {
    Presence {
        pending: presence.pending || stage == Stage::Pending,
        unapproved: presence.unapproved || stage == Stage::Unapproved,
        original: presence.original || stage == Stage::Original,
    }
}

/// The stages that hold an asset after an action was performed on a
/// store in which `before` held it. A rename empties its source and fills
/// its target; a removal empties every stage; a rotation moves nothing.
pub open spec fn after(before: Presence, action: Action) -> Presence {
    match action {
        Action::Move { from, to, .. } => with_stage(without_stage(before, from), to),
        Action::Remove => Presence { pending: false, unapproved: false, original: false },
        Action::Reencode { .. } => before,
    }
}

/// Computes the stages that hold an asset after an action, for a caller
/// that keeps a picture of the store.
pub fn apply(before: Presence, action: Action) -> (r: Presence)
    ensures
        r == after(before, action),
{
    match action {
        Action::Move { from, to, invalidate: _ } => Presence {
            pending: (before.pending && from != Stage::Pending) || to == Stage::Pending,
            unapproved: (before.unapproved && from != Stage::Unapproved) || to
                == Stage::Unapproved,
            original: (before.original && from != Stage::Original) || to == Stage::Original,
        },
        Action::Remove => Presence { pending: false, unapproved: false, original: false },
        Action::Reencode { .. } => before,
    }
}

/// After a successful move from one stage to another, the source stage no
/// longer holds the asset and the target stage does: locating the asset in
/// the source finds nothing, locating it in the target finds its path. The
/// two stages differ, the identifier is not nil, and the asset is in the
/// target stage alone. No move leads into the pending stage, and none
/// touches the raw slot.
pub proof fn lemma_move_relocates(
    op: Operation,
    id: AssetId,
    before: Presence,
    from: Stage,
    to: Stage,
    invalidate: bool,
)
    requires
        transition_of(op, id, before) == Ok::<Action, LifecycleError>(
            (Action::Move { from, to, invalidate }),
        ),
    ensures
        from != to,
        from != Stage::Raw,
        to == Stage::Unapproved || to == Stage::Original,
        !id.spec_is_nil(),
        before.holds(from),
        located(from, id, after(before, (Action::Move { from, to, invalidate }))) is None,
        located(to, id, after(before, (Action::Move { from, to, invalidate }))) == Some(
            asset_path(to, id),
        ),
        after(before, (Action::Move { from, to, invalidate })).count() == 1,
{
}

/// Every accepted action keeps the store's invariant: if at most one stage
/// held the asset before, at most one holds it after. A removal leaves it
/// in none.
pub proof fn lemma_transition_keeps_exclusive(op: Operation, id: AssetId, before: Presence)
    requires
        before.exclusive(),
        transition_of(op, id, before) is Ok,
    ensures
        after(before, transition_of(op, id, before)->Ok_0).exclusive(),
        op == Operation::Delete ==> after(before, transition_of(op, id, before)->Ok_0).count()
            == 0,
{
}

/// `Delete` is accepted wherever the asset is, and leaves it nowhere: it
/// repairs a store in which several stages hold the asset.
pub proof fn lemma_delete_always_clears(id: AssetId, before: Presence)
    requires
        !id.spec_is_nil(),
        before.count() >= 1,
    ensures
        transition_of(Operation::Delete, id, before) == Ok::<Action, LifecycleError>(
            Action::Remove,
        ),
        after(before, Action::Remove).count() == 0,
{
}

/// A rotation by an angle that is not accepted is refused whatever the
/// store holds, so the refusal needs no look at storage.
pub proof fn lemma_bad_angle_refused(id: AssetId, presence: Presence, angle: i64)
    requires
        !rotation_allowed(angle as int),
    ensures
        request_check((Operation::Rotate { angle }), id) == Err::<(), LifecycleError>(
            LifecycleError::InvalidAngle,
        ),
        transition_of((Operation::Rotate { angle }), id, presence) == Err::<
            Action,
            LifecycleError,
        >(LifecycleError::InvalidAngle),
{
}

/// Every action that changes what a read of the asset returns ends by
/// dropping its cached renditions: all but `Submit`.
pub proof fn lemma_mutations_invalidate(op: Operation, id: AssetId, before: Presence)
    requires
        transition_of(op, id, before) is Ok,
        op != Operation::Submit,
    ensures
        transition_of(op, id, before)->Ok_0.invalidates(),
{
}

} // verus!
