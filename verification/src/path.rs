//! Where assets live: the stage directories and the canonical file paths
//! in them.

use crate::id::{id_text, AssetId};
use vstd::prelude::*;
use vstd::string::*;

verus! {

/// The places an asset can occupy. `Pending`, `Unapproved` and `Original`
/// are the approval stages, of which an asset occupies at most one. `Raw` is
/// the slot of the optional copy in the upload's own format.
#[derive(Clone, Copy, Debug, PartialEq, Eq, Structural)]
pub enum Stage {
    Raw,
    Pending,
    Unapproved,
    Original,
}

/// Directory of uploads that were not yet submitted.
pub open spec fn pending_dir() -> Seq<char> {
    "data/pending"@
}

/// Directory of submitted assets that wait for approval.
pub open spec fn unapproved_dir() -> Seq<char> {
    "data/unapproved"@
}

/// Directory of approved assets, which are served to everyone.
pub open spec fn original_dir() -> Seq<char> {
    "data/originals"@
}

/// Directory of cached renditions.
pub open spec fn cache_dir() -> Seq<char> {
    "data/cache"@
}

/// Directory of uploads as they arrived.
pub open spec fn raw_dir() -> Seq<char> {
    "data/raw"@
}

/// The directory of a stage.
pub open spec fn stage_dir(stage: Stage) -> Seq<char> {
    match stage {
        Stage::Raw => raw_dir(),
        Stage::Pending => pending_dir(),
        Stage::Unapproved => unapproved_dir(),
        Stage::Original => original_dir(),
    }
}

/// The extension of a file in a stage: the service's one canonical format
/// in the approval stages, and a fixed marker for raw copies.
pub open spec fn stage_extension(stage: Stage) -> Seq<char> {
    match stage {
        Stage::Raw => ".raw"@,
        _ => ".avif"@,
    }
}

/// The name of an asset's file in a stage directory.
pub open spec fn asset_file_name(stage: Stage, id: AssetId) -> Seq<char> {
    id_text(id.bits) + stage_extension(stage)
}

/// The path of an asset's file in a stage.
pub open spec fn asset_path(stage: Stage, id: AssetId) -> Seq<char> {
    stage_dir(stage) + "/"@ + asset_file_name(stage, id)
}

pub fn get_pending_path() -> (r: String)
    ensures
        r@ == pending_dir(),
{
    String::from_str("data/pending")
}

pub fn get_unapproved_path() -> (r: String)
    ensures
        r@ == unapproved_dir(),
{
    String::from_str("data/unapproved")
}

pub fn get_original_path() -> (r: String)
    ensures
        r@ == original_dir(),
{
    String::from_str("data/originals")
}

pub fn get_cache_path() -> (r: String)
    ensures
        r@ == cache_dir(),
{
    String::from_str("data/cache")
}

pub fn get_raw_path() -> (r: String)
    ensures
        r@ == raw_dir(),
{
    String::from_str("data/raw")
}

/// The directory of `stage`.
pub fn get_stage_path(stage: Stage) -> (r: String)
    ensures
        r@ == stage_dir(stage),
{
    match stage {
        Stage::Raw => get_raw_path(),
        Stage::Pending => get_pending_path(),
        Stage::Unapproved => get_unapproved_path(),
        Stage::Original => get_original_path(),
    }
}

/// Builds the name of an asset's file in a stage directory.
pub fn get_asset_file_name(stage: Stage, id: AssetId) -> (r: String)
    ensures
        r@ == asset_file_name(stage, id),
{
    let mut name: String = id.to_text();
    match stage {
        Stage::Raw => name.append(".raw"),
        _ => name.append(".avif"),
    }
    name
}

/// Builds the path at which `stage` holds the asset `id`. The path depends
/// on the stage and the identifier alone; no directory is searched.
pub fn get_asset_path(stage: Stage, id: AssetId) -> (r: String)
    ensures
        r@ == asset_path(stage, id),
{
    let mut path: String = get_stage_path(stage);
    path.append("/");
    let name: String = get_asset_file_name(stage, id);
    path.append(name.as_str());
    assert(path@ =~= asset_path(stage, id));
    path
}

} // verus!
