//! Accepting an upload: what is refused, and where an accepted upload is
//! written.

use crate::constants::PENDING_QUALITY;
use crate::filetype::{detected, determine_file_type, FileType};
use crate::id::AssetId;
use crate::path::{asset_path, get_asset_path, Stage};
use vstd::prelude::*;

verus! {

/// Why an upload was refused.
#[derive(Clone, Copy, Debug, PartialEq, Eq, Structural)]
pub enum UploadError {
    /// The upload has no bytes.
    EmptyFile,
    /// The upload begins like none of the supported formats.
    UnsupportedType,
}

/// Where an accepted upload goes. The asset is created in the pending
/// stage, encoded in the canonical format with `quality`; the bytes as they
/// arrived may be kept at `raw_path`.
#[derive(Clone, Debug)]
pub struct UploadPlan {
    pub id: AssetId,
    pub file_type: FileType,
    pub pending_path: String,
    pub raw_path: String,
    pub quality: i32,
}

/// Whether an upload is accepted, and as which format.
pub open spec fn upload_check(data: Seq<u8>) -> Result<FileType, UploadError> {
    if data.len() == 0 {
        Err(UploadError::EmptyFile)
    } else {
        match detected(data) {
            None => Err(UploadError::UnsupportedType),
            Some(file_type) => Ok(file_type),
        }
    }
}

/// Plans the storing of an upload under the identifier `id`.
pub fn plan_upload(id: AssetId, data: &[u8]) -> (r: Result<UploadPlan, UploadError>)
    ensures
        match upload_check(data@) {
            Err(e) => r == Err::<UploadPlan, UploadError>(e),
            Ok(file_type) => r is Ok && r->Ok_0.id == id && r->Ok_0.file_type == file_type
                && r->Ok_0.pending_path@ == asset_path(Stage::Pending, id) && r->Ok_0.raw_path@
                == asset_path(Stage::Raw, id) && r->Ok_0.quality == PENDING_QUALITY,
        },
{
    if data.len() == 0 {
        return Err(UploadError::EmptyFile);
    }
    match determine_file_type(data) {
        None => Err(UploadError::UnsupportedType),
        Some(found) => Ok(
            UploadPlan {
                id,
                file_type: found.file_type,
                pending_path: get_asset_path(Stage::Pending, id),
                raw_path: get_asset_path(Stage::Raw, id),
                quality: PENDING_QUALITY,
            },
        ),
    }
}

/// Accepts or refuses an upload. An accepted upload gets a fresh random
/// identifier, which is never nil, and the paths that belong to it.
pub fn upload_handler(data: &[u8]) -> (r: Result<UploadPlan, UploadError>)
    ensures
        match upload_check(data@) {
            Err(e) => r == Err::<UploadPlan, UploadError>(e),
            Ok(file_type) => r is Ok && !r->Ok_0.id.spec_is_nil() && r->Ok_0.file_type
                == file_type && r->Ok_0.pending_path@ == asset_path(Stage::Pending, r->Ok_0.id)
                && r->Ok_0.raw_path@ == asset_path(Stage::Raw, r->Ok_0.id) && r->Ok_0.quality
                == PENDING_QUALITY,
        },
{
    let id: AssetId = AssetId::generate();
    plan_upload(id, data)
}

} // verus!
