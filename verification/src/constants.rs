//! Fixed settings of the service.

use vstd::prelude::*;

verus! {

/// Largest accepted upload body, in bytes.
pub const CONTENT_LENGTH_LIMIT: usize = 12582912;

/// Encoder quality of a freshly uploaded asset.
pub const PENDING_QUALITY: i32 = 80;

/// Encoder quality when an asset is rotated in place. It is the maximum so
/// that repeated rotations do not degrade the asset.
pub const ROTATION_QUALITY: i32 = 100;

/// Encoder quality of a rendition whose request names none.
pub const DEFAULT_QUALITY: i32 = 80;

/// Age in seconds after which a pending upload is reclaimed.
pub const RETENTION_SECONDS: u64 = 3600;

/// Pause in seconds between two sweeps of the pending directory.
pub const SWEEP_INTERVAL_SECONDS: u64 = 900;

} // verus!
