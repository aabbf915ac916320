//! Asset lifecycle and rendition cache of an image moderation service.
//!
//! Users upload images, a moderator approves or rejects them, and approved
//! images are served in resized and re-encoded renditions. This crate holds
//! the rules of that service as verified functions on plain values:
//!
//! - `id`, `path`: identifiers, stage directories and canonical paths;
//! - `lifecycle`: the approval stages and the moves between them;
//! - `cache`, `cache_info`: how renditions are named in the cache, which
//!   entries a mutation invalidates, and the statistics of the cache;
//! - `resolver`: how a read request is answered;
//! - `cleaner`: which stale uploads a sweep reclaims;
//! - `upload`, `filetype`: which uploads are accepted;
//! - `auth`: whether a caller holds a moderator's credential;
//! - `locks`: which assets are being mutated;
//! - `outcome`, `error`: what the file system answered, and what callers are
//!   told of a failure;
//! - `text`, `constants`: helpers and fixed settings.
//!
//! Nothing here touches a file, a socket or a pixel. The caller reads and
//! writes, and hands what it saw to the functions of this crate, which
//! decide.

pub mod auth;
pub mod cache;
pub mod cache_info;
pub mod cleaner;
pub mod constants;
pub mod error;
pub mod filetype;
pub mod id;
pub mod lifecycle;
pub mod locks;
pub mod outcome;
pub mod path;
pub mod resolver;
pub mod text;
pub mod upload;
