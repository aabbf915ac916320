//! Answering a read request: which copy of an asset is served, whether the
//! cache answers, and what the transform backend is asked for.
//!
//! The caller gathers what it saw in storage and what the auth collaborator
//! and the transform backend said, and the functions here decide. The
//! steps can be taken one by one, in the order `check_id`, `choose_source`,
//! `plan_delivery`, `manipulate_image`, so that nothing is looked up before
//! it is needed; `resolve` is the same decision in one call.

use crate::cache::CacheBehavior;
use crate::constants::DEFAULT_QUALITY;
use crate::id::AssetId;
use crate::path::Stage;
use vstd::prelude::*;

verus! {

/// The parameters of a read request. Each may be left out.
#[derive(Clone, Debug)]
pub struct ImageQuery {
    pub width: Option<i32>,
    pub height: Option<i32>,
    pub quality: Option<i32>,
    pub auth: Option<String>,
}

/// Why a read request was not answered with bytes.
#[derive(Clone, Copy, Debug, PartialEq, Eq, Structural)]
pub enum ResolveError {
    /// The identifier is nil.
    InvalidIdentifier,
    /// No copy of the asset may be shown to this caller: there is none, or
    /// there is only an unapproved one and the caller is not authorized.
    /// The two are deliberately not told apart.
    NotFound,
    /// The transform backend could not read the asset.
    BackendFailure,
}

/// How the transform backend fits the image into the target box.
#[derive(Clone, Copy, Debug, PartialEq, Eq, Structural)]
pub enum Crop {
    /// Scale down inside the box and keep the aspect ratio.
    Fit,
    /// Fill the box exactly, cutting around the centre of the scaled image.
    Centre,
}

/// Width and height of an image, in pixels.
#[derive(Clone, Copy, Debug, PartialEq, Eq, Structural)]
pub struct Dimensions {
    pub width: i32,
    pub height: i32,
}

/// The copy of an asset that a request is served from.
#[derive(Clone, Copy, Debug, PartialEq, Eq, Structural)]
pub struct Source {
    pub stage: Stage,
    pub cache: CacheBehavior,
}

/// A rendition as the cache names it: the requested width and height, each
/// possibly left out, and the quality.
#[derive(Clone, Copy, Debug, PartialEq, Eq, Structural)]
pub struct Rendition {
    pub width: Option<i32>,
    pub height: Option<i32>,
    pub quality: i32,
}

/// What the transform backend is asked for: a target box, how to fit the
/// image into it, and the encoder quality. The backend never scales up.
#[derive(Clone, Copy, Debug, PartialEq, Eq, Structural)]
pub struct Transform {
    pub target_width: i32,
    pub target_height: i32,
    pub crop: Crop,
    pub quality: i32,
}

/// How the bytes of the answer are obtained.
#[derive(Clone, Copy, Debug, PartialEq, Eq, Structural)]
pub enum Delivery {
    /// Read the rendition's cache entry; the backend is not called.
    FromCache,
    /// Call the backend; if `store` is set, write what it returns to the
    /// rendition's cache entry before answering.
    Compute { transform: Transform, store: bool },
}

/// Where the bytes come from, before the backend was asked anything.
#[derive(Clone, Copy, Debug, PartialEq, Eq, Structural)]
pub enum Route {
    /// The cache has the rendition and may be read.
    Cache,
    /// The backend computes the rendition; `store` tells whether the cache
    /// then takes it.
    Backend { store: bool },
}

/// The answer to a request that is served.
#[derive(Clone, Copy, Debug, PartialEq, Eq, Structural)]
pub struct Resolution {
    pub source: Source,
    pub rendition: Rendition,
    pub delivery: Delivery,
}

/// What the caller observed for one request. A field that the decision
/// does not come to look at may hold any value.
#[derive(Clone, Copy, Debug, PartialEq, Eq, Structural)]
pub struct Observation {
    /// The original stage holds the asset.
    pub in_original: bool,
    /// The auth collaborator accepted the caller's credential.
    pub authorized: bool,
    /// The unapproved stage holds the asset.
    pub in_unapproved: bool,
    /// The cache directory holds the entry of the requested rendition.
    pub cache_hit: bool,
    /// Width and height of the asset as the backend reports them, or `None`
    /// where it could not read the asset.
    pub native: Option<Dimensions>,
}

/// The nil identifier is refused; this needs no look at storage.
pub fn check_id(id: AssetId) -> (r: Result<(), ResolveError>)
    ensures
        r == (if id.spec_is_nil() {
            Err::<(), ResolveError>(ResolveError::InvalidIdentifier)
        } else {
            Ok::<(), ResolveError>(())
        }),
{
    if id.is_nil() {
        Err(ResolveError::InvalidIdentifier)
    } else {
        Ok(())
    }
}

/// Which copy is served. An approved asset is public and goes through the
/// cache. Otherwise an authorized caller is served the unapproved copy,
/// past the cache. Everything else is not found.
pub open spec fn source_of(in_original: bool, authorized: bool, in_unapproved: bool) -> Result<
    Source,
    ResolveError,
> {
    if in_original {
        Ok(Source { stage: Stage::Original, cache: CacheBehavior::Normal })
    } else if authorized && in_unapproved {
        Ok(Source { stage: Stage::Unapproved, cache: CacheBehavior::Skip })
    } else {
        Err(ResolveError::NotFound)
    }
}

/// Chooses the copy that a request is served from.
pub fn choose_source(in_original: bool, authorized: bool, in_unapproved: bool) -> (r: Result<
    Source,
    ResolveError,
>)
    ensures
        r == source_of(in_original, authorized, in_unapproved),
{
    if in_original {
        Ok(Source { stage: Stage::Original, cache: CacheBehavior::Normal })
    } else if authorized && in_unapproved {
        Ok(Source { stage: Stage::Unapproved, cache: CacheBehavior::Skip })
    } else {
        Err(ResolveError::NotFound)
    }
}

/// The quality of a rendition: the requested one, or the default.
pub open spec fn quality_of(requested: Option<i32>) -> i32 {
    match requested {
        Some(q) => q,
        None => DEFAULT_QUALITY,
    }
}

/// The rendition that a query asks for.
pub open spec fn rendition_of(
    width: Option<i32>,
    height: Option<i32>,
    quality: Option<i32>,
) -> Rendition {
    Rendition { width, height, quality: quality_of(quality) }
}

/// Names the rendition that a query asks for. Its fields, with the asset's
/// identifier, make the name of its cache entry.
pub fn plan_rendition(query: &ImageQuery) -> (r: Rendition)
    ensures
        r == rendition_of(query.width, query.height, query.quality),
{
    let quality: i32 = match query.quality {
        Some(q) => q,
        None => DEFAULT_QUALITY,
    };
    Rendition { width: query.width, height: query.height, quality }
}

/// Where the bytes come from: the cache on a hit, the backend otherwise,
/// and always the backend, with nothing stored, where the cache is skipped.
pub open spec fn route_of(cache: CacheBehavior, cache_hit: bool) -> Route {
    match cache {
        CacheBehavior::Normal => if cache_hit {
            Route::Cache
        } else {
            Route::Backend { store: true }
        },
        CacheBehavior::Skip => Route::Backend { store: false },
    }
}

/// Decides whether the answer is read from the cache or computed.
pub fn plan_delivery(cache: CacheBehavior, cache_hit: bool) -> (r: Route)
    ensures
        r == route_of(cache, cache_hit),
{
    match cache {
        CacheBehavior::Normal => {
            if cache_hit {
                Route::Cache
            } else {
                Route::Backend { store: true }
            }
        },
        CacheBehavior::Skip => Route::Backend { store: false },
    }
}

/// The side of the target box for one dimension: the requested size, or
/// the asset's own where the request names none.
pub open spec fn target_side(requested: Option<i32>, native: i32) -> i32 {
    match requested {
        Some(n) => n,
        None => native,
    }
}

/// What the backend is asked for, for a rendition of an asset of the given
/// native size. The image is cut to the box only where the request names
/// both sides; otherwise it is scaled down inside the box.
pub open spec fn transform_of(rendition: Rendition, native: Dimensions) -> Transform {
    Transform {
        target_width: target_side(rendition.width, native.width),
        target_height: target_side(rendition.height, native.height),
        crop: if rendition.width is Some && rendition.height is Some {
            Crop::Centre
        } else {
            Crop::Fit
        },
        quality: rendition.quality,
    }
}

/// Plans the call of the transform backend for a request: the target box,
/// the cropping and the quality.
pub fn manipulate_image(
    height: Option<i32>,
    width: Option<i32>,
    quality: i32,
    native: Dimensions,
) -> (r: Transform)
    ensures
        r == transform_of((Rendition { width, height, quality }), native),
{
    let target_width: i32 = match width {
        Some(n) => n,
        None => native.width,
    };
    let target_height: i32 = match height {
        Some(n) => n,
        None => native.height,
    };
    let crop: Crop = match (height, width) {
        (Some(_), Some(_)) => Crop::Centre,
        _ => Crop::Fit,
    };
    Transform { target_width, target_height, crop, quality }
}

/// How a rendition of the chosen copy is delivered. On a cache hit of a
/// public asset nothing is asked of the backend. Otherwise the backend
/// must have reported the asset's size, and computes the rendition.
pub open spec fn delivery_of(
    source: Source,
    rendition: Rendition,
    cache_hit: bool,
    native: Option<Dimensions>,
) -> Result<Delivery, ResolveError> {
    match route_of(source.cache, cache_hit) {
        Route::Cache => Ok(Delivery::FromCache),
        Route::Backend { store } => match native {
            None => Err(ResolveError::BackendFailure),
            Some(size) => Ok(Delivery::Compute { transform: transform_of(rendition, size), store }),
        },
    }
}

/// The whole decision on a read request.
pub open spec fn resolved(
    id: AssetId,
    width: Option<i32>,
    height: Option<i32>,
    quality: Option<i32>,
    seen: Observation,
) -> Result<Resolution, ResolveError> {
    if id.spec_is_nil() {
        Err(ResolveError::InvalidIdentifier)
    } else {
        match source_of(seen.in_original, seen.authorized, seen.in_unapproved) {
            Err(e) => Err(e),
            Ok(source) => {
                let rendition = rendition_of(width, height, quality);
                match delivery_of(source, rendition, seen.cache_hit, seen.native) {
                    Err(e) => Err(e),
                    Ok(delivery) => Ok(Resolution { source, rendition, delivery }),
                }
            },
        }
    }
}

/// Plans the answer once the copy to serve is known.
pub fn image_handler_helper(
    source: Source,
    query: &ImageQuery,
    cache_hit: bool,
    native: Option<Dimensions>,
) -> (r: Result<Resolution, ResolveError>)
    ensures
        match delivery_of(
            source,
            rendition_of(query.width, query.height, query.quality),
            cache_hit,
            native,
        ) {
            Err(e) => r == Err::<Resolution, ResolveError>(e),
            Ok(delivery) => r == Ok::<Resolution, ResolveError>(
                (Resolution {
                    source,
                    rendition: rendition_of(query.width, query.height, query.quality),
                    delivery,
                }),
            ),
        },
{
    let rendition: Rendition = plan_rendition(query);
    match plan_delivery(source.cache, cache_hit) {
        Route::Cache => Ok(Resolution { source, rendition, delivery: Delivery::FromCache }),
        Route::Backend { store } => match native {
            None => Err(ResolveError::BackendFailure),
            Some(size) => {
                let transform: Transform = manipulate_image(
                    rendition.height,
                    rendition.width,
                    rendition.quality,
                    size,
                );
                let delivery: Delivery = Delivery::Compute { transform, store };
                Ok(Resolution { source, rendition, delivery })
            },
        },
    }
}

/// Decides how a read request is answered, from what the caller observed.
pub fn resolve(id: AssetId, query: &ImageQuery, seen: Observation) -> (r: Result<
    Resolution,
    ResolveError,
>)
    ensures
        r == resolved(id, query.width, query.height, query.quality, seen),
{
    match check_id(id) {
        Err(e) => {
            return Err(e);
        },
        Ok(_) => {},
    }
    let chosen = choose_source(seen.in_original, seen.authorized, seen.in_unapproved);
    let source: Source = match chosen {
        Err(e) => {
            return Err(e);
        },
        Ok(source) => source,
    };
    image_handler_helper(source, query, seen.cache_hit, seen.native)
}

/// An unapproved copy never meets the cache: a request that is served
/// while the original stage does not hold the asset is served to an
/// authorized caller, computed by the backend, and nothing is stored,
/// whatever the cache holds.
pub proof fn lemma_unapproved_bypasses_cache(
    id: AssetId,
    width: Option<i32>,
    height: Option<i32>,
    quality: Option<i32>,
    seen: Observation,
)
    requires
        !seen.in_original,
        resolved(id, width, height, quality, seen) is Ok,
    ensures
        seen.authorized,
        resolved(id, width, height, quality, seen)->Ok_0.source.stage == Stage::Unapproved,
        resolved(id, width, height, quality, seen)->Ok_0.delivery is Compute,
        resolved(id, width, height, quality, seen)->Ok_0.delivery->store == false,
{
}

/// A caller without authorization cannot learn whether an unapproved copy
/// exists: where the original stage does not hold the asset, the answer is
/// `NotFound` whether the unapproved stage holds it or not.
pub proof fn lemma_unauthorized_learns_nothing(
    id: AssetId,
    width: Option<i32>,
    height: Option<i32>,
    quality: Option<i32>,
    seen: Observation,
)
    requires
        !id.spec_is_nil(),
        !seen.in_original,
        !seen.authorized,
    ensures
        resolved(id, width, height, quality, seen) == Err::<Resolution, ResolveError>(
            ResolveError::NotFound,
        ),
{
}

/// An approved asset is served to everyone. On a cache hit the entry is
/// read back and the backend is not consulted: the answer does not depend
/// on what it would have said. On a miss the backend computes the
/// rendition, which is then stored.
pub proof fn lemma_original_uses_cache(
    id: AssetId,
    width: Option<i32>,
    height: Option<i32>,
    quality: Option<i32>,
    seen: Observation,
)
    requires
        !id.spec_is_nil(),
        seen.in_original,
    ensures
        seen.cache_hit ==> resolved(id, width, height, quality, seen) == Ok::<
            Resolution,
            ResolveError,
        >(
            (Resolution {
                source: Source { stage: Stage::Original, cache: CacheBehavior::Normal },
                rendition: rendition_of(width, height, quality),
                delivery: Delivery::FromCache,
            }),
        ),
        !seen.cache_hit && seen.native is Some ==> resolved(id, width, height, quality, seen)
            is Ok && resolved(id, width, height, quality, seen)->Ok_0.delivery == (
        Delivery::Compute {
            transform: transform_of(rendition_of(width, height, quality), seen.native->Some_0),
            store: true,
        }),
        !seen.cache_hit && seen.native is None ==> resolved(id, width, height, quality, seen)
            == Err::<Resolution, ResolveError>(ResolveError::BackendFailure),
{
}

/// A request that names neither width nor height asks the backend for the
/// asset's native size, uncropped, so the asset is not resized.
pub proof fn lemma_unsized_request_keeps_native(quality: Option<i32>, native: Dimensions)
    ensures
        transform_of(rendition_of(None, None, quality), native).target_width == native.width,
        transform_of(rendition_of(None, None, quality), native).target_height == native.height,
        transform_of(rendition_of(None, None, quality), native).crop == Crop::Fit,
{
}

} // verus!
