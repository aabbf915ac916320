//! The rendition cache: how a rendition is named, and which entries belong
//! to one asset.
//!
//! An entry is one file in the cache directory. Its name is made of the
//! asset's identifier and of the requested width, height and quality, so
//! equal requests meet in one file. Entries are created and removed
//! whole; all entries of an asset start with the text of its identifier.

use crate::id::{lemma_id_text_injective, AssetId};
use crate::path::{cache_dir, get_cache_path};
use crate::text::{
    decimal, decimal_text, is_decimal_digit, lemma_cut_at_separator, lemma_decimal_chars,
    lemma_decimal_injective, starts_with, texts,
};
use vstd::prelude::*;
use vstd::string::*;

verus! {

/// Whether a read may use the cache.
#[derive(Clone, Copy, Debug, PartialEq, Eq, Structural)]
pub enum CacheBehavior {
    /// Serve from the cache where it has the rendition, and store what was
    /// computed.
    Normal,
    /// Neither read nor write the cache.
    Skip,
}

/// How a requested width or height is written in an entry's name: a
/// dimension that the request left out is written as the word `UNSPEC`,
/// which no number is written as.
pub open spec fn dimension_token(dimension: Option<i32>) -> Seq<char> {
    match dimension {
        Some(n) => decimal(n as int),
        None => "UNSPEC"@,
    }
}

/// The file name of the entry for one rendition of the asset whose
/// identifier is written `uuid`.
pub open spec fn cache_file_name(
    uuid: Seq<char>,
    width: Option<i32>,
    height: Option<i32>,
    quality: i32,
) -> Seq<char> {
    uuid + "-"@ + dimension_token(width) + "x"@ + dimension_token(height) + "-"@ + decimal(
        quality as int,
    ) + ".webp"@
}

/// The path of the entry for one rendition.
pub open spec fn cache_path(
    uuid: Seq<char>,
    width: Option<i32>,
    height: Option<i32>,
    quality: i32,
) -> Seq<char> {
    cache_dir() + "/"@ + cache_file_name(uuid, width, height, quality)
}

fn dimension_text(dimension: Option<i32>) -> (r: String)
    ensures
        r@ == dimension_token(dimension),
{
    match dimension {
        Some(n) => decimal_text(n as i64),
        None => String::from_str("UNSPEC"),
    }
}

/// Builds the path of the cache entry for one rendition. The path is a
/// function of the four arguments: equal arguments give equal paths.
pub fn get_cache_entry(uuid: &str, height: Option<i32>, width: Option<i32>, quality: i32) -> (r:
    String)
    ensures
        r@ == cache_path(uuid@, width, height, quality),
{
    let mut path: String = get_cache_path();
    path.append("/");
    path.append(uuid);
    path.append("-");
    let w: String = dimension_text(width);
    path.append(w.as_str());
    path.append("x");
    let h: String = dimension_text(height);
    path.append(h.as_str());
    path.append("-");
    let q: String = decimal_text(quality as i64);
    path.append(q.as_str());
    path.append(".webp");
    path
}

/// Two requests with the same identifier, width, height and quality are
/// answered from the same cache path.
pub proof fn lemma_cache_path_deterministic(
    uuid_a: Seq<char>,
    width_a: Option<i32>,
    height_a: Option<i32>,
    quality_a: i32,
    uuid_b: Seq<char>,
    width_b: Option<i32>,
    height_b: Option<i32>,
    quality_b: i32,
)
    requires
        uuid_a == uuid_b,
        width_a == width_b,
        height_a == height_b,
        quality_a == quality_b,
    ensures
        cache_path(uuid_a, width_a, height_a, quality_a) == cache_path(
            uuid_b,
            width_b,
            height_b,
            quality_b,
        ),
{
}

/// A dimension that was left out is never written like a number: not like
/// zero, and not like any other.
pub proof fn lemma_unspecified_is_no_number(n: i32)
    ensures
        dimension_token(None) != dimension_token(Some(n)),
{
    reveal_strlit("UNSPEC");
    lemma_decimal_chars(n as int);
    if decimal(n as int) == "UNSPEC"@ {
        assert(decimal(n as int)[0] == 'U');
    }
}

/// Different dimensions are written differently.
pub proof fn lemma_token_injective(a: Option<i32>, b: Option<i32>)
    requires
        dimension_token(a) == dimension_token(b),
    ensures
        a == b,
{
    match (a, b) {
        (Some(x), Some(y)) => {
            lemma_decimal_injective(x as int, y as int);
        },
        (Some(x), None) => {
            lemma_unspecified_is_no_number(x);
        },
        (None, Some(y)) => {
            lemma_unspecified_is_no_number(y);
        },
        (None, None) => {},
    }
}

/// A dimension is written with at least one character, without an `x`, and
/// with no hyphen but, possibly, at its start.
pub proof fn lemma_token_chars(dimension: Option<i32>)
    ensures
        dimension_token(dimension).len() >= 1,
        forall|i: int|
            0 <= i < dimension_token(dimension).len() ==> dimension_token(dimension)[i] != 'x',
        forall|i: int|
            1 <= i < dimension_token(dimension).len() ==> dimension_token(dimension)[i] != '-',
{
    reveal_strlit("UNSPEC");
    match dimension {
        Some(n) => {
            lemma_decimal_chars(n as int);
            let d = decimal(n as int);
            assert forall|i: int| 0 <= i < d.len() implies d[i] != 'x' by {
                if i >= 1 {
                    assert(is_decimal_digit(d[i]));
                }
            }
            assert forall|i: int| 1 <= i < d.len() implies d[i] != '-' by {
                assert(is_decimal_digit(d[i]));
            }
        },
        None => {},
    }
}

/// Different requests never share a cache entry. If two renditions of
/// assets whose identifiers are written equally long have the same file
/// name, they are renditions of the same asset with the same width, height
/// and quality, each left out in both or given in both.
pub proof fn lemma_cache_name_injective(
    uuid_a: Seq<char>,
    width_a: Option<i32>,
    height_a: Option<i32>,
    quality_a: i32,
    uuid_b: Seq<char>,
    width_b: Option<i32>,
    height_b: Option<i32>,
    quality_b: i32,
)
    requires
        uuid_a.len() == uuid_b.len(),
        cache_file_name(uuid_a, width_a, height_a, quality_a) == cache_file_name(
            uuid_b,
            width_b,
            height_b,
            quality_b,
        ),
    ensures
        uuid_a == uuid_b,
        width_a == width_b,
        height_a == height_b,
        quality_a == quality_b,
{
    reveal_strlit("-");
    reveal_strlit("x");
    reveal_strlit(".webp");
    let name_a = cache_file_name(uuid_a, width_a, height_a, quality_a);
    let name_b = cache_file_name(uuid_b, width_b, height_b, quality_b);
    let (wa, ha, qa) = (
        dimension_token(width_a),
        dimension_token(height_a),
        decimal(quality_a as int),
    );
    let (wb, hb, qb) = (
        dimension_token(width_b),
        dimension_token(height_b),
        decimal(quality_b as int),
    );
    let ext = ".webp"@;
    // after the identifier and its hyphen
    let rest_a = wa + seq!['x'] + (ha + seq!['-'] + (qa + ext));
    let rest_b = wb + seq!['x'] + (hb + seq!['-'] + (qb + ext));
    assert(name_a =~= uuid_a + seq!['-'] + rest_a);
    assert(name_b =~= uuid_b + seq!['-'] + rest_b);
    assert(uuid_a =~= uuid_b) by {
        assert forall|i: int| 0 <= i < uuid_a.len() implies uuid_a[i] == uuid_b[i] by {
            assert(name_a[i] == uuid_a[i]);
            assert(name_b[i] == uuid_b[i]);
        }
    }
    assert(rest_a =~= rest_b) by {
        assert(name_a.len() == name_b.len());
        assert forall|i: int| 0 <= i < rest_a.len() implies rest_a[i] == rest_b[i] by {
            assert(name_a[uuid_a.len() + 1 + i] == rest_a[i]);
            assert(name_b[uuid_b.len() + 1 + i] == rest_b[i]);
        }
    }
    lemma_token_chars(width_a);
    lemma_token_chars(width_b);
    lemma_cut_at_separator(
        wa,
        ha + seq!['-'] + (qa + ext),
        wb,
        hb + seq!['-'] + (qb + ext),
        'x',
        0,
    );
    lemma_token_injective(width_a, width_b);
    lemma_token_chars(height_a);
    lemma_token_chars(height_b);
    lemma_cut_at_separator(ha, qa + ext, hb, qb + ext, '-', 1);
    lemma_token_injective(height_a, height_b);
    assert(qa =~= qb) by {
        assert((qa + ext).len() == (qb + ext).len());
        assert forall|i: int| 0 <= i < qa.len() implies qa[i] == qb[i] by {
            assert((qa + ext)[i] == qa[i]);
            assert((qb + ext)[i] == qb[i]);
        }
    }
    lemma_decimal_injective(quality_a as int, quality_b as int);
}

/// The predicate "begins with `prefix`" on names.
pub open spec fn has_prefix(prefix: Seq<char>) -> spec_fn(Seq<char>) -> bool {
    |name: Seq<char>| prefix.is_prefix_of(name)
}

/// The predicate "does not begin with `prefix`" on names.
pub open spec fn lacks_prefix(prefix: Seq<char>) -> spec_fn(Seq<char>) -> bool {
    |name: Seq<char>| !prefix.is_prefix_of(name)
}

/// The entries of one asset among the names of a cache directory: those
/// that begin with the text of its identifier, in the order of the listing.
pub open spec fn entries_of(names: Seq<Seq<char>>, prefix: Seq<char>) -> Seq<Seq<char>> {
    names.filter(has_prefix(prefix))
}

/// What a cache directory holds once the entries of one asset were removed.
pub open spec fn invalidated(names: Seq<Seq<char>>, prefix: Seq<char>) -> Seq<Seq<char>> {
    names.filter(lacks_prefix(prefix))
}

/// Selects, from the listing of the cache directory, the entries of the
/// asset `id`: the files to remove when the asset changes. Nothing else is
/// selected, and nothing of the asset is left out. An empty selection is no
/// error.
pub fn remove_cache_entries(id: AssetId, names: &Vec<String>) -> (r: Vec<String>)
    ensures
        texts(r@) == entries_of(texts(names@), id.text()),
{
    let prefix: String = id.to_text();
    let mut out: Vec<String> = Vec::new();
    let mut i: usize = 0;
    proof {
        reveal(Seq::filter);
        assert(texts(names@).take(0) =~= Seq::<Seq<char>>::empty());
        assert(texts(out@) =~= Seq::<Seq<char>>::empty());
    }
    while i < names.len()
        invariant
            i <= names.len(),
            prefix@ == id.text(),
            texts(out@) == entries_of(texts(names@).take(i as int), id.text()),
        decreases names.len() - i,
    {
        let ghost before = texts(out@);
        let hit: bool = starts_with(names[i].as_str(), prefix.as_str());
        if hit {
            out.push(names[i].clone());
        }
        proof {
            let grown = texts(names@).take(i as int + 1);
            assert(grown.drop_last() =~= texts(names@).take(i as int));
            assert(grown.last() == names@[i as int]@);
            reveal(Seq::filter);
            if hit {
                assert(texts(out@) =~= before.push(names@[i as int]@));
            }
        }
        i += 1;
    }
    proof {
        assert(texts(names@).take(names.len() as int) =~= texts(names@));
    }
    out
}

/// Filtering by "lacks the prefix" leaves no name that has it, and changes
/// nothing when done again.
proof fn lemma_invalidated_fixed(names: Seq<Seq<char>>, prefix: Seq<char>)
    ensures
        invalidated(names, prefix).filter(has_prefix(prefix)) == Seq::<Seq<char>>::empty(),
        invalidated(names, prefix).filter(lacks_prefix(prefix)) == invalidated(names, prefix),
    decreases names.len(),
{
    reveal(Seq::filter);
    if names.len() == 0 {
    } else {
        lemma_invalidated_fixed(names.drop_last(), prefix);
        let rest = invalidated(names.drop_last(), prefix);
        if !prefix.is_prefix_of(names.last()) {
            let grown = rest.push(names.last());
            assert(grown.drop_last() =~= rest);
            assert(grown.last() == names.last());
        }
    }
}

/// Invalidation is idempotent. Once the entries of an asset were removed
/// from a cache directory, the asset has no entry left, and a second
/// invalidation selects nothing and leaves the directory as the first one
/// left it.
pub proof fn lemma_invalidate_idempotent(names: Seq<Seq<char>>, prefix: Seq<char>)
    ensures
        entries_of(invalidated(names, prefix), prefix) == Seq::<Seq<char>>::empty(),
        invalidated(invalidated(names, prefix), prefix) == invalidated(names, prefix),
        entries_of(invalidated(invalidated(names, prefix), prefix), prefix) == entries_of(
            invalidated(names, prefix),
            prefix,
        ),
{
    lemma_invalidated_fixed(names, prefix);
}

/// Invalidating one asset spares every other: where two prefixes of the
/// same length differ, as the texts of two identifiers do, removing the
/// entries of the one leaves the entries of the other as they were.
pub proof fn lemma_invalidate_spares_others(
    names: Seq<Seq<char>>,
    removed: Seq<char>,
    kept: Seq<char>,
)
    requires
        removed.len() == kept.len(),
        removed != kept,
    ensures
        entries_of(invalidated(names, removed), kept) == entries_of(names, kept),
    decreases names.len(),
{
    reveal(Seq::filter);
    if names.len() > 0 {
        lemma_invalidate_spares_others(names.drop_last(), removed, kept);
        let name = names.last();
        let rest = invalidated(names.drop_last(), removed);
        if kept.is_prefix_of(name) && removed.is_prefix_of(name) {
            assert(removed =~= kept);
        }
        if !removed.is_prefix_of(name) {
            let grown = rest.push(name);
            assert(grown.drop_last() =~= rest);
            assert(grown.last() == name);
        }
    }
}

/// After an invalidation no rendition of the asset is a cache hit: the
/// cache directory holds no entry under any of the names that the cache
/// gives to the asset's renditions, so the next read of each is computed
/// anew.
pub proof fn lemma_invalidated_has_no_hit(
    names: Seq<Seq<char>>,
    uuid: Seq<char>,
    width: Option<i32>,
    height: Option<i32>,
    quality: i32,
)
    ensures
        uuid.is_prefix_of(cache_file_name(uuid, width, height, quality)),
        !invalidated(names, uuid).contains(cache_file_name(uuid, width, height, quality)),
{
    let name = cache_file_name(uuid, width, height, quality);
    assert(name.subrange(0, uuid.len() as int) =~= uuid);
    let left = invalidated(names, uuid);
    if left.contains(name) {
        let at = choose|at: int| 0 <= at < left.len() && left[at] == name;
        names.lemma_filter_pred(lacks_prefix(uuid), at);
    }
}

/// Invalidating one asset spares every other asset: the entries of an
/// asset are the same before and after the entries of another were removed.
pub proof fn lemma_invalidate_spares_other_assets(
    names: Seq<Seq<char>>,
    removed: AssetId,
    kept: AssetId,
)
    requires
        removed != kept,
    ensures
        entries_of(invalidated(names, removed.text()), kept.text()) == entries_of(
            names,
            kept.text(),
        ),
{
    if removed.text() == kept.text() {
        lemma_id_text_injective(removed.bits, kept.bits);
    }
    lemma_invalidate_spares_others(names, removed.text(), kept.text());
}

/// Every rendition has a cache path of its own: two renditions with the
/// same path are renditions of the same asset, with the same width, height
/// and quality.
pub proof fn lemma_cache_path_injective(
    id_a: AssetId,
    width_a: Option<i32>,
    height_a: Option<i32>,
    quality_a: i32,
    id_b: AssetId,
    width_b: Option<i32>,
    height_b: Option<i32>,
    quality_b: i32,
)
    requires
        cache_path(id_a.text(), width_a, height_a, quality_a) == cache_path(
            id_b.text(),
            width_b,
            height_b,
            quality_b,
        ),
    ensures
        id_a == id_b,
        width_a == width_b,
        height_a == height_b,
        quality_a == quality_b,
{
    let name_a = cache_file_name(id_a.text(), width_a, height_a, quality_a);
    let name_b = cache_file_name(id_b.text(), width_b, height_b, quality_b);
    let dir = cache_dir() + "/"@;
    assert(name_a =~= (dir + name_a).subrange(dir.len() as int, (dir + name_a).len() as int));
    assert(name_b =~= (dir + name_b).subrange(dir.len() as int, (dir + name_b).len() as int));
    lemma_cache_name_injective(
        id_a.text(),
        width_a,
        height_a,
        quality_a,
        id_b.text(),
        width_b,
        height_b,
        quality_b,
    );
    lemma_id_text_injective(id_a.bits, id_b.bits);
}

} // verus!
