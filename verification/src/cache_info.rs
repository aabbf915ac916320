//! Reading the cache directory back: what an entry's name says, and the
//! statistics of a listing.

use crate::cache::cache_file_name;
use crate::id::{parsed_id, AssetId};
use crate::text::{
    decimal, find_last, is_decimal_digit, last_index, lemma_digits_value, lemma_last_index_is,
    lemma_last_index_none, lemma_parse_undoes_decimal, parse_i32, parsed_i32, split_at_single,
    split_single,
};
use std::collections::HashMap;
use vstd::prelude::*;
use vstd::std_specs::hash::*;
use vstd::string::*;

verus! {

/// What the name of a cache entry says: the asset and the numbers of the
/// request.
#[derive(Clone, Copy, Debug, PartialEq, Eq, Structural)]
pub struct CacheEntry {
    pub id: AssetId,
    pub width: i32,
    pub height: i32,
    pub quality: i32,
}

/// Why a file name is not that of a cache entry with numeric dimensions.
#[derive(Clone, Copy, Debug, PartialEq, Eq, Structural)]
pub enum CacheNameError {
    /// The name does not hold exactly one dot.
    NoExtension,
    /// The part before the dot holds fewer than two hyphens.
    Unrecognized,
    /// What stands before the last two hyphens is no identifier.
    InvalidId,
    /// The dimensions do not hold exactly one `x`.
    InvalidDimensions,
    /// The width is no number.
    InvalidWidth,
    /// The height is no number.
    InvalidHeight,
    /// The quality is no number.
    InvalidQuality,
}

/// One file of the cache directory, as the caller read it.
#[derive(Clone, Debug)]
pub struct CacheFile {
    pub name: String,
    /// The file's size in bytes.
    pub size: u64,
}

/// The numbers of a cache entry that the statistics count.
#[derive(Clone, Copy, Debug, PartialEq, Eq, Structural)]
pub enum Field {
    Width,
    Height,
    Quality,
}

/// Statistics of the cache directory. Only files whose names are those of
/// entries with numeric dimensions are counted.
#[derive(Clone, Debug)]
pub struct CacheInformation {
    /// How many entries there are.
    pub entries: u64,
    /// The sum of their sizes in bytes; `u64::MAX` where the sum is larger.
    pub total_size: u64,
    /// For each height, how many entries have it.
    pub height_count: HashMap<i32, u64>,
    /// For each width, how many entries have it.
    pub width_count: HashMap<i32, u64>,
    /// For each quality, how many entries have it.
    pub quality_count: HashMap<i32, u64>,
}

/// The three parts of an entry's name, `<id>-<dimensions>-<quality>.<ext>`:
/// the name must hold exactly one dot, and the part before it is cut at its
/// last two hyphens, so the identifier may hold hyphens of its own.
pub open spec fn name_parts(name: Seq<char>) -> Result<
    (Seq<char>, Seq<char>, Seq<char>),
    CacheNameError,
> {
    match split_single(name, '.') {
        None => Err(CacheNameError::NoExtension),
        Some((stem, _)) => {
            let second = last_index(stem, '-');
            if second < 0 {
                Err(CacheNameError::Unrecognized)
            } else {
                let first = last_index(stem.subrange(0, second), '-');
                if first < 0 {
                    Err(CacheNameError::Unrecognized)
                } else {
                    Ok(
                        (
                            stem.subrange(0, first),
                            stem.subrange(first + 1, second),
                            stem.subrange(second + 1, stem.len() as int),
                        ),
                    )
                }
            }
        },
    }
}

/// The entry that the parts of a name spell, given what the identifier
/// parser made of the first part. The dimensions are `<width>x<height>`.
pub open spec fn entry_of_parts(
    id: Option<u128>,
    dimensions: Seq<char>,
    quality: Seq<char>,
) -> Result<CacheEntry, CacheNameError> {
    match id {
        None => Err(CacheNameError::InvalidId),
        Some(bits) => match split_single(dimensions, 'x') {
            None => Err(CacheNameError::InvalidDimensions),
            Some((w, h)) => match parsed_i32(w) {
                None => Err(CacheNameError::InvalidWidth),
                Some(width) => match parsed_i32(h) {
                    None => Err(CacheNameError::InvalidHeight),
                    Some(height) => match parsed_i32(quality) {
                        None => Err(CacheNameError::InvalidQuality),
                        Some(quality) => Ok(
                            CacheEntry { id: AssetId { bits }, width, height, quality },
                        ),
                    },
                },
            },
        },
    }
}

/// What a file name says as the name of a cache entry.
pub open spec fn parsed_name(name: Seq<char>) -> Result<CacheEntry, CacheNameError> {
    match name_parts(name) {
        Err(e) => Err(e),
        Ok((id, dimensions, quality)) => entry_of_parts(parsed_id(id), dimensions, quality),
    }
}

/// Cuts the name of a cache entry into identifier, dimensions and quality.
pub fn split_cache_name(name: &str) -> (r: Result<(&str, &str, &str), CacheNameError>)
    ensures
        match name_parts(name@) {
            Ok((id, dimensions, quality)) => r is Ok && r->Ok_0.0@ == id && r->Ok_0.1@
                == dimensions && r->Ok_0.2@ == quality,
            Err(e) => r is Err && r->Err_0 == e,
        },
{
    let stem: &str = match split_at_single(name, '.') {
        None => {
            return Err(CacheNameError::NoExtension);
        },
        Some(pair) => pair.0,
    };
    let second: usize = match find_last(stem, '-') {
        None => {
            return Err(CacheNameError::Unrecognized);
        },
        Some(at) => at,
    };
    let head: &str = stem.substring_char(0, second);
    let first: usize = match find_last(head, '-') {
        None => {
            return Err(CacheNameError::Unrecognized);
        },
        Some(at) => at,
    };
    let end: usize = stem.unicode_len();
    let id: &str = stem.substring_char(0, first);
    let dimensions: &str = stem.substring_char(first + 1, second);
    let quality: &str = stem.substring_char(second + 1, end);
    Ok((id, dimensions, quality))
}

impl CacheEntry {
    /// Builds an entry from the parts of its name, the identifier as the
    /// identifier parser read it.
    pub fn from_parts(id: Option<AssetId>, dimensions: &str, quality: &str) -> (r: Result<
        CacheEntry,
        CacheNameError,
    >)
        ensures
            r == entry_of_parts(
                match id {
                    Some(id) => Some(id.bits),
                    None => None,
                },
                dimensions@,
                quality@,
            ),
    {
        let id: AssetId = match id {
            None => {
                return Err(CacheNameError::InvalidId);
            },
            Some(id) => id,
        };
        let (w, h): (&str, &str) = match split_at_single(dimensions, 'x') {
            None => {
                return Err(CacheNameError::InvalidDimensions);
            },
            Some(pair) => pair,
        };
        let width: i32 = match parse_i32(w) {
            None => {
                return Err(CacheNameError::InvalidWidth);
            },
            Some(n) => n,
        };
        let height: i32 = match parse_i32(h) {
            None => {
                return Err(CacheNameError::InvalidHeight);
            },
            Some(n) => n,
        };
        let quality: i32 = match parse_i32(quality) {
            None => {
                return Err(CacheNameError::InvalidQuality);
            },
            Some(n) => n,
        };
        Ok(CacheEntry { id, width, height, quality })
    }

    /// Reads a cache entry from its file name.
    pub fn try_from(value: &str) -> (r: Result<CacheEntry, CacheNameError>)
        ensures
            r == parsed_name(value@),
    {
        match split_cache_name(value) {
            Err(e) => Err(e),
            Ok(parts) => CacheEntry::from_parts(AssetId::parse(parts.0), parts.1, parts.2),
        }
    }

    /// The number of this entry that `field` names.
    pub open spec fn field(self, field: Field) -> i32 {
        match field {
            Field::Width => self.width,
            Field::Height => self.height,
            Field::Quality => self.quality,
        }
    }
}

impl CacheNameError {
    /// A sentence that says what is wrong with the name.
    pub fn message(&self) -> (r: &'static str)
        ensures
            r@ == match *self {
                CacheNameError::NoExtension => "No file extension found"@,
                CacheNameError::Unrecognized => "Unrecognized cache file name"@,
                CacheNameError::InvalidId => "Invalid UUID"@,
                CacheNameError::InvalidDimensions => "Invalid dimensions"@,
                CacheNameError::InvalidWidth => "Invalid width"@,
                CacheNameError::InvalidHeight => "Invalid height"@,
                CacheNameError::InvalidQuality => "Invalid quality"@,
            },
    {
        match self {
            CacheNameError::NoExtension => "No file extension found",
            CacheNameError::Unrecognized => "Unrecognized cache file name",
            CacheNameError::InvalidId => "Invalid UUID",
            CacheNameError::InvalidDimensions => "Invalid dimensions",
            CacheNameError::InvalidWidth => "Invalid width",
            CacheNameError::InvalidHeight => "Invalid height",
            CacheNameError::InvalidQuality => "Invalid quality",
        }
    }
}

/// How many files of a listing are recognised as cache entries.
pub open spec fn entry_count(files: Seq<CacheFile>) -> nat
    decreases files.len(),
{
    if files.len() == 0 {
        0
    } else {
        entry_count(files.drop_last()) + (if parsed_name(files.last().name@) is Ok {
            1nat
        } else {
            0nat
        })
    }
}

/// The sum of the sizes of the recognised entries of a listing.
pub open spec fn size_sum(files: Seq<CacheFile>) -> nat
    decreases files.len(),
{
    if files.len() == 0 {
        0
    } else {
        size_sum(files.drop_last()) + (if parsed_name(files.last().name@) is Ok {
            files.last().size as nat
        } else {
            0nat
        })
    }
}

/// How many recognised entries of a listing have the value `v` in `field`.
pub open spec fn occurrences(files: Seq<CacheFile>, field: Field, v: i32) -> nat
    decreases files.len(),
{
    if files.len() == 0 {
        0
    } else {
        occurrences(files.drop_last(), field, v) + (match parsed_name(files.last().name@) {
            Ok(entry) => if entry.field(field) == v {
                1nat
            } else {
                0nat
            },
            Err(_) => 0nat,
        })
    }
}

/// No value occurs more often than the listing is long.
pub proof fn lemma_occurrences_bound(files: Seq<CacheFile>, field: Field, v: i32)
    ensures
        occurrences(files, field, v) <= files.len(),
        entry_count(files) <= files.len(),
    decreases files.len(),
{
    if files.len() > 0 {
        lemma_occurrences_bound(files.drop_last(), field, v);
    }
}

/// Whether a table of counts is the histogram of `field` over a listing: it
/// has a key for exactly the values that occur, each with the number of its
/// occurrences.
pub open spec fn is_histogram(counts: Map<i32, u64>, files: Seq<CacheFile>, field: Field) -> bool {
    forall|v: i32|
        #![trigger counts.contains_key(v)]
        #![trigger occurrences(files, field, v)]
        {
            &&& counts.contains_key(v) <==> occurrences(files, field, v) > 0
            &&& counts.contains_key(v) ==> counts[v] == occurrences(files, field, v)
        }
}

/// The sum of two sizes, `u64::MAX` where it does not fit.
pub open spec fn capped(total: nat) -> u64 {
    if total > u64::MAX {
        u64::MAX
    } else {
        total as u64
    }
}

fn bump(counts: &mut HashMap<i32, u64>, key: i32)
    requires
        old(counts)@.contains_key(key) ==> old(counts)@[key] < u64::MAX,
    ensures
        final(counts)@ == old(counts)@.insert(
            key,
            if old(counts)@.contains_key(key) {
                (old(counts)@[key] + 1) as u64
            } else {
                1u64
            },
        ),
{
    broadcast use group_hash_axioms;

    let current: u64 = match counts.get(&key) {
        Some(n) => *n,
        None => 0,
    };
    counts.insert(key, current + 1);
}

/// Gathers the statistics of a listing of the cache directory. A file
/// whose name is not recognised is left out of every number.
pub fn cache_status(files: &Vec<CacheFile>) -> (r: CacheInformation)
    ensures
        r.entries == entry_count(files@),
        r.total_size == capped(size_sum(files@)),
        is_histogram(r.height_count@, files@, Field::Height),
        is_histogram(r.width_count@, files@, Field::Width),
        is_histogram(r.quality_count@, files@, Field::Quality),
{
    let mut entries: u64 = 0;
    let mut total_size: u64 = 0;
    let mut height_count: HashMap<i32, u64> = HashMap::new();
    let mut width_count: HashMap<i32, u64> = HashMap::new();
    let mut quality_count: HashMap<i32, u64> = HashMap::new();
    let mut i: usize = 0;
    proof {
        assert(files@.take(0) =~= Seq::<CacheFile>::empty());
    }
    while i < files.len()
        invariant
            i <= files.len(),
            entries == entry_count(files@.take(i as int)),
            total_size == capped(size_sum(files@.take(i as int))),
            is_histogram(height_count@, files@.take(i as int), Field::Height),
            is_histogram(width_count@, files@.take(i as int), Field::Width),
            is_histogram(quality_count@, files@.take(i as int), Field::Quality),
        decreases files.len() - i,
    {
        let ghost seen = files@.take(i as int);
        let ghost grown = files@.take(i as int + 1);
        let ghost heights = height_count@;
        let ghost widths = width_count@;
        let ghost qualities = quality_count@;
        proof {
            assert(grown.drop_last() =~= seen);
            assert(grown.last() == files@[i as int]);
            lemma_occurrences_bound(seen, Field::Height, 0);
        }
        match CacheEntry::try_from(files[i].name.as_str()) {
            Ok(entry) => {
                proof {
                    lemma_occurrences_bound(seen, Field::Height, entry.height);
                    lemma_occurrences_bound(seen, Field::Width, entry.width);
                    lemma_occurrences_bound(seen, Field::Quality, entry.quality);
                }
                entries += 1;
                let size: u64 = files[i].size;
                total_size = if size > u64::MAX - total_size {
                    u64::MAX
                } else {
                    total_size + size
                };
                bump(&mut height_count, entry.height);
                bump(&mut width_count, entry.width);
                bump(&mut quality_count, entry.quality);
            },
            Err(_) => {},
        }
        i += 1;
    }
    proof {
        assert(files@.take(files.len() as int) =~= files@);
    }
    CacheInformation { entries, total_size, height_count, width_count, quality_count }
}

/// The parser of entry names reads back what the cache writes. The name of
/// the entry for a rendition with a width, a height and a quality, none of
/// them negative, is cut into the text of the identifier and those three
/// numbers again: it is read as that entry where the identifier parser
/// reads the text of the identifier back, and as the entry of the
/// identifier it reads otherwise.
pub proof fn lemma_name_is_read_back(id: AssetId, width: i32, height: i32, quality: i32)
    requires
        width >= 0,
        height >= 0,
        quality >= 0,
    ensures
        parsed_name(cache_file_name(id.text(), Some(width), Some(height), quality)) == (
        match parsed_id(id.text()) {
            Some(bits) => Ok::<CacheEntry, CacheNameError>(
                (CacheEntry { id: AssetId { bits }, width, height, quality }),
            ),
            None => Err::<CacheEntry, CacheNameError>(CacheNameError::InvalidId),
        }),
{
    reveal_strlit("-");
    reveal_strlit("x");
    reveal_strlit(".webp");
    let u = id.text();
    let w = decimal(width as int);
    let h = decimal(height as int);
    let q = decimal(quality as int);
    lemma_digits_value(width as nat);
    lemma_digits_value(height as nat);
    lemma_digits_value(quality as nat);
    lemma_parse_undoes_decimal(width);
    lemma_parse_undoes_decimal(height);
    lemma_parse_undoes_decimal(quality);
    let name = cache_file_name(u, Some(width), Some(height), quality);
    let dims = w + seq!['x'] + h;
    let head = u + seq!['-'] + dims;
    let stem = head + seq!['-'] + q;
    assert(name =~= stem + ".webp"@);
    assert(forall|k: int| 0 <= k < u.len() ==> u[k] != '.');
    assert(forall|k: int| 0 <= k < w.len() ==> is_decimal_digit(w[k]));
    assert(forall|k: int| 0 <= k < h.len() ==> is_decimal_digit(h[k]));
    assert(forall|k: int| 0 <= k < q.len() ==> is_decimal_digit(q[k]));
    // the only dot is the one of the extension
    assert forall|k: int| 0 <= k < stem.len() implies stem[k] != '.' by {
        if k < u.len() {
            assert(stem[k] == u[k]);
        } else if k == u.len() {
        } else if k < u.len() + 1 + w.len() {
            assert(stem[k] == w[k - u.len() - 1]);
        } else if k == u.len() + 1 + w.len() {
        } else if k < head.len() {
            assert(stem[k] == h[k - u.len() - 2 - w.len()]);
        } else if k == head.len() {
        } else {
            assert(stem[k] == q[k - head.len() - 1]);
        }
    }
    lemma_last_index_is(name, '.', stem.len() as int);
    assert(name.subrange(0, stem.len() as int) =~= stem);
    lemma_last_index_none(stem, '.');
    // the last hyphen stands before the quality
    assert forall|k: int| head.len() < k < stem.len() implies stem[k] != '-' by {
        assert(stem[k] == q[k - head.len() - 1]);
    }
    lemma_last_index_is(stem, '-', head.len() as int);
    assert(stem.subrange(0, head.len() as int) =~= head);
    // the one before it stands after the identifier
    assert forall|k: int| u.len() < k < head.len() implies head[k] != '-' by {
        if k < u.len() + 1 + w.len() {
            assert(head[k] == w[k - u.len() - 1]);
        } else if k == u.len() + 1 + w.len() {
        } else {
            assert(head[k] == h[k - u.len() - 2 - w.len()]);
        }
    }
    lemma_last_index_is(head, '-', u.len() as int);
    assert(stem.subrange(0, u.len() as int) =~= u);
    assert(stem.subrange(u.len() as int + 1, head.len() as int) =~= dims);
    assert(stem.subrange(head.len() as int + 1, stem.len() as int) =~= q);
    assert(name_parts(name) == Ok::<(Seq<char>, Seq<char>, Seq<char>), CacheNameError>(
        (u, dims, q),
    ));
    // the dimensions hold one x
    assert forall|k: int| w.len() < k < dims.len() implies dims[k] != 'x' by {
        assert(dims[k] == h[k - w.len() - 1]);
    }
    lemma_last_index_is(dims, 'x', w.len() as int);
    assert(dims.subrange(0, w.len() as int) =~= w);
    assert(dims.subrange(w.len() as int + 1, dims.len() as int) =~= h);
    lemma_last_index_none(w, 'x');
}

} // verus!
