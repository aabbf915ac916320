//! Asset identifiers: opaque 128-bit values with a canonical textual form.

use crate::text::digit_char;
use vstd::arithmetic::div_mod::lemma_div_denominator;
use vstd::arithmetic::power::{lemma_pow_positive, pow};
use vstd::prelude::*;

verus! {

/// The identifier of one asset. The value zero is the nil identifier, which
/// never names an asset.
#[derive(Clone, Copy, Debug, PartialEq, Eq, Structural, Hash)]
pub struct AssetId {
    pub bits: u128,
}

/// The character of one lower-case hexadecimal digit.
pub open spec fn hex_char(v: int) -> char {
    if v < 10 {
        digit_char(v)
    } else if v == 10 {
        'a'
    } else if v == 11 {
        'b'
    } else if v == 12 {
        'c'
    } else if v == 13 {
        'd'
    } else if v == 14 {
        'e'
    } else {
        'f'
    }
}

/// The places of the four hyphens in the textual form.
pub open spec fn is_hyphen_position(i: int) -> bool {
    i == 8 || i == 13 || i == 18 || i == 23
}

/// Which hexadecimal digit of the value stands at place `i` of the textual
/// form, counted from the most significant one.
pub open spec fn digit_index(i: int) -> int {
    if i < 8 {
        i
    } else if i < 13 {
        i - 1
    } else if i < 18 {
        i - 2
    } else if i < 23 {
        i - 3
    } else {
        i - 4
    }
}

/// The `k`-th hexadecimal digit of `bits`, the most significant being the
/// one at 0 and the least significant the one at 31.
pub open spec fn nibble(bits: u128, k: int) -> int {
    (bits as int / pow(16, (31 - k) as nat)) % 16
}

/// The canonical textual form of an identifier: 32 lower-case hexadecimal
/// digits, most significant first, in groups of 8, 4, 4, 4 and 12 that are
/// separated by hyphens.
pub open spec fn id_text(bits: u128) -> Seq<char> {
    Seq::new(
        36,
        |i: int|
            if is_hyphen_position(i) {
                '-'
            } else {
                hex_char(nibble(bits, digit_index(i)))
            },
    )
}

/// What `uuid::Uuid::parse_str` makes of a text: the value of the identifier
/// it reads, or `None` where it rejects the text.
pub uninterp spec fn parsed_id(text: Seq<char>) -> Option<u128>;

/// Calls `Display` of `uuid::Uuid` on the identifier with the given value.
/// Trusted: the result is the hyphenated lower-case form that `id_text`
/// spells out.
#[verifier::external_body]
fn uuid_text(bits: u128) -> (r: String)
    ensures
        r@ == id_text(bits),
{
    uuid::Uuid::from_u128(bits).to_string()
}

/// Calls `uuid::Uuid::parse_str`. Trusted: the outcome depends on the text
/// alone and is named `parsed_id`; nothing more is claimed of it.
#[verifier::external_body]
fn uuid_parse(text: &str) -> (r: Option<u128>)
    ensures
        r == parsed_id(text@),
{
    match uuid::Uuid::parse_str(text) {
        Ok(id) => Some(id.as_u128()),
        Err(_) => None,
    }
}

/// Calls `uuid::Uuid::new_v4`. Trusted: a version 4 identifier has its
/// version bits set, so its value is never zero. Nothing else is claimed of
/// a random value.
#[verifier::external_body]
fn uuid_random() -> (r: u128)
    ensures
        r != 0,
{
    uuid::Uuid::new_v4().as_u128()
}

/// The place in the textual form of the `k`-th hexadecimal digit.
pub open spec fn digit_position(k: int) -> int {
    if k < 8 {
        k
    } else if k < 12 {
        k + 1
    } else if k < 16 {
        k + 2
    } else if k < 20 {
        k + 3
    } else {
        k + 4
    }
}

/// Two numbers below `16^n` with the same `n` hexadecimal digits are equal.
proof fn lemma_hex_digits_determine(a: int, b: int, n: nat)
    requires
        0 <= a < pow(16, n),
        0 <= b < pow(16, n),
        forall|j: nat| j < n ==> (a / pow(16, j)) % 16 == (b / pow(16, j)) % 16,
    ensures
        a == b,
    decreases n,
{
    reveal(pow);
    if n > 0 {
        let m = (n - 1) as nat;
        assert(pow(16, n) == 16 * pow(16, m));
        assert forall|j: nat| j < m implies ((a / 16) / pow(16, j)) % 16 == ((b / 16) / pow(
            16,
            j,
        )) % 16 by {
            lemma_pow_positive(16, j);
            lemma_div_denominator(a, 16, pow(16, j));
            lemma_div_denominator(b, 16, pow(16, j));
            assert(pow(16, j + 1) == 16 * pow(16, j));
            assert((a / pow(16, j + 1)) % 16 == (b / pow(16, j + 1)) % 16);
        }
        lemma_hex_digits_determine(a / 16, b / 16, m);
        assert(pow(16, 0) == 1);
        assert((a / pow(16, 0)) % 16 == (b / pow(16, 0)) % 16);
    }
}

/// Different identifiers are written differently.
pub proof fn lemma_id_text_injective(a: u128, b: u128)
    requires
        id_text(a) == id_text(b),
    ensures
        a == b,
{
    assert(pow(16, 32) == 0x1_0000_0000_0000_0000_0000_0000_0000_0000) by {
        reveal_with_fuel(pow, 33);
    }
    assert forall|j: nat| j < 32 implies (a as int / pow(16, j)) % 16 == (b as int / pow(16, j))
        % 16 by {
        let k = 31 - j;
        let at = digit_position(k);
        assert(!is_hyphen_position(at) && digit_index(at) == k);
        assert(id_text(a)[at] == hex_char(nibble(a, k)));
        assert(id_text(b)[at] == hex_char(nibble(b, k)));
        lemma_pow_positive(16, j);
    }
    lemma_hex_digits_determine(a as int, b as int, 32);
}

impl AssetId {
    /// The identifier with the given value.
    pub fn new(bits: u128) -> (r: AssetId)
        ensures
            r.bits == bits,
    {
        AssetId { bits }
    }

    /// The reserved nil identifier.
    pub fn nil() -> (r: AssetId)
        ensures
            r.bits == 0,
            r.spec_is_nil(),
    {
        AssetId { bits: 0 }
    }

    /// A fresh random identifier for a new upload. It is never nil.
    pub fn generate() -> (r: AssetId)
        ensures
            !r.spec_is_nil(),
    {
        AssetId { bits: uuid_random() }
    }

    pub open spec fn spec_is_nil(&self) -> bool {
        self.bits == 0
    }

    /// Tells whether this is the nil identifier.
    #[verifier::when_used_as_spec(spec_is_nil)]
    pub fn is_nil(&self) -> (r: bool)
        ensures
            r == self.spec_is_nil(),
    {
        self.bits == 0
    }

    /// The canonical text of this identifier.
    pub open spec fn text(&self) -> Seq<char> {
        id_text(self.bits)
    }

    /// Renders the identifier in its canonical textual form.
    pub fn to_text(&self) -> (r: String)
        ensures
            r@ == self.text(),
            r@.len() == 36,
    {
        uuid_text(self.bits)
    }

    /// Reads an identifier from text, in any of the forms that the
    /// identifier parser accepts.
    pub fn parse(text: &str) -> (r: Option<AssetId>)
        ensures
            r == Self::parse_outcome(parsed_id(text@)),
    {
        Self::from_parsed(uuid_parse(text))
    }

    /// What `parse` returns for each outcome of the identifier parser.
    pub open spec fn parse_outcome(parsed: Option<u128>) -> Option<AssetId> {
        match parsed {
            Some(bits) => Some(AssetId { bits }),
            None => None,
        }
    }

    /// Wraps the outcome of the identifier parser.
    pub fn from_parsed(parsed: Option<u128>) -> (r: Option<AssetId>)
        ensures
            r == Self::parse_outcome(parsed),
    {
        match parsed {
            Some(bits) => Some(AssetId { bits }),
            None => None,
        }
    }
}

} // verus!
