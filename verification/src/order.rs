//! Orders as the book's rules read them: identifiers, owners, sides and the
//! part of a resting order that self-trade prevention looks at.
//!
//! Each type holds plain values. Their texts come from `pricelevel`, which
//! defines how identifiers, owners and sides are written.

use crate::debug::{plain, written};
use crate::text::{
    decimal, lemma_decimal_reads_back, lemma_numeral_by_place, lemma_woven_one, numeral,
    read_decimal, same_but_for_parts,
};
use vstd::arithmetic::power::pow;
use vstd::array::*;
use vstd::prelude::*;

verus! {

/// The side of an order.
#[derive(Debug, Clone, Copy, PartialEq, Eq, Structural)]
pub enum Side {
    /// Buy side (bids).
    Buy,
    /// Sell side (asks).
    Sell,
}

impl Side {
    /// The side as it is written: `BUY` or `SELL`.
    pub open spec fn text(self) -> Seq<char> {
        match self {
            Side::Buy => "BUY"@,
            Side::Sell => "SELL"@,
        }
    }

    /// Writes the side as `BUY` or `SELL`.
    pub fn to_string(&self) -> (text: String)
        ensures
            text@ == self.text(),
    {
        side_text(*self)
    }
}

/// The text of a side, by the `Display` of `pricelevel::Side`: `BUY` for the
/// buy side and `SELL` for the sell side.
#[verifier::external_body]
fn side_text(side: Side) -> (text: String)
    ensures
        text@ == side.text(),
{
    let raw = match side {
        Side::Buy => pricelevel::Side::Buy,
        Side::Sell => pricelevel::Side::Sell,
    };
    raw.to_string()
}

/// An order identifier.
#[derive(Clone, Copy, PartialEq, Eq, Hash, Structural)]
pub enum Id {
    /// A UUID, as its 128-bit value in big-endian order.
    Uuid(u128),
    /// A ULID, as its 128-bit value.
    Ulid(u128),
    /// A sequential identifier.
    Sequential(u64),
}

/// The 32 lowercase hexadecimal digits of `bits`, split by hyphens into
/// groups of 8, 4, 4, 4 and 12.
pub open spec fn uuid_text(bits: u128) -> Seq<char> {
    let digits = numeral(bits as nat, "0123456789abcdef"@, 32);
    digits.subrange(0, 8) + "-"@ + digits.subrange(8, 12) + "-"@ + digits.subrange(12, 16) + "-"@
        + digits.subrange(16, 20) + "-"@ + digits.subrange(20, 32)
}

/// The 26 Crockford base-32 digits of `bits`.
pub open spec fn ulid_text(bits: u128) -> Seq<char> {
    numeral(bits as nat, "0123456789ABCDEFGHJKMNPQRSTVWXYZ"@, 26)
}

impl Id {
    /// The identifier as it is written.
    pub open spec fn text(self) -> Seq<char> {
        match self {
            Id::Uuid(bits) => uuid_text(bits),
            Id::Ulid(bits) => ulid_text(bits),
            Id::Sequential(number) => decimal(number as nat),
        }
    }

    /// The identifier in the plain notation of `Debug`: its kind, with the
    /// value in brackets.
    pub open spec fn debug_text(self) -> Seq<char> {
        match self {
            Id::Uuid(bits) => "Uuid("@ + uuid_text(bits) + ")"@,
            Id::Ulid(bits) => "Ulid(Ulid("@ + decimal(bits as nat) + "))"@,
            Id::Sequential(number) => "Sequential("@ + decimal(number as nat) + ")"@,
        }
    }

    /// Writes the identifier: a UUID hyphenated in lowercase hexadecimal, a
    /// ULID in Crockford base 32, a sequential number in decimal.
    pub fn to_string(&self) -> (text: String)
        ensures
            text@ == self.text(),
    {
        id_text(*self)
    }
}

/// The text of an identifier, by the `Display` of `pricelevel::Id`: the
/// hyphenated lowercase form of a UUID, the 26 base-32 digits of a ULID, and
/// the decimal numeral of a sequential number.
#[verifier::external_body]
fn id_text(id: Id) -> (text: String)
    ensures
        text@ == id.text(),
{
    let raw = match id {
        Id::Uuid(bits) => pricelevel::Id::Uuid(uuid::Uuid::from_u128(bits)),
        Id::Ulid(bits) => pricelevel::Id::Ulid(bits.into()),
        Id::Sequential(number) => pricelevel::Id::Sequential(number),
    };
    raw.to_string()
}

/// The text of an identifier in the notation of `Debug`, laid out by the
/// options of the formatter that it is written to.
pub uninterp spec fn id_debug_text(id: Id, formatter: core::fmt::Formatter<'_>) -> Seq<char>;

/// Writes an identifier by the `Debug` of `pricelevel::Id`: where the
/// formatter reports no failure, it has taken a text that depends on the
/// identifier and on its own options. With no option set that text is the kind
/// of the identifier with the value in brackets, a UUID in its hyphenated form
/// and a number in decimal. How the other options lay it out is left unsaid.
#[verifier::external_body]
fn write_id(id: Id, formatter: &mut core::fmt::Formatter<'_>) -> (outcome: Result<
    (),
    core::fmt::Error,
>)
    ensures
        outcome is Ok ==> written(*final(formatter)) == written(*old(formatter)) + id_debug_text(
            id,
            *old(formatter),
        ),
        outcome is Ok && plain(*old(formatter)) ==> written(*final(formatter)) == written(
            *old(formatter),
        ) + id.debug_text(),
{
    let raw = match id {
        Id::Uuid(bits) => pricelevel::Id::Uuid(uuid::Uuid::from_u128(bits)),
        Id::Ulid(bits) => pricelevel::Id::Ulid(bits.into()),
        Id::Sequential(number) => pricelevel::Id::Sequential(number),
    };
    core::fmt::Debug::fmt(&raw, formatter)
}

impl core::fmt::Debug for Id {
    /// Writes the identifier in the notation of `Debug`.
    fn fmt(&self, formatter: &mut core::fmt::Formatter<'_>) -> (outcome: Result<
        (),
        core::fmt::Error,
    >)
        ensures
            outcome is Ok ==> written(*final(formatter)) == written(*old(formatter))
                + id_debug_text(*self, *old(formatter)),
            outcome is Ok && plain(*old(formatter)) ==> written(*final(formatter)) == written(
                *old(formatter),
            ) + self.debug_text(),
    {
        write_id(*self, formatter)
    }
}

/// A 32-byte owner identifier. The all-zero value means an anonymous owner.
#[derive(Debug, Clone, Copy, Eq, Hash)]
pub struct Hash32(pub [u8; 32]);

impl PartialEq for Hash32 {
    fn eq(&self, other: &Hash32) -> (same: bool)
        ensures
            same <==> forall|i: int| 0 <= i < 32 ==> self.0@[i] == other.0@[i],
    {
        broadcast use group_array_axioms;

        let mut i: usize = 0;
        while i < 32
            invariant
                i <= 32,
                forall|j: int| 0 <= j < i ==> self.0@[j] == other.0@[j],
            decreases 32 - i,
        {
            if self.0[i] != other.0[i] {
                return false;
            }
            i += 1;
        }
        assert(self.0 =~= other.0);
        true
    }
}

impl vstd::std_specs::cmp::PartialEqSpecImpl for Hash32 {
    open spec fn obeys_eq_spec() -> bool {
        true
    }

    open spec fn eq_spec(&self, other: &Hash32) -> bool {
        *self == *other
    }
}

impl Hash32 {
    /// Whether this is the anonymous owner: every byte is zero.
    pub open spec fn is_zero(self) -> bool {
        forall|i: int| 0 <= i < 32 ==> self.0@[i] == 0
    }

    /// The owner as it is written: two lowercase hexadecimal digits per byte.
    pub open spec fn text(self) -> Seq<char> {
        Seq::new(
            64,
            |i: int|
                {
                    let byte = self.0@[i / 2] as int;
                    "0123456789abcdef"@[if i % 2 == 0 { byte / 16 } else { byte % 16 }]
                },
        )
    }

    /// The owner with these bytes.
    pub fn new(bytes: [u8; 32]) -> (hash: Hash32)
        ensures
            hash.0 == bytes,
    {
        Hash32(bytes)
    }

    /// The anonymous owner.
    pub fn zero() -> (hash: Hash32)
        ensures
            hash.is_zero(),
            forall|i: int| 0 <= i < 32 ==> hash.0@[i] == 0,
    {
        Hash32([0u8; 32])
    }

    /// Writes the owner in lowercase hexadecimal.
    pub fn to_string(&self) -> (text: String)
        ensures
            text@ == self.text(),
    {
        hash_text(*self)
    }
}

impl From<[u8; 32]> for Hash32 {
    fn from(bytes: [u8; 32]) -> (hash: Hash32)
        ensures
            hash.0 == bytes,
    {
        Hash32(bytes)
    }
}

impl vstd::std_specs::convert::FromSpecImpl<[u8; 32]> for Hash32 {
    open spec fn obeys_from_spec() -> bool {
        true
    }

    open spec fn from_spec(bytes: [u8; 32]) -> Hash32 {
        Hash32(bytes)
    }
}

/// The text of an owner, by the `Display` of `pricelevel::Hash32`: each byte
/// in order as two lowercase hexadecimal digits, the high one first.
#[verifier::external_body]
fn hash_text(hash: Hash32) -> (text: String)
    ensures
        text@ == hash.text(),
{
    pricelevel::Hash32::new(hash.0).to_string()
}

/// There is one anonymous owner: two owners whose bytes are all zero are the
/// same.
pub proof fn lemma_zero_is_unique(left: Hash32, right: Hash32)
    requires
        left.is_zero(),
        right.is_zero(),
    ensures
        left == right,
{
    broadcast use group_array_axioms;

    assert(left.0 =~= right.0);
}

/// Owners compare equal exactly if each byte of one is the byte of the other.
pub proof fn lemma_owners_equal_by_bytes(left: Hash32, right: Hash32)
    ensures
        vstd::std_specs::cmp::PartialEqSpec::eq_spec(&left, &right) <==> forall|i: int|
            0 <= i < 32 ==> left.0@[i] == right.0@[i],
{
    broadcast use group_array_axioms;

    if forall|i: int| 0 <= i < 32 ==> left.0@[i] == right.0@[i] {
        assert(left.0 =~= right.0);
    }
}

/// An owner that is made from bytes holds these bytes.
pub proof fn lemma_owner_holds_its_bytes(bytes: [u8; 32])
    ensures
        <Hash32 as vstd::std_specs::convert::FromSpec<[u8; 32]>>::from_spec(bytes).0 == bytes,
{
}

/// The value of a lowercase hexadecimal digit, and 256 for any other
/// character.
pub open spec fn hex_value(digit: char) -> int {
    if '0' <= digit <= '9' {
        digit as int - '0' as int
    } else if 'a' <= digit <= 'f' {
        10 + (digit as int - 'a' as int)
    } else {
        256
    }
}

/// The hexadecimal digits by their values.
proof fn lemma_hex_digits()
    ensures
        "0123456789abcdef"@.len() == 16,
        forall|value: int|
            0 <= value < 16 ==> hex_value(#[trigger] "0123456789abcdef"@[value]) == value,
{
    reveal_strlit("0123456789abcdef");
}

/// An owner's text reads back as its bytes, two hexadecimal digits per byte.
pub proof fn lemma_owner_reads_back(hash: Hash32)
    ensures
        hash.text().len() == 64,
        forall|i: int|
            0 <= i < 32 ==> 16 * hex_value(hash.text()[2 * i]) + hex_value(hash.text()[2 * i + 1])
                == #[trigger] hash.0@[i],
{
    lemma_hex_digits();
    assert forall|i: int| 0 <= i < 32 implies 16 * hex_value(hash.text()[2 * i]) + hex_value(
        hash.text()[2 * i + 1],
    ) == #[trigger] hash.0@[i] by {
        let byte = hash.0@[i] as int;
        assert((2 * i) / 2 == i && (2 * i) % 2 == 0);
        assert((2 * i + 1) / 2 == i && (2 * i + 1) % 2 == 1);
        assert(hash.text()[2 * i] == "0123456789abcdef"@[byte / 16]);
        assert(hash.text()[2 * i + 1] == "0123456789abcdef"@[byte % 16]);
    }
}

/// Where digit `k` of a UUID stands in its text, past the hyphens.
pub open spec fn uuid_place(k: int) -> int {
    if k < 8 {
        k
    } else if k < 12 {
        k + 1
    } else if k < 16 {
        k + 2
    } else if k < 20 {
        k + 3
    } else {
        k + 4
    }
}

/// A UUID is written in 36 characters: hyphens at four fixed places, and
/// between them, in order, the hexadecimal digits of its value.
pub proof fn lemma_uuid_by_place(bits: u128)
    ensures
        Id::Uuid(bits).text().len() == 36,
        Id::Uuid(bits).text()[8] == '-',
        Id::Uuid(bits).text()[13] == '-',
        Id::Uuid(bits).text()[18] == '-',
        Id::Uuid(bits).text()[23] == '-',
        forall|k: int|
            0 <= k < 32 ==> hex_value(Id::Uuid(bits).text()[#[trigger] uuid_place(k)]) == bits as int
                / pow(16, (31 - k) as nat) % 16,
{
    reveal_strlit("-");
    lemma_hex_digits();
    lemma_numeral_by_place(bits as nat, "0123456789abcdef"@, 32);
    let digits = numeral(bits as nat, "0123456789abcdef"@, 32);
    assert forall|k: int| 0 <= k < 32 implies hex_value(
        Id::Uuid(bits).text()[#[trigger] uuid_place(k)],
    ) == bits as int / pow(16, (31 - k) as nat) % 16 by {
        assert(Id::Uuid(bits).text()[uuid_place(k)] == digits[k]);
    }
}

/// A ULID is written in 26 characters: the Crockford base-32 digits of its
/// value, in order.
pub proof fn lemma_ulid_by_place(bits: u128)
    ensures
        Id::Ulid(bits).text().len() == 26,
        forall|i: int|
            0 <= i < 26 ==> #[trigger] Id::Ulid(bits).text()[i]
                == "0123456789ABCDEFGHJKMNPQRSTVWXYZ"@[bits as int / pow(32, (25 - i) as nat) % 32],
{
    reveal_strlit("0123456789ABCDEFGHJKMNPQRSTVWXYZ");
    lemma_numeral_by_place(bits as nat, "0123456789ABCDEFGHJKMNPQRSTVWXYZ"@, 26);
}

/// The text of a sequential identifier reads back as its number, without
/// leading zeros.
pub proof fn lemma_sequential_reads_back(number: u64)
    ensures
        read_decimal(Id::Sequential(number).text()) == number,
        forall|i: int|
            0 <= i < Id::Sequential(number).text().len() ==> '0' <= #[trigger] Id::Sequential(
                number,
            ).text()[i] <= '9',
        Id::Sequential(number).text()[0] == '0' ==> Id::Sequential(number).text().len() == 1,
{
    lemma_decimal_reads_back(number as nat);
}

/// In the notation of `Debug`, two identifiers of one kind are written alike
/// but for their value: a UUID as its text, the others in decimal.
pub proof fn lemma_debug_differs_in_value(left: u128, right: u128, first: u64, second: u64)
    ensures
        same_but_for_parts(
            Id::Uuid(left).debug_text(),
            seq![Id::Uuid(left).text()],
            Id::Uuid(right).debug_text(),
            seq![Id::Uuid(right).text()],
        ),
        same_but_for_parts(
            Id::Ulid(left).debug_text(),
            seq![decimal(left as nat)],
            Id::Ulid(right).debug_text(),
            seq![decimal(right as nat)],
        ),
        same_but_for_parts(
            Id::Sequential(first).debug_text(),
            seq![Id::Sequential(first).text()],
            Id::Sequential(second).debug_text(),
            seq![Id::Sequential(second).text()],
        ),
{
    lemma_woven_one("Uuid("@, uuid_text(left), ")"@);
    lemma_woven_one("Uuid("@, uuid_text(right), ")"@);
    lemma_woven_one("Ulid(Ulid("@, decimal(left as nat), "))"@);
    lemma_woven_one("Ulid(Ulid("@, decimal(right as nat), "))"@);
    lemma_woven_one("Sequential("@, decimal(first as nat), ")"@);
    lemma_woven_one("Sequential("@, decimal(second as nat), ")"@);
}

/// What self-trade prevention reads of a resting order.
#[derive(Debug, Clone, Copy)]
pub struct RestingOrder {
    /// The order's identifier.
    pub id: Id,
    /// The order's owner.
    pub user_id: Hash32,
    /// The quantity the order shows: all of a single-tranche order, the
    /// visible tranche of an iceberg or reserve order.
    pub visible_quantity: u64,
}

} // verus!
