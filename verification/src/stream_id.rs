//! Stream identifiers.

use vstd::arithmetic::div_mod::lemma_fundamental_div_mod_converse;
use vstd::prelude::*;

use crate::config::RammuxRole;

verus! {

/// 24-bit ID of a stream.
///
/// Each active stream has an ID that uniquely identifies it among all active
/// streams. Freed IDs are reused.
#[derive(Clone, Copy, Debug, Hash, PartialEq, Eq, PartialOrd, Ord, Structural)]
pub struct StreamId {
    raw: u32,
}

/// Maximal value of a 24-bit unsigned integer.
pub const MAX_STREAM_ID: u32 = 0x00FF_FFFF;

/// Big endian reading of three bytes.
pub open spec fn be24(b: Seq<u8>) -> int {
    b[0] * 0x1_0000 + b[1] * 0x100 + b[2]
}

/// Big endian reading of four bytes.
pub open spec fn be32(b: Seq<u8>) -> int {
    b[0] * 0x100_0000 + b[1] * 0x1_0000 + b[2] * 0x100 + b[3]
}

/// The three bytes of a 24-bit number in big endian order.
pub open spec fn be24_bytes(n: int) -> Seq<u8> {
    seq![(n / 0x1_0000) as u8, (n / 0x100 % 0x100) as u8, (n % 0x100) as u8]
}

/// The four bytes of a 32-bit number in big endian order.
pub open spec fn be32_bytes(n: int) -> Seq<u8> {
    seq![
        (n / 0x100_0000) as u8,
        (n / 0x1_0000 % 0x100) as u8,
        (n / 0x100 % 0x100) as u8,
        (n % 0x100) as u8,
    ]
}

/// Writes `value` in big endian order.
pub fn u32_to_be_bytes(value: u32) -> (r: [u8; 4])
    ensures
        r@ == be32_bytes(value as int),
        be32(r@) == value,
{
    [
        (value / 0x100_0000) as u8,
        (value / 0x1_0000 % 0x100) as u8,
        (value / 0x100 % 0x100) as u8,
        (value % 0x100) as u8,
    ]
}

/// Reads a `u32` written in big endian order.
pub fn u32_from_be_bytes(b: [u8; 4]) -> (r: u32)
    ensures
        r == be32(b@),
{
    b[0] as u32 * 0x100_0000 + b[1] as u32 * 0x1_0000 + b[2] as u32 * 0x100 + b[3] as u32
}

impl StreamId {
    /// The numeric value of the ID.
    pub closed spec fn view(&self) -> u32 {
        self.raw
    }

    /// Every ID fits in 24 bits.
    pub open spec fn valid(self) -> bool {
        self@ <= MAX_STREAM_ID
    }

    #[verifier::type_invariant]
    spec fn inv(self) -> bool {
        self.raw <= MAX_STREAM_ID
    }

    /// Returns the role that initiated the stream.
    pub fn initiated_by(self) -> (r: RammuxRole)
        ensures
            r == initiator_of(self@),
    {
        if self.raw % 2 == 0 {
            RammuxRole::Client
        } else {
            RammuxRole::Server
        }
    }

    /// Reads an ID from the given big endian representation.
    pub fn from_be_bytes(bytes: [u8; 3]) -> (r: Self)
        ensures
            r == id_of(be24(bytes@) as u32),
            r@ == be24(bytes@),
            r.valid(),
    {
        StreamId {
            raw: bytes[0] as u32 * 0x1_0000 + bytes[1] as u32 * 0x100 + bytes[2] as u32,
        }
    }

    /// Returns a big endian representation of this ID.
    pub fn to_be_bytes(self) -> (r: [u8; 3])
        ensures
            r@ == be24_bytes(self@ as int),
            be24(r@) == self@,
            self.valid(),
    {
        proof {
            use_type_invariant(self);
        }
        [
            (self.raw / 0x1_0000) as u8,
            (self.raw / 0x100 % 0x100) as u8,
            (self.raw % 0x100) as u8,
        ]
    }

    /// Returns a [`slab`] index for this ID.
    pub fn slab_idx(self) -> (r: usize)
        ensures
            r == self@ / 2,
    {
        crate::safe_cast_usize(self.raw / 2)
    }

    /// Returns an ID for the index of its allocated [`slab`] slot and the role
    /// that initiated the stream, if the ID fits in 24 bits.
    pub fn from_slab_idx(idx: usize, role: RammuxRole) -> (r: Option<Self>)
        ensures
            r is Some <==> slot_value(idx as int, role) <= MAX_STREAM_ID,
            r matches Some(id) ==> id@ == slot_value(idx as int, role) && id.valid(),
    {
        let parity: usize = if role == RammuxRole::Server {
            1
        } else {
            0
        };
        match idx.checked_mul(2) {
            Some(doubled) => match doubled.checked_add(parity) {
                Some(id) if id <= MAX_STREAM_ID as usize => Some(StreamId { raw: id as u32 }),
                _ => None,
            },
            None => None,
        }
    }

    /// Turns a uniformly drawn 32-bit number into a uniformly drawn ID.
    pub fn from_random(num: u32) -> (r: Self)
        ensures
            r@ == num / 0x100,
            r.valid(),
    {
        StreamId { raw: num / 0x100 }
    }

    /// The numeric value of the ID.
    pub fn value(self) -> (r: u32)
        ensures
            r == self@,
            self.valid(),
    {
        proof {
            use_type_invariant(self);
        }
        self.raw
    }
}

impl From<StreamId> for u32 {
    fn from(value: StreamId) -> (r: u32) {
        value.raw
    }
}

impl vstd::std_specs::convert::FromSpecImpl<StreamId> for u32 {
    open spec fn obeys_from_spec() -> bool {
        true
    }

    open spec fn from_spec(value: StreamId) -> u32 {
        value@
    }
}

/// The ID value that belongs to slot `idx` of the given role.
pub open spec fn slot_value(idx: int, role: RammuxRole) -> int {
    2 * idx + if role == RammuxRole::Server {
        1int
    } else {
        0int
    }
}

/// The ID with the given numeric value.
pub closed spec fn id_of(raw: u32) -> StreamId {
    StreamId { raw }
}

/// Even IDs belong to the client, odd ones to the server.
pub open spec fn initiator_of(raw: u32) -> RammuxRole {
    if raw % 2 == 0 {
        RammuxRole::Client
    } else {
        RammuxRole::Server
    }
}

/// An ID is its numeric value: two IDs with one value are the same ID.
pub proof fn id_is_its_value(a: StreamId, b: StreamId)
    requires
        a@ == b@,
    ensures
        a == b,
{
}

/// An ID is the one with its numeric value.
pub broadcast proof fn id_has_its_value(raw: u32)
    ensures
        #[trigger] id_of(raw)@ == raw,
{
}

/// The digits of a number written with four digits to base 256.
proof fn base_256_digits(a: int, b: int, c: int, d: int)
    requires
        0 <= a < 256,
        0 <= b < 256,
        0 <= c < 256,
        0 <= d < 256,
    ensures
        ({
            let n = a * 0x100_0000 + b * 0x1_0000 + c * 0x100 + d;
            n / 0x100_0000 == a && n / 0x1_0000 % 0x100 == b && n / 0x100 % 0x100 == c && n % 0x100
                == d
        }),
{
    let x1 = a * 0x100 + b;
    let x2 = x1 * 0x100 + c;
    let n = x2 * 0x100 + d;
    lemma_fundamental_div_mod_converse(n, 0x100, x2, d);
    lemma_fundamental_div_mod_converse(x2, 0x100, x1, c);
    lemma_fundamental_div_mod_converse(x1, 0x100, a, b);
    lemma_fundamental_div_mod_converse(n, 0x1_0000, x1, c * 0x100 + d);
    lemma_fundamental_div_mod_converse(n, 0x100_0000, a, b * 0x1_0000 + c * 0x100 + d);
}

/// Three bytes are the big endian form of the number that they read as, so an
/// ID can be read back from the bytes it is written to.
pub proof fn be24_round_trip(b: Seq<u8>)
    requires
        b.len() == 3,
    ensures
        0 <= be24(b) <= MAX_STREAM_ID,
        be24_bytes(be24(b)) == b,
{
    base_256_digits(0, b[0] as int, b[1] as int, b[2] as int);
    assert(be24_bytes(be24(b)) =~= b);
}

/// Four bytes are the big endian form of the number that they read as.
pub proof fn be32_round_trip(b: Seq<u8>)
    requires
        b.len() == 4,
    ensures
        0 <= be32(b) <= u32::MAX,
        be32_bytes(be32(b)) == b,
{
    base_256_digits(b[0] as int, b[1] as int, b[2] as int, b[3] as int);
    assert(be32_bytes(be32(b)) =~= b);
}

/// A slot and a role determine an ID, and the ID gives both back.
pub proof fn slot_and_role_round_trip(idx: int, role: RammuxRole, id: StreamId)
    requires
        0 <= idx,
        id@ == slot_value(idx, role),
    ensures
        id@ / 2 == idx,
        initiator_of(id@) == role,
{
}

/// The two roles never allocate the same ID.
pub proof fn roles_have_disjoint_ids(a: int, b: int)
    ensures
        slot_value(a, RammuxRole::Client) != slot_value(b, RammuxRole::Server),
{
}

} // verus!
