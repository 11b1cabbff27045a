//! Strongly typed Bluetooth device addresses and service UUIDs.
//!
//! The harness keys all adapter bookkeeping on the 48-bit device address,
//! held here as a single integer so that equality and map membership are
//! plain integer facts.  Conversion to and from the six-octet wire form is
//! exact and proved to round-trip.

use vstd::prelude::*;

verus! {

/// A 48-bit Bluetooth device address, held as an integer.
///
/// The six-octet wire form is big-endian: the first octet is the most
/// significant byte of `bits`.
#[derive(Clone, Copy, Debug, PartialEq, Eq, Structural, Hash)]
pub struct Address {
    pub bits: u64,
}

/// The integer value encoded by six big-endian octets.
pub open spec fn octets_value(b: Seq<u8>) -> int
    recommends
        b.len() == 6,
{
    b[0] * 0x100_0000_0000 + b[1] * 0x1_0000_0000 + b[2] * 0x100_0000 + b[3] * 0x1_0000
        + b[4] * 0x100 + b[5]
}

impl Address {
    /// Every device address fits in 48 bits.
    pub open spec fn wf(self) -> bool {
        self.bits < 0x1_0000_0000_0000
    }

    /// Packs six big-endian octets into an address.
    pub fn from_octets(octets: &[u8; 6]) -> (r: Address)
        ensures
            r.wf(),
            r.bits == octets_value(octets@),
    {
        let bits: u64 = (octets[0] as u64) * 0x100_0000_0000 + (octets[1] as u64) * 0x1_0000_0000
            + (octets[2] as u64) * 0x100_0000 + (octets[3] as u64) * 0x1_0000
            + (octets[4] as u64) * 0x100 + (octets[5] as u64);
        Address { bits }
    }

    /// Unpacks the address into its six big-endian octets.
    pub fn octets(&self) -> (r: [u8; 6])
        requires
            self.wf(),
        ensures
            octets_value(r@) == self.bits,
    {
        let b = self.bits;
        proof {
            assert((b >> 40) & 0xff < 256 && (b >> 32) & 0xff < 256 && (b >> 24) & 0xff < 256 && (b
                >> 16) & 0xff < 256 && (b >> 8) & 0xff < 256 && b & 0xff < 256) by (bit_vector);
            assert(b < 0x1_0000_0000_0000 ==> ((b >> 40) & 0xff) * 0x100_0000_0000 + ((b >> 32)
                & 0xff) * 0x1_0000_0000 + ((b >> 24) & 0xff) * 0x100_0000 + ((b >> 16) & 0xff)
                * 0x1_0000 + ((b >> 8) & 0xff) * 0x100 + (b & 0xff) == b) by (bit_vector);
        }
        let r: [u8; 6] = [
            ((b >> 40) & 0xff) as u8,
            ((b >> 32) & 0xff) as u8,
            ((b >> 24) & 0xff) as u8,
            ((b >> 16) & 0xff) as u8,
            ((b >> 8) & 0xff) as u8,
            (b & 0xff) as u8,
        ];
        r
    }
}

/// A 48-bit value determines its six octets: packing an address and
/// unpacking it again gives the very octets back.
pub proof fn lemma_octets_value_injective(b: Seq<u8>)
    requires
        b.len() == 6,
    ensures
        forall|c: Seq<u8>|
            c.len() == 6 && octets_value(c) == octets_value(b) ==> c =~= b,
{
    assert forall|c: Seq<u8>| c.len() == 6 && octets_value(c) == octets_value(b) implies c =~= b
        by {
        let b0 = b[0] as u64;
        let b1 = b[1] as u64;
        let b2 = b[2] as u64;
        let b3 = b[3] as u64;
        let b4 = b[4] as u64;
        let b5 = b[5] as u64;
        let c0 = c[0] as u64;
        let c1 = c[1] as u64;
        let c2 = c[2] as u64;
        let c3 = c[3] as u64;
        let c4 = c[4] as u64;
        let c5 = c[5] as u64;
        assert(b0 < 0x100 && b1 < 0x100 && b2 < 0x100 && b3 < 0x100 && b4 < 0x100 && b5 < 0x100
            && c0 < 0x100 && c1 < 0x100 && c2 < 0x100 && c3 < 0x100 && c4 < 0x100 && c5 < 0x100
            && b0 * 0x100_0000_0000 + b1 * 0x1_0000_0000 + b2 * 0x100_0000 + b3 * 0x1_0000 + b4
            * 0x100 + b5 == c0 * 0x100_0000_0000 + c1 * 0x1_0000_0000 + c2 * 0x100_0000 + c3
            * 0x1_0000 + c4 * 0x100 + c5 ==> b0 == c0 && b1 == c1 && b2 == c2 && b3 == c3 && b4
            == c4 && b5 == c5) by (bit_vector);
        assert(c[0] == b[0] && c[1] == b[1] && c[2] == b[2] && c[3] == b[3] && c[4] == b[4] && c[5]
            == b[5]);
    }
}

/// The 128-bit form of the Bluetooth base UUID,
/// `00000000-0000-1000-8000-00805f9b34fb`.
pub const BASE_UUID_BITS: u128 = 0x0000_1000_8000_00805f9b34fb;

/// A 128-bit service UUID, held as an integer.
#[derive(Clone, Copy, Debug, PartialEq, Eq, Structural, Hash)]
pub struct Uuid {
    pub bits: u128,
}

impl Uuid {
    /// Embeds a 16-bit assigned number into the Bluetooth base UUID, as the
    /// short form `0000xxxx-0000-1000-8000-00805f9b34fb`.
    pub fn from_u16(v: u16) -> (r: Uuid)
        ensures
            r.bits == BASE_UUID_BITS + (v as u128) * 0x1_0000_0000_0000_0000_0000_0000,
    {
        Uuid { bits: BASE_UUID_BITS + (v as u128) * 0x1_0000_0000_0000_0000_0000_0000 }
    }
}

} // verus!
