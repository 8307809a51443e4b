//! Fixed-width words: 256-bit values, 160-bit addresses and the
//! little-endian 32-bit split of a 128-bit value.

use vstd::prelude::*;

verus! {

/// A 256-bit unsigned value as four little-endian 64-bit limbs
/// (`w0` is the least significant limb).
#[derive(PartialEq, Eq, Structural, Clone, Copy, Debug)]
pub struct U256 {
    pub w0: u64,
    pub w1: u64,
    pub w2: u64,
    pub w3: u64,
}

impl U256 {
    /// The numeric value of the four limbs.
    pub open spec fn value(self) -> nat {
        self.w0 as nat + self.w1 as nat * 0x1_0000_0000_0000_0000 + self.w2 as nat
            * 0x1_0000_0000_0000_0000_0000_0000_0000_0000 + self.w3 as nat
            * 0x1_0000_0000_0000_0000_0000_0000_0000_0000_0000_0000_0000_0000
    }

    pub open spec fn spec_zero() -> U256 {
        U256 { w0: 0, w1: 0, w2: 0, w3: 0 }
    }

    /// The value zero.
    pub fn zero() -> (r: U256)
        ensures
            r == U256::spec_zero(),
            r.value() == 0,
    {
        U256 { w0: 0, w1: 0, w2: 0, w3: 0 }
    }
}

/// A 160-bit account address, split into its big-endian bytes `0..4`
/// (`high`) and `4..20` (`low`).
#[derive(PartialEq, Eq, Structural, Clone, Copy, Debug)]
pub struct Address {
    pub high: u32,
    pub low: u128,
}

impl Address {
    /// The numeric value of the address.
    pub open spec fn value(self) -> nat {
        self.high as nat * 0x1_0000_0000_0000_0000_0000_0000_0000_0000 + self.low as nat
    }

    pub open spec fn spec_zero() -> Address {
        Address { high: 0, low: 0 }
    }

    /// The zero address.
    pub fn zero() -> (r: Address)
        ensures
            r == Address::spec_zero(),
    {
        Address { high: 0, low: 0 }
    }
}

/// The four 32-bit little-endian limbs of a 128-bit value.
pub open spec fn spec_u128_as_u32_le(value: u128) -> Seq<u32> {
    seq![value as u32, (value >> 32u128) as u32, (value >> 64u128) as u32, (value >> 96u128) as u32]
}

/// Splits a 128-bit value into its four 32-bit limbs, least significant first.
pub fn u128_as_u32_le(value: u128) -> (r: [u32; 4])
    ensures
        r@ == spec_u128_as_u32_le(value),
{
    [value as u32, (value >> 32) as u32, (value >> 64) as u32, (value >> 96) as u32]
}

/// The limbs of `u128_as_u32_le` put back together give the original value:
/// `value == r[0] + r[1] * 2^32 + r[2] * 2^64 + r[3] * 2^96`.
pub proof fn lemma_u128_as_u32_le_recombines(value: u128)
    ensures
        value == spec_u128_as_u32_le(value)[0] as int
            + spec_u128_as_u32_le(value)[1] as int * 0x1_0000_0000
            + spec_u128_as_u32_le(value)[2] as int * 0x1_0000_0000_0000_0000
            + spec_u128_as_u32_le(value)[3] as int * 0x1_0000_0000_0000_0000_0000_0000,
{
    assert(value == (value as u32) as int + ((value >> 32u128) as u32) as int * 0x1_0000_0000
        + ((value >> 64u128) as u32) as int * 0x1_0000_0000_0000_0000
        + ((value >> 96u128) as u32) as int * 0x1_0000_0000_0000_0000_0000_0000) by (bit_vector);
}

/// The number that the eight bytes `s[start..start + 8]` denote, read big-endian.
pub open spec fn be_u64_at(s: Seq<u8>, start: int) -> nat {
    (s[start] as nat * 0x100_0000_0000_0000 + s[start + 1] as nat * 0x1_0000_0000_0000
        + s[start + 2] as nat * 0x100_0000_0000 + s[start + 3] as nat * 0x1_0000_0000
        + s[start + 4] as nat * 0x100_0000 + s[start + 5] as nat * 0x1_0000
        + s[start + 6] as nat * 0x100 + s[start + 7] as nat) as nat
}

/// The 256-bit value whose big-endian encoding is the 32 bytes `s`:
/// the most significant limb comes from the first eight bytes.
pub open spec fn spec_u256_from_be_bytes(s: Seq<u8>) -> U256 {
    U256 {
        w0: be_u64_at(s, 24) as u64,
        w1: be_u64_at(s, 16) as u64,
        w2: be_u64_at(s, 8) as u64,
        w3: be_u64_at(s, 0) as u64,
    }
}

/// Calls `U256::from_big_endian` of the `uint` crate (through `ethereum_types`).
/// For a slice of exactly 32 bytes the source reads limb `3 - i` as the
/// big-endian `u64` at bytes `8 * i .. 8 * i + 8`, which is what the contract
/// states; longer slices make it panic, so `requires` leaves them out.
#[verifier::external_body]
pub(crate) fn u256_from_big_endian(bytes: &[u8]) -> (r: U256)
    requires
        bytes@.len() == 32,
    ensures
        r == spec_u256_from_be_bytes(bytes@),
{
    let v = zk_evm::zkevm_opcode_defs::ethereum_types::U256::from_big_endian(bytes);
    U256 { w0: v.0[0], w1: v.0[1], w2: v.0[2], w3: v.0[3] }
}

/// Calls `address_is_kernel` of `zk_evm` on the address with these bytes.
/// The source tests that the first 18 of the 20 big-endian bytes are zero,
/// that is `high == 0` and `low < 2^16`, which is what the contract states.
#[verifier::external_body]
pub(crate) fn address_is_kernel(address: &Address) -> (r: bool)
    ensures
        r == (address.high == 0 && address.low < 0x1_0000),
{
    let mut bytes = [0u8; 20];
    bytes[0..4].copy_from_slice(&address.high.to_be_bytes());
    bytes[4..20].copy_from_slice(&address.low.to_be_bytes());
    let h = zk_evm::zkevm_opcode_defs::ethereum_types::H160(bytes);
    zk_evm::vm_state::helpers::address_is_kernel(&h)
}

} // verus!
