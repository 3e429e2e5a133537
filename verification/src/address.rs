//! Account addresses, and the well-known ones the pool deals with.

use vstd::prelude::*;
use vstd::std_specs::cmp::PartialEqSpecImpl;

verus! {

/// A 32-byte account address. Two addresses are equal when their bytes are.
#[derive(Clone, Copy, Debug)]
pub struct Address {
    pub bytes: [u8; 32],
}

impl View for Address {
    type V = Seq<u8>;

    open spec fn view(&self) -> Seq<u8> {
        self.bytes@
    }
}

impl PartialEq for Address {
    fn eq(&self, other: &Self) -> (same: bool) {
        let mut i: usize = 0;
        while i < 32
            invariant
                i <= 32,
                forall|j: int| 0 <= j < i ==> self.bytes@[j] == other.bytes@[j],
            decreases 32 - i,
        {
            if self.bytes[i] != other.bytes[i] {
                return false;
            }
            i += 1;
        }
        proof {
            assert(self.bytes@ =~= other.bytes@);
        }
        true
    }
}

impl PartialEqSpecImpl for Address {
    open spec fn obeys_eq_spec() -> bool {
        true
    }

    open spec fn eq_spec(&self, other: &Self) -> bool {
        self@ == other@
    }
}

impl Eq for Address {

}

impl Default for Address {
    /// The all-zero address, which stands for "none".
    fn default() -> (zero: Address)
        ensures
            zero@ == zero_address(),
    {
        let zero = Address { bytes: [0u8; 32] };
        proof {
            assert(zero@ =~= zero_address());
        }
        zero
    }
}

impl Address {
    /// The address with these bytes.
    pub fn new_from_array(bytes: [u8; 32]) -> (address: Address)
        ensures
            address@ == bytes@,
    {
        Address { bytes }
    }

    /// The bytes of the address.
    pub fn to_bytes(&self) -> (bytes: [u8; 32])
        ensures
            bytes@ == self@,
    {
        self.bytes
    }

    /// The bytes of the address, as a seed of a derivation.
    pub fn to_vec(&self) -> (bytes: Vec<u8>)
        ensures
            bytes@ == self@,
    {
        let mut out: Vec<u8> = Vec::new();
        let mut i: usize = 0;
        while i < 32
            invariant
                i <= 32,
                out@ == self@.take(i as int),
            decreases 32 - i,
        {
            out.push(self.bytes[i]);
            i += 1;
            proof {
                assert(out@ =~= self@.take(i as int));
            }
        }
        proof {
            assert(self@.take(32) =~= self@);
        }
        out
    }
}

/// Thirty-two zero bytes.
pub open spec fn zero_address() -> Seq<u8> {
    Seq::new(32, |i: int| 0u8)
}

/// The bytes of the address this program is deployed at.
pub open spec fn program_id() -> Seq<u8> {
    seq![
        15u8, 30u8, 107u8, 20u8, 33u8, 192u8, 74u8, 7u8, 4u8, 49u8, 38u8, 92u8, 25u8, 197u8, 187u8,
        238u8, 25u8, 146u8, 186u8, 232u8, 175u8, 209u8, 205u8, 7u8, 142u8, 248u8, 175u8, 112u8,
        71u8, 220u8, 17u8, 247u8,
    ]
}

/// The bytes of the token ledger's address.
pub open spec fn token_program_id() -> Seq<u8> {
    seq![
        6u8, 221u8, 246u8, 225u8, 215u8, 101u8, 161u8, 147u8, 217u8, 203u8, 225u8, 70u8, 206u8,
        235u8, 121u8, 172u8, 28u8, 180u8, 133u8, 237u8, 95u8, 91u8, 55u8, 145u8, 58u8, 140u8,
        245u8, 133u8, 126u8, 255u8, 0u8, 169u8,
    ]
}

/// The bytes of the address under which token vaults are derived.
pub open spec fn associated_token_program_id() -> Seq<u8> {
    seq![
        140u8, 151u8, 37u8, 143u8, 78u8, 36u8, 137u8, 241u8, 187u8, 61u8, 16u8, 41u8, 20u8, 142u8,
        13u8, 131u8, 11u8, 90u8, 19u8, 153u8, 218u8, 255u8, 16u8, 132u8, 4u8, 142u8, 123u8, 216u8,
        219u8, 233u8, 248u8, 89u8,
    ]
}

/// The bytes of the account-creation service's address: all zero.
pub open spec fn system_program_id() -> Seq<u8> {
    zero_address()
}

/// The address this program is deployed at.
pub fn id() -> (address: Address)
    ensures
        address@ == program_id(),
{
    let address = Address {
        bytes: [
            15u8, 30u8, 107u8, 20u8, 33u8, 192u8, 74u8, 7u8, 4u8, 49u8, 38u8, 92u8, 25u8, 197u8,
            187u8, 238u8, 25u8, 146u8, 186u8, 232u8, 175u8, 209u8, 205u8, 7u8, 142u8, 248u8, 175u8,
            112u8, 71u8, 220u8, 17u8, 247u8,
        ],
    };
    proof {
        assert(address@ =~= program_id());
    }
    address
}

/// Whether `address` is the one this program is deployed at.
pub fn check_id(address: &Address) -> (same: bool)
    ensures
        same == (address@ == program_id()),
{
    let own = id();
    *address == own
}

/// The bytes of `pinocchio_token::ID`, read with `Address::to_bytes`. The
/// crate declares the constant from the base58 text
/// `TokenkegQfeZyiNwAJbNbGKPFXCWuBvf9Ss623VQ5DA`; the contract gives the 32
/// bytes that this text decodes to.
#[verifier::external_body]
pub(crate) fn token_program() -> (address: Address)
    ensures
        address@ == token_program_id(),
{
    Address { bytes: pinocchio_token::ID.to_bytes() }
}

/// The bytes of `pinocchio_system::ID`, read with `Address::to_bytes`. The
/// crate declares the constant from the base58 text of thirty-two `1`s; the
/// contract gives the 32 bytes that this text decodes to, all of them zero.
#[verifier::external_body]
pub(crate) fn system_program() -> (address: Address)
    ensures
        address@ == system_program_id(),
{
    Address { bytes: pinocchio_system::ID.to_bytes() }
}

/// The bytes of `pinocchio_associated_token_account::ID`, read with
/// `Address::to_bytes`. The crate declares the constant from the base58 text
/// `ATokenGPvbdGVxr1b2hvZbsiqW5xWH25efTNsLJA8knL`; the contract gives the 32
/// bytes that this text decodes to.
#[verifier::external_body]
pub(crate) fn associated_token_program() -> (address: Address)
    ensures
        address@ == associated_token_program_id(),
{
    Address { bytes: pinocchio_associated_token_account::ID.to_bytes() }
}

} // verus!
