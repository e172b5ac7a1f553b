use crate::address::Address;
use anchor_lang::prelude::Pubkey;
use anchor_lang::solana_program::system_instruction;
use vstd::prelude::*;

verus! {

/// One account that an instruction names, and how it is used.
#[derive(Clone, Copy, Debug, PartialEq, Eq)]
pub struct AccountRef {
    pub address: Address,
    pub is_signer: bool,
    pub is_writable: bool,
}

/// An instruction for the execution host, as plain values.
#[derive(Clone, Debug, PartialEq, Eq)]
pub struct HostInstruction {
    pub program: Address,
    pub accounts: Vec<AccountRef>,
    pub data: Vec<u8>,
}

/// The bytes by which the system program is told to transfer `lamports`:
/// the number 2, which selects the transfer, as four little-endian bytes,
/// then the amount as eight little-endian bytes.
pub open spec fn transfer_data(lamports: u64) -> Seq<u8> {
    seq![
        2u8,
        0u8,
        0u8,
        0u8,
        (lamports % 0x100) as u8,
        (lamports / 0x100 % 0x100) as u8,
        (lamports / 0x1_0000 % 0x100) as u8,
        (lamports / 0x100_0000 % 0x100) as u8,
        (lamports / 0x1_0000_0000 % 0x100) as u8,
        (lamports / 0x100_0000_0000 % 0x100) as u8,
        (lamports / 0x1_0000_0000_0000 % 0x100) as u8,
        (lamports / 0x100_0000_0000_0000 % 0x100) as u8,
    ]
}

/// The address of the system program: thirty-two zero bytes.
pub open spec fn system_program_spec() -> Seq<u8> {
    Seq::new(32, |i: int| 0u8)
}

/// `ix` asks the system program to move `lamports` from `from`, which signs,
/// to `to`, which does not; both are writable.
pub open spec fn is_transfer(ix: HostInstruction, from: Seq<u8>, to: Seq<u8>, lamports: u64) -> bool {
    &&& ix.program@ == system_program_spec()
    &&& ix.accounts@.len() == 2
    &&& ix.accounts@[0].address@ == from
    &&& ix.accounts@[0].is_signer
    &&& ix.accounts@[0].is_writable
    &&& ix.accounts@[1].address@ == to
    &&& !ix.accounts@[1].is_signer
    &&& ix.accounts@[1].is_writable
    &&& ix.data@ == transfer_data(lamports)
}

/// Calls `system_instruction::transfer`. The contract claims what its source
/// shows: the instruction goes to the system program and names the payer as
/// a writable signer and the payee as writable; the data are the transfer's
/// index among the system instructions and the amount, both as fixed-width
/// little-endian integers.
#[verifier::external_body]
pub(crate) fn system_transfer(from: &Address, to: &Address, lamports: u64) -> (ix: HostInstruction)
    ensures
        ix.program@ == system_program_spec(),
        ix.accounts@.len() == 2,
        ix.accounts@[0].address@ == from@ && ix.accounts@[0].is_signer && ix.accounts@[0].is_writable,
        ix.accounts@[1].address@ == to@ && !ix.accounts@[1].is_signer && ix.accounts@[1].is_writable,
        ix.data@ == transfer_data(lamports),
{
    let from_key = Pubkey::new_from_array(from.bytes);
    let to_key = Pubkey::new_from_array(to.bytes);
    let ix = system_instruction::transfer(&from_key, &to_key, lamports);
    HostInstruction {
        program: Address { bytes: ix.program_id.to_bytes() },
        accounts: ix.accounts.iter().map(|m| AccountRef {
            address: Address { bytes: m.pubkey.to_bytes() },
            is_signer: m.is_signer,
            is_writable: m.is_writable,
        }).collect(),
        data: ix.data,
    }
}

} // verus!
