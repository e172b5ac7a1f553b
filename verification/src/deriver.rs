use crate::address::Address;
use crate::error::GalnoError;
use anchor_lang::prelude::Pubkey;
use vstd::prelude::*;

verus! {

/// What a label derives to under a program identity: the address and its bump,
/// or nothing where no bump yields an address off the curve. It stands for the
/// result of `Pubkey::try_find_program_address` on the single seed `label`.
pub uninterp spec fn program_address(label: Seq<u8>, program: Seq<u8>) -> Option<(Seq<u8>, u8)>;

/// The label of the config record: the bytes of `config`.
pub open spec fn config_label_spec() -> Seq<u8> {
    seq![99u8, 111u8, 110u8, 102u8, 105u8, 103u8]
}

/// The label of the vault: the bytes of `vault`.
pub open spec fn vault_label_spec() -> Seq<u8> {
    seq![118u8, 97u8, 117u8, 108u8, 116u8]
}

/// A derivation as plain values.
pub open spec fn derivation_view(d: Option<(Address, u8)>) -> Option<(Seq<u8>, u8)> {
    match d {
        Some((address, bump)) => Some((address@, bump)),
        None => None,
    }
}

/// Calls `Pubkey::try_find_program_address` with `label` as the only seed and
/// `program` as the program id. The contract claims only that the outcome is
/// the function of these two byte strings that `program_address` names.
#[verifier::external_body]
fn try_find_program_address(label: &[u8], program: &Address) -> (r: Option<(Address, u8)>)
    ensures
        derivation_view(r) == program_address(label@, program@),
{
    let id = Pubkey::new_from_array(program.bytes);
    match Pubkey::try_find_program_address(&[label], &id) {
        Some((key, bump)) => Some((Address { bytes: key.to_bytes() }, bump)),
        None => None,
    }
}

pub fn config_label() -> (label: Vec<u8>)
    ensures
        label@ == config_label_spec(),
{
    let label = vec![99u8, 111u8, 110u8, 102u8, 105u8, 103u8];
    proof {
        assert(label@ =~= config_label_spec());
    }
    label
}

pub fn vault_label() -> (label: Vec<u8>)
    ensures
        label@ == vault_label_spec(),
{
    let label = vec![118u8, 97u8, 117u8, 108u8, 116u8];
    proof {
        assert(label@ =~= vault_label_spec());
    }
    label
}

/// The address deriver: the address and bump that `label` derives to under
/// `program`, or `InvalidDerivation` where the label derives to nothing.
pub fn derive_address(label: &[u8], program: &Address) -> (r: Result<(Address, u8), GalnoError>)
    ensures
        match program_address(label@, program@) {
            Some(d) => r is Ok && derivation_view(Some(r->Ok_0)) == Some(d),
            None => r == Err::<(Address, u8), GalnoError>(GalnoError::InvalidDerivation),
        },
{
    match try_find_program_address(label, program) {
        Some(d) => Ok(d),
        None => Err(GalnoError::InvalidDerivation),
    }
}

} // verus!
