//! `TransferFeeConfig` extension support.

use vstd::prelude::*;
use crate::instruction::{self, AccountMetaData, InstructionData, InstructionView, TOKEN_2022_PROGRAM_ID};

use crate::extensions::MintExtensionType;

verus! {

/// The extension type this module initializes.
pub const EXTENSION_TYPE: MintExtensionType = MintExtensionType::TransferFeeConfig;

/// The `InitializeTransferFeeConfig` instruction for `mint`, with no
/// configuration or withdraw authority.
pub open spec fn init_instruction(mint: [u8; 32], fee_basis_points: u16, maximum_fee: u64) -> Option<InstructionView> {
    Some(InstructionView {
        program_id: TOKEN_2022_PROGRAM_ID,
        accounts: seq![instruction::meta_writable(mint, false)],
        data: seq![26u8, 0u8, 0u8, 0u8] + instruction::le_u16(fee_basis_points) + instruction::le_u64(maximum_fee),
    })
}

/// Calls `transfer_fee::instruction::initialize_transfer_fee_config` with the
/// Token-2022 program id and no authorities. Its source checks only the
/// program id, then packs the tag bytes, two absent keys, the basis points and
/// the maximum fee (little-endian), as stated in [`init_instruction`].
#[verifier::external_body]
pub(crate) fn build_init_instruction(
    mint: &[u8; 32],
    fee_basis_points: u16,
    maximum_fee: u64,
) -> (r: Result<InstructionData, solana_program_error::ProgramError>)
    ensures
        instruction::built(r) == init_instruction(*mint, fee_basis_points, maximum_fee),
{
    let ix = spl_token_2022_interface::extension::transfer_fee::instruction::initialize_transfer_fee_config(
        &spl_token_2022_interface::id(),
        &solana_pubkey::Pubkey::new_from_array(*mint),
        None,
        None,
        fee_basis_points,
        maximum_fee,
    )?;
    Ok(InstructionData {
        program_id: ix.program_id.to_bytes(),
        accounts: ix.accounts.iter().map(|m| AccountMetaData { pubkey: m.pubkey.to_bytes(), is_signer: m.is_signer, is_writable: m.is_writable }).collect(),
        data: ix.data,
    })
}

} // verus!
