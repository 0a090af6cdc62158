//! `MetadataPointer` extension support.

use vstd::prelude::*;
use crate::instruction::{self, AccountMetaData, InstructionData, InstructionView, TOKEN_2022_PROGRAM_ID};
use crate::keys;
use crate::extensions::MintExtensionType;

verus! {

/// The extension type this module initializes.
pub const EXTENSION_TYPE: MintExtensionType = MintExtensionType::MetadataPointer;

/// The metadata-pointer `Initialize` instruction for `mint`, with no authority:
/// none where `metadata_address` is the all-zero key.
pub open spec fn init_instruction(mint: [u8; 32], metadata_address: [u8; 32]) -> Option<InstructionView> {
    if keys::is_zero_key(metadata_address) {
        None
    } else {
        Some(InstructionView {
            program_id: TOKEN_2022_PROGRAM_ID,
            accounts: seq![instruction::meta_writable(mint, false)],
            data: seq![39u8, 0u8] + Seq::new(32, |i: int| 0u8) + metadata_address@,
        })
    }
}

/// Calls `metadata_pointer::instruction::initialize` with the Token-2022
/// program id, no authority and `Some(metadata_address)`. Its source refuses
/// an all-zero key in `Some` (`InvalidArgument`), and otherwise packs the tag
/// bytes, the absent authority as zeros and the address.
#[verifier::external_body]
pub(crate) fn build_init_instruction(
    mint: &[u8; 32],
    metadata_address: [u8; 32],
) -> (r: Result<InstructionData, solana_program_error::ProgramError>)
    ensures
        instruction::built(r) == init_instruction(*mint, metadata_address),
{
    let ix = spl_token_2022_interface::extension::metadata_pointer::instruction::initialize(
        &spl_token_2022_interface::id(),
        &solana_pubkey::Pubkey::new_from_array(*mint),
        None,
        Some(solana_pubkey::Pubkey::new_from_array(metadata_address)),
    )?;
    Ok(InstructionData {
        program_id: ix.program_id.to_bytes(),
        accounts: ix.accounts.iter().map(|m| AccountMetaData { pubkey: m.pubkey.to_bytes(), is_signer: m.is_signer, is_writable: m.is_writable }).collect(),
        data: ix.data,
    })
}

} // verus!
