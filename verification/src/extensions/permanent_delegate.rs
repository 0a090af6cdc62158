//! `PermanentDelegate` extension support.

use vstd::prelude::*;
use crate::instruction::{self, AccountMetaData, InstructionData, InstructionView, TOKEN_2022_PROGRAM_ID};
use crate::extensions::MintExtensionType;

verus! {

/// The extension type this module initializes.
pub const EXTENSION_TYPE: MintExtensionType = MintExtensionType::PermanentDelegate;

/// The `InitializePermanentDelegate` instruction for `mint`.
pub open spec fn init_instruction(mint: [u8; 32], delegate: [u8; 32]) -> Option<InstructionView> {
    Some(InstructionView {
        program_id: TOKEN_2022_PROGRAM_ID,
        accounts: seq![instruction::meta_writable(mint, false)],
        data: seq![35u8] + delegate@,
    })
}

/// Calls `instruction::initialize_permanent_delegate` with the Token-2022
/// program id. Its source checks only the program id, then packs the tag byte
/// and the delegate.
#[verifier::external_body]
pub(crate) fn build_init_instruction(
    mint: &[u8; 32],
    delegate: [u8; 32],
) -> (r: Result<InstructionData, solana_program_error::ProgramError>)
    ensures
        instruction::built(r) == init_instruction(*mint, delegate),
{
    let ix = spl_token_2022_interface::instruction::initialize_permanent_delegate(
        &spl_token_2022_interface::id(),
        &solana_pubkey::Pubkey::new_from_array(*mint),
        &solana_pubkey::Pubkey::new_from_array(delegate),
    )?;
    Ok(InstructionData {
        program_id: ix.program_id.to_bytes(),
        accounts: ix.accounts.iter().map(|m| AccountMetaData { pubkey: m.pubkey.to_bytes(), is_signer: m.is_signer, is_writable: m.is_writable }).collect(),
        data: ix.data,
    })
}

} // verus!
