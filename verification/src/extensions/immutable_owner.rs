//! `ImmutableOwner` extension support.

use vstd::prelude::*;
use crate::instruction::{self, AccountMetaData, InstructionData, InstructionView, TOKEN_2022_PROGRAM_ID};
use crate::extensions::AccountExtensionType;

verus! {

/// The extension type this module initializes.
pub const EXTENSION_TYPE: AccountExtensionType = AccountExtensionType::ImmutableOwner;

/// The `InitializeImmutableOwner` instruction for the token account `account`.
pub open spec fn init_instruction(account: [u8; 32]) -> Option<InstructionView> {
    Some(InstructionView {
        program_id: TOKEN_2022_PROGRAM_ID,
        accounts: seq![instruction::meta_writable(account, false)],
        data: seq![22u8],
    })
}

/// Calls `instruction::initialize_immutable_owner` with the Token-2022
/// program id. Its source checks only the program id, then packs the tag byte.
#[verifier::external_body]
pub(crate) fn build_init_instruction(
    account: &[u8; 32],
) -> (r: Result<InstructionData, solana_program_error::ProgramError>)
    ensures
        instruction::built(r) == init_instruction(*account),
{
    let ix = spl_token_2022_interface::instruction::initialize_immutable_owner(
        &spl_token_2022_interface::id(),
        &solana_pubkey::Pubkey::new_from_array(*account),
    )?;
    Ok(InstructionData {
        program_id: ix.program_id.to_bytes(),
        accounts: ix.accounts.iter().map(|m| AccountMetaData { pubkey: m.pubkey.to_bytes(), is_signer: m.is_signer, is_writable: m.is_writable }).collect(),
        data: ix.data,
    })
}

} // verus!
