//! `MemoTransfer` extension support.

use vstd::prelude::*;
use crate::instruction::{self, AccountMetaData, InstructionData, InstructionView, TOKEN_2022_PROGRAM_ID};
use crate::extensions::AccountExtensionType;

verus! {

/// The extension type this module initializes.
pub const EXTENSION_TYPE: AccountExtensionType = AccountExtensionType::MemoTransfer;

/// The `Enable` instruction of required transfer memos for `account`, signed
/// by its single owner `owner`.
pub open spec fn enable_instruction(account: [u8; 32], owner: [u8; 32]) -> Option<InstructionView> {
    Some(InstructionView {
        program_id: TOKEN_2022_PROGRAM_ID,
        accounts: seq![instruction::meta_writable(account, false), instruction::meta_readonly(owner, true)],
        data: seq![30u8, 0u8],
    })
}

/// Calls `memo_transfer::instruction::enable_required_transfer_memos` with
/// the Token-2022 program id and no multisig signers. Its source checks only
/// the program id; with no multisig signers the owner is the one signer.
#[verifier::external_body]
pub(crate) fn build_enable_instruction(
    account: &[u8; 32],
    owner: &[u8; 32],
) -> (r: Result<InstructionData, solana_program_error::ProgramError>)
    ensures
        instruction::built(r) == enable_instruction(*account, *owner),
{
    let ix = spl_token_2022_interface::extension::memo_transfer::instruction::enable_required_transfer_memos(
        &spl_token_2022_interface::id(),
        &solana_pubkey::Pubkey::new_from_array(*account),
        &solana_pubkey::Pubkey::new_from_array(*owner),
        &[],
    )?;
    Ok(InstructionData {
        program_id: ix.program_id.to_bytes(),
        accounts: ix.accounts.iter().map(|m| AccountMetaData { pubkey: m.pubkey.to_bytes(), is_signer: m.is_signer, is_writable: m.is_writable }).collect(),
        data: ix.data,
    })
}

} // verus!
