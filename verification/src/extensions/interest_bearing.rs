//! `InterestBearingConfig` extension support.

use vstd::prelude::*;
use crate::instruction::{self, AccountMetaData, InstructionData, InstructionView, TOKEN_2022_PROGRAM_ID};
use crate::keys;
use crate::extensions::MintExtensionType;

verus! {

/// The extension type this module initializes.
pub const EXTENSION_TYPE: MintExtensionType = MintExtensionType::InterestBearingConfig;

/// The interest-bearing `Initialize` instruction for `mint`: none where
/// `rate_authority` is the all-zero key.
pub open spec fn init_instruction(mint: [u8; 32], rate_authority: [u8; 32], rate: i16) -> Option<InstructionView> {
    if keys::is_zero_key(rate_authority) {
        None
    } else {
        Some(InstructionView {
            program_id: TOKEN_2022_PROGRAM_ID,
            accounts: seq![instruction::meta_writable(mint, false)],
            data: seq![33u8, 0u8] + rate_authority@ + instruction::le_u16(rate as u16),
        })
    }
}

/// Calls `interest_bearing_mint::instruction::initialize` with the Token-2022
/// program id and `Some(rate_authority)`. Its source refuses an all-zero key
/// in `Some` (`InvalidArgument`), and otherwise packs the tag bytes, the rate
/// authority and the rate (little-endian).
#[verifier::external_body]
pub(crate) fn build_init_instruction(
    mint: &[u8; 32],
    rate_authority: [u8; 32],
    rate: i16,
) -> (r: Result<InstructionData, solana_program_error::ProgramError>)
    ensures
        instruction::built(r) == init_instruction(*mint, rate_authority, rate),
{
    let ix = spl_token_2022_interface::extension::interest_bearing_mint::instruction::initialize(
        &spl_token_2022_interface::id(),
        &solana_pubkey::Pubkey::new_from_array(*mint),
        Some(solana_pubkey::Pubkey::new_from_array(rate_authority)),
        rate,
    )?;
    Ok(InstructionData {
        program_id: ix.program_id.to_bytes(),
        accounts: ix.accounts.iter().map(|m| AccountMetaData { pubkey: m.pubkey.to_bytes(), is_signer: m.is_signer, is_writable: m.is_writable }).collect(),
        data: ix.data,
    })
}

} // verus!
