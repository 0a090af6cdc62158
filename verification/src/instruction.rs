//! Instructions as plain values: a program id, the account metas and the
//! instruction data. Builders of the Solana crates are called behind trusted
//! wrappers that hand their result back in this form.

use vstd::prelude::*;

verus! {

/// The Token-2022 program id, `TokenzQdBNbLqP5VEhdkAS6EPFLC1PHnBqCXEpPxuEb`.
pub const TOKEN_2022_PROGRAM_ID: [u8; 32] = [
    6, 221, 246, 225, 238, 117, 143, 222, 24, 66, 93, 188, 228, 108, 205, 218,
    182, 26, 252, 77, 131, 185, 13, 39, 254, 189, 249, 40, 216, 161, 139, 252,
];

/// The system program id, `11111111111111111111111111111111`.
pub const SYSTEM_PROGRAM_ID: [u8; 32] = [
    0, 0, 0, 0, 0, 0, 0, 0, 0, 0, 0, 0, 0, 0, 0, 0,
    0, 0, 0, 0, 0, 0, 0, 0, 0, 0, 0, 0, 0, 0, 0, 0,
];

/// One account of an instruction, with the signer and writable flags.
#[derive(Clone, Copy, Debug)]
pub struct AccountMetaData {
    pub pubkey: [u8; 32],
    pub is_signer: bool,
    pub is_writable: bool,
}

/// An instruction: the program that runs it, its accounts and its data.
#[derive(Debug)]
pub struct InstructionData {
    pub program_id: [u8; 32],
    pub accounts: Vec<AccountMetaData>,
    pub data: Vec<u8>,
}

/// The mathematical form of an [`InstructionData`].
pub struct InstructionView {
    pub program_id: [u8; 32],
    pub accounts: Seq<AccountMetaData>,
    pub data: Seq<u8>,
}

impl View for InstructionData {
    type V = InstructionView;

    open spec fn view(&self) -> InstructionView {
        InstructionView { program_id: self.program_id, accounts: self.accounts@, data: self.data@ }
    }
}

/// The views of a sequence of instructions.
pub open spec fn instructions_view(ixs: Seq<InstructionData>) -> Seq<InstructionView> {
    ixs.map_values(|ix: InstructionData| ix@)
}

/// `AccountMeta::new(key, is_signer)`: a writable account.
pub open spec fn meta_writable(key: [u8; 32], is_signer: bool) -> AccountMetaData {
    AccountMetaData { pubkey: key, is_signer, is_writable: true }
}

/// `AccountMeta::new_readonly(key, is_signer)`: a read-only account.
pub open spec fn meta_readonly(key: [u8; 32], is_signer: bool) -> AccountMetaData {
    AccountMetaData { pubkey: key, is_signer, is_writable: false }
}

/// The little-endian bytes of a `u16`.
pub open spec fn le_u16(x: u16) -> Seq<u8> {
    seq![(x % 256) as u8, (x / 256) as u8]
}

/// The little-endian bytes of a `u64`.
pub open spec fn le_u64(x: u64) -> Seq<u8> {
    Seq::new(8, |i: int| ((x as int / vstd::arithmetic::power::pow(256, i as nat)) % 256) as u8)
}

/// A key packed as an optional address: a tag byte, then the key if present.
pub open spec fn packed_key_option(k: Option<[u8; 32]>) -> Seq<u8> {
    match k {
        Some(key) => seq![1u8] + key@,
        None => seq![0u8],
    }
}

/// The keys that must sign a transaction built from `ixs` with `payer` as fee
/// payer: the payer, and every account marked as a signer.
pub open spec fn required_signers(ixs: Seq<InstructionView>, payer: [u8; 32]) -> Set<[u8; 32]> {
    Set::new(
        |k: [u8; 32]|
            k == payer || exists|i: int, j: int|
                0 <= i < ixs.len() && 0 <= j < ixs[i].accounts.len()
                    && #[trigger] ixs[i].accounts[j].is_signer
                    && ixs[i].accounts[j].pubkey == k,
    )
}

/// Every key that a message compiled from `ixs` with `payer` lists: the
/// payer, each program id and each account.
pub open spec fn message_keys(ixs: Seq<InstructionView>, payer: [u8; 32]) -> Set<[u8; 32]> {
    Set::new(
        |k: [u8; 32]|
            k == payer || exists|i: int|
                0 <= i < ixs.len() && (#[trigger] ixs[i].program_id == k || exists|j: int|
                    0 <= j < ixs[i].accounts.len() && #[trigger] ixs[i].accounts[j].pubkey == k),
    )
}

/// The `Option` of an instruction builder's result, by its view.
pub open spec fn built(r: Result<InstructionData, solana_program_error::ProgramError>) -> Option<InstructionView> {
    match r {
        Ok(ix) => Some(ix@),
        Err(_) => None,
    }
}

/// What the system program's `create_account` instruction carries as data:
/// the bincode encoding of `SystemInstruction::CreateAccount`, a 4-byte
/// little-endian variant index (0), the lamports, the space and the owner.
pub open spec fn system_create_account_data(lamports: u64, space: u64, owner: [u8; 32]) -> Seq<u8> {
    seq![0u8, 0u8, 0u8, 0u8] + le_u64(lamports) + le_u64(space) + owner@
}

/// The instruction `create_account(from, to, lamports, space, owner)` of the
/// system program.
pub open spec fn create_account_instruction(
    from: [u8; 32],
    to: [u8; 32],
    lamports: u64,
    space: u64,
    owner: [u8; 32],
) -> InstructionView {
    InstructionView {
        program_id: SYSTEM_PROGRAM_ID,
        accounts: seq![meta_writable(from, true), meta_writable(to, true)],
        data: system_create_account_data(lamports, space, owner),
    }
}

/// The Token-2022 instruction `initialize_mint2`.
pub open spec fn initialize_mint2_instruction(
    mint: [u8; 32],
    authority: [u8; 32],
    freeze_authority: Option<[u8; 32]>,
    decimals: u8,
) -> InstructionView {
    InstructionView {
        program_id: TOKEN_2022_PROGRAM_ID,
        accounts: seq![meta_writable(mint, false)],
        data: seq![20u8, decimals] + authority@ + packed_key_option(freeze_authority),
    }
}

/// The Token-2022 instruction `initialize_account3`.
pub open spec fn initialize_account3_instruction(
    account: [u8; 32],
    mint: [u8; 32],
    owner: [u8; 32],
) -> InstructionView {
    InstructionView {
        program_id: TOKEN_2022_PROGRAM_ID,
        accounts: seq![meta_writable(account, false), meta_readonly(mint, false)],
        data: seq![18u8] + owner@,
    }
}

/// Calls `spl_token_2022_interface::id()`, whose value is the Token-2022
/// program id declared in that crate.
#[verifier::external_body]
pub(crate) fn token_program_id() -> (id: [u8; 32])
    ensures
        id == TOKEN_2022_PROGRAM_ID,
{
    spl_token_2022_interface::id().to_bytes()
}

/// Calls `solana_system_interface::instruction::create_account`. Its source
/// sets the system program id and the accounts `from` and `to`, both writable
/// signers; the data is the bincode encoding of the request.
#[verifier::external_body]
pub(crate) fn create_account(
    from: &[u8; 32],
    to: &[u8; 32],
    lamports: u64,
    space: u64,
    owner: &[u8; 32],
) -> (ix: InstructionData)
    ensures
        ix@ == (InstructionView {
            program_id: SYSTEM_PROGRAM_ID,
            accounts: seq![meta_writable(*from, true), meta_writable(*to, true)],
            data: system_create_account_data(lamports, space, *owner),
        }),
{
    let ix = solana_system_interface::instruction::create_account(
        &solana_pubkey::Pubkey::new_from_array(*from),
        &solana_pubkey::Pubkey::new_from_array(*to),
        lamports,
        space,
        &solana_pubkey::Pubkey::new_from_array(*owner),
    );
    InstructionData {
        program_id: ix.program_id.to_bytes(),
        accounts: ix.accounts.iter().map(|m| AccountMetaData { pubkey: m.pubkey.to_bytes(), is_signer: m.is_signer, is_writable: m.is_writable }).collect(),
        data: ix.data,
    }
}

/// Calls `spl_token_2022_interface::instruction::initialize_mint2` with the
/// Token-2022 program id. Its source checks only the program id, which it is
/// given, and then returns the instruction stated here.
#[verifier::external_body]
pub(crate) fn initialize_mint2(
    mint: &[u8; 32],
    authority: &[u8; 32],
    freeze_authority: Option<[u8; 32]>,
    decimals: u8,
) -> (r: Result<InstructionData, solana_program_error::ProgramError>)
    ensures
        built(r) == Some(initialize_mint2_instruction(*mint, *authority, freeze_authority, decimals)),
{
    let freeze = freeze_authority.map(solana_pubkey::Pubkey::new_from_array);
    let ix = spl_token_2022_interface::instruction::initialize_mint2(
        &spl_token_2022_interface::id(),
        &solana_pubkey::Pubkey::new_from_array(*mint),
        &solana_pubkey::Pubkey::new_from_array(*authority),
        freeze.as_ref(),
        decimals,
    )?;
    Ok(InstructionData {
        program_id: ix.program_id.to_bytes(),
        accounts: ix.accounts.iter().map(|m| AccountMetaData { pubkey: m.pubkey.to_bytes(), is_signer: m.is_signer, is_writable: m.is_writable }).collect(),
        data: ix.data,
    })
}

/// Calls `spl_token_2022_interface::instruction::initialize_account3` with
/// the Token-2022 program id. Its source checks only the program id, which it
/// is given, and then returns the instruction stated here.
#[verifier::external_body]
pub(crate) fn initialize_account3(
    account: &[u8; 32],
    mint: &[u8; 32],
    owner: &[u8; 32],
) -> (r: Result<InstructionData, solana_program_error::ProgramError>)
    ensures
        built(r) == Some(initialize_account3_instruction(*account, *mint, *owner)),
{
    let ix = spl_token_2022_interface::instruction::initialize_account3(
        &spl_token_2022_interface::id(),
        &solana_pubkey::Pubkey::new_from_array(*account),
        &solana_pubkey::Pubkey::new_from_array(*mint),
        &solana_pubkey::Pubkey::new_from_array(*owner),
    )?;
    Ok(InstructionData {
        program_id: ix.program_id.to_bytes(),
        accounts: ix.accounts.iter().map(|m| AccountMetaData { pubkey: m.pubkey.to_bytes(), is_signer: m.is_signer, is_writable: m.is_writable }).collect(),
        data: ix.data,
    })
}

} // verus!
