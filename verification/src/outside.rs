//! Outside types that the builders carry through, and the trusted calls that
//! touch the simulator, keypairs and transactions.

use vstd::prelude::*;
use crate::instruction::{self, AccountMetaData, InstructionData};
use crate::keys::KeyedSigner;

verus! {

/// The in-process Solana runtime (`litesvm::LiteSVM`); opaque here.
#[verifier::external_type_specification]
#[verifier::external_body]
pub struct ExLiteSvm(litesvm::LiteSVM);

/// An ed25519 keypair (`solana_keypair::Keypair`); opaque here.
#[verifier::external_type_specification]
#[verifier::external_body]
pub struct ExKeypair(solana_keypair::Keypair);

/// A signed legacy transaction (`solana_transaction::Transaction`); opaque here.
#[verifier::external_type_specification]
#[verifier::external_body]
pub struct ExTransaction(solana_transaction::Transaction);

/// A recent blockhash (`solana_transaction::Hash`); opaque here.
#[verifier::external_type_specification]
#[verifier::external_body]
pub struct ExHash(solana_transaction::Hash);

/// The error of an instruction builder (`solana_program_error::ProgramError`); opaque here.
#[verifier::external_type_specification]
#[verifier::external_body]
pub struct ExProgramError(solana_program_error::ProgramError);

/// The error of a refused transaction (`litesvm::types::FailedTransactionMetadata`); opaque here.
#[verifier::external_type_specification]
#[verifier::external_body]
pub struct ExFailedTransactionMetadata(litesvm::types::FailedTransactionMetadata);

/// The record of an executed transaction (`litesvm::types::TransactionMetadata`); opaque here.
#[verifier::external_type_specification]
#[verifier::external_body]
pub struct ExTransactionMetadata(litesvm::types::TransactionMetadata);

/// Calls `Keypair::new`, which draws a fresh random keypair. Nothing is
/// promised of the key it holds.
#[verifier::external_body]
pub(crate) fn new_keypair() -> (kp: solana_keypair::Keypair) {
    solana_keypair::Keypair::new()
}

/// Calls `LiteSVM::minimum_balance_for_rent_exemption`. The result depends on
/// the rent sysvar held by the simulator, so only the floor of 1 lamport that
/// its source applies (`1.max(..)`) is stated.
#[verifier::external_body]
pub(crate) fn minimum_balance_for_rent_exemption(svm: &litesvm::LiteSVM, data_len: usize) -> (lamports: u64)
    ensures
        lamports >= 1,
{
    svm.minimum_balance_for_rent_exemption(data_len)
}

/// Calls `LiteSVM::get_account` on `key` and keeps the account's data. What
/// it returns is the simulator's state, so nothing is stated of it.
#[verifier::external_body]
pub(crate) fn account_data(svm: &litesvm::LiteSVM, key: &[u8; 32]) -> (data: Option<Vec<u8>>) {
    svm.get_account(&solana_pubkey::Pubkey::new_from_array(*key)).map(|a| a.data)
}

/// Calls `LiteSVM::latest_blockhash`, which reads the simulator's state; nothing
/// is stated of the hash.
#[verifier::external_body]
pub(crate) fn latest_blockhash(svm: &litesvm::LiteSVM) -> (hash: solana_transaction::Hash) {
    svm.latest_blockhash()
}

/// The keys of a list of signers, in order.
pub open spec fn signer_key_list(signers: Seq<KeyedSigner>) -> Seq<[u8; 32]> {
    signers.map_values(|s: KeyedSigner| s@)
}

/// The keys of a list of signers.
pub open spec fn signer_keys(signers: Seq<KeyedSigner>) -> Set<[u8; 32]> {
    Set::new(|k: [u8; 32]| exists|i: int| 0 <= i < signers.len() && #[trigger] signers[i]@ == k)
}

/// Calls `Transaction::new_signed_with_payer` on the instructions, with
/// `payer` as fee payer and the keypairs of `signers`.
///
/// Its source panics when the message has more than 255 keys of one kind
/// ("overflow when compiling message keys"), when a keypair's key is not a
/// required signer of the message, or when a required signer is missing
/// (`Transaction::sign`). The first is ruled out by bounding all the keys of
/// the message; the other two by asking that the signers' keys be exactly the
/// required signers: the payer and every account marked as a signer. Each
/// [`KeyedSigner`] holds the key that its own keypair reports. Nothing is
/// stated of the signed transaction itself.
#[verifier::external_body]
pub(crate) fn new_signed_with_payer(
    instructions: &Vec<InstructionData>,
    payer: &[u8; 32],
    signers: &Vec<KeyedSigner>,
    recent_blockhash: solana_transaction::Hash,
) -> (tx: solana_transaction::Transaction)
    requires
        instruction::message_keys(instruction::instructions_view(instructions@), *payer).finite(),
        instruction::message_keys(instruction::instructions_view(instructions@), *payer).len() <= 255,
        signer_keys(signers@) == instruction::required_signers(instruction::instructions_view(instructions@), *payer),
{
    let ixs: Vec<solana_instruction::Instruction> = instructions.iter().map(|ix| solana_instruction::Instruction {
        program_id: solana_pubkey::Pubkey::new_from_array(ix.program_id),
        accounts: ix.accounts.iter().map(|m: &AccountMetaData| solana_instruction::AccountMeta { pubkey: solana_pubkey::Pubkey::new_from_array(m.pubkey), is_signer: m.is_signer, is_writable: m.is_writable }).collect(),
        data: ix.data.clone(),
    }).collect();
    let keypairs: Vec<&solana_keypair::Keypair> = signers.iter().map(|s| s.keypair()).collect();
    let payer = solana_pubkey::Pubkey::new_from_array(*payer);
    solana_transaction::Transaction::new_signed_with_payer(&ixs, Some(&payer), &keypairs, recent_blockhash)
}

/// Calls `LiteSVM::send_transaction`. Whether the simulator accepts the
/// transaction depends on its whole state (balances, accounts, programs), so
/// nothing is stated of the outcome.
#[verifier::external_body]
pub(crate) fn send_transaction(
    svm: &mut litesvm::LiteSVM,
    tx: solana_transaction::Transaction,
) -> (r: Result<litesvm::types::TransactionMetadata, litesvm::types::FailedTransactionMetadata>) {
    svm.send_transaction(tx)
}

/// Calls `From<ProgramError> for FailedTransactionMetadata`, the conversion that
/// `?` applies when an instruction builder fails. Its result is opaque here.
#[verifier::external_body]
pub(crate) fn failed_from_program_error(
    e: solana_program_error::ProgramError,
) -> (r: litesvm::types::FailedTransactionMetadata) {
    litesvm::types::FailedTransactionMetadata::from(e)
}

} // verus!
