//! Tests of the account sizes the builders compute and of the instructions
//! they plan for a given key and balance.

use litesvm::LiteSVM;
use litesvm_token_extensions::instruction::{SYSTEM_PROGRAM_ID, TOKEN_2022_PROGRAM_ID};
use litesvm_token_extensions::{CreateAccountWithExtensions, CreateMintWithExtensions};
use solana_keypair::Keypair;
use solana_signer::Signer;
use spl_token_2022_interface::extension::{BaseStateWithExtensions, ExtensionType};
use spl_token_2022_interface::state::{Account as TokenAccount, Mint};

fn setup() -> (LiteSVM, Keypair) {
    let mut svm = LiteSVM::new();
    let payer = Keypair::new();
    svm.airdrop(&payer.pubkey(), 100_000_000_000).unwrap();
    (svm, payer)
}

fn key(b: u8) -> [u8; 32] {
    let mut k = [0u8; 32];
    k[0] = b;
    k[31] = 9;
    k
}

fn mint_len(types: &[ExtensionType]) -> usize {
    ExtensionType::try_calculate_account_len::<Mint>(types).unwrap()
}

fn account_len(types: &[ExtensionType]) -> usize {
    ExtensionType::try_calculate_account_len::<TokenAccount>(types).unwrap()
}

fn create_account_data(lamports: u64, space: u64, owner: [u8; 32]) -> Vec<u8> {
    let mut d = vec![0u8, 0, 0, 0];
    d.extend_from_slice(&lamports.to_le_bytes());
    d.extend_from_slice(&space.to_le_bytes());
    d.extend_from_slice(&owner);
    d
}

#[test]
fn mint_len_of_single_extensions() {
    let (mut svm, payer) = setup();
    assert_eq!(CreateMintWithExtensions::new(&mut svm, &payer).with_transfer_fee(1, 1).data_len(), 278);
    assert_eq!(CreateMintWithExtensions::new(&mut svm, &payer).with_transfer_hook(key(1)).data_len(), 234);
    assert_eq!(CreateMintWithExtensions::new(&mut svm, &payer).with_mint_close_authority(key(1)).data_len(), 202);
    assert_eq!(CreateMintWithExtensions::new(&mut svm, &payer).with_metadata_pointer(key(1)).data_len(), 234);
    assert_eq!(CreateMintWithExtensions::new(&mut svm, &payer).with_non_transferable().data_len(), 170);
    assert_eq!(CreateMintWithExtensions::new(&mut svm, &payer).with_permanent_delegate(key(1)).data_len(), 202);
    assert_eq!(CreateMintWithExtensions::new(&mut svm, &payer).with_interest_bearing(key(1), 3).data_len(), 222);
    assert_eq!(mint_len(&[ExtensionType::TransferFeeConfig]), 278);
    assert_eq!(mint_len(&[ExtensionType::NonTransferable]), 170);
}

#[test]
fn mint_len_matches_the_token_interface_on_combinations() {
    let (mut svm, payer) = setup();
    let n = CreateMintWithExtensions::new(&mut svm, &payer)
        .with_transfer_fee(1, 2)
        .with_transfer_hook(key(1))
        .with_mint_close_authority(key(2))
        .with_metadata_pointer(key(3))
        .with_non_transferable()
        .with_permanent_delegate(key(4))
        .with_interest_bearing(key(5), -1)
        .data_len();
    assert_eq!(
        n,
        mint_len(&[
            ExtensionType::TransferFeeConfig,
            ExtensionType::TransferHook,
            ExtensionType::MintCloseAuthority,
            ExtensionType::MetadataPointer,
            ExtensionType::NonTransferable,
            ExtensionType::PermanentDelegate,
            ExtensionType::InterestBearingConfig,
        ])
    );
    let n = CreateMintWithExtensions::new(&mut svm, &payer)
        .with_permanent_delegate(key(4))
        .with_non_transferable()
        .data_len();
    assert_eq!(n, mint_len(&[ExtensionType::PermanentDelegate, ExtensionType::NonTransferable]));
    assert_eq!(n, 206);
}

#[test]
fn mint_len_counts_a_repeated_extension_once() {
    let (mut svm, payer) = setup();
    let n = CreateMintWithExtensions::new(&mut svm, &payer)
        .with_transfer_fee(1, 2)
        .with_non_transferable()
        .with_transfer_fee(3, 4)
        .data_len();
    assert_eq!(n, 282);
    assert_eq!(
        n,
        mint_len(&[ExtensionType::TransferFeeConfig, ExtensionType::NonTransferable, ExtensionType::TransferFeeConfig])
    );
}

#[test]
fn account_len_of_extensions() {
    let (mut svm, payer) = setup();
    let mint = key(7);
    assert_eq!(CreateAccountWithExtensions::new(&mut svm, &payer, &mint).with_immutable_owner().data_len(), 170);
    assert_eq!(CreateAccountWithExtensions::new(&mut svm, &payer, &mint).with_memo_transfer().data_len(), 171);
    assert_eq!(CreateAccountWithExtensions::new(&mut svm, &payer, &mint).with_cpi_guard().data_len(), 171);
    let all = CreateAccountWithExtensions::new(&mut svm, &payer, &mint)
        .with_cpi_guard()
        .with_immutable_owner()
        .with_memo_transfer()
        .data_len();
    assert_eq!(all, 180);
    assert_eq!(
        all,
        account_len(&[ExtensionType::CpiGuard, ExtensionType::ImmutableOwner, ExtensionType::MemoTransfer])
    );
    let repeated = CreateAccountWithExtensions::new(&mut svm, &payer, &mint)
        .with_memo_transfer()
        .with_memo_transfer()
        .data_len();
    assert_eq!(repeated, 171);
    assert_eq!(repeated, account_len(&[ExtensionType::MemoTransfer, ExtensionType::MemoTransfer]));
}

#[test]
fn mint_plan_sizes_the_account_for_its_extensions() {
    let (mut svm, payer) = setup();
    let payer_key = payer.pubkey().to_bytes();
    let mint = key(1);
    let b = CreateMintWithExtensions::new(&mut svm, &payer).with_transfer_fee(100, 1_000);
    let planned = b.plan(&mint, 4_000_000).unwrap();
    let explicit = b.instructions(&mint, 4_000_000, 278).unwrap();
    assert_eq!(planned.len(), 3);
    assert_eq!(planned.len(), explicit.len());
    for (p, e) in planned.iter().zip(explicit.iter()) {
        assert_eq!(p.program_id, e.program_id);
        assert_eq!(p.data, e.data);
        assert_eq!(p.accounts.len(), e.accounts.len());
    }
    assert_eq!(planned[0].program_id, SYSTEM_PROGRAM_ID);
    assert_eq!(planned[0].data, create_account_data(4_000_000, 278, TOKEN_2022_PROGRAM_ID));
    assert_eq!(planned[0].accounts[0].pubkey, payer_key);
    assert_eq!(planned[0].accounts[1].pubkey, mint);
}

#[test]
fn mint_plan_without_extensions_uses_the_bare_mint_length() {
    let (mut svm, payer) = setup();
    let planned = CreateMintWithExtensions::new(&mut svm, &payer).plan(&key(2), 55).unwrap();
    assert_eq!(planned.len(), 2);
    assert_eq!(planned[0].data, create_account_data(55, 82, TOKEN_2022_PROGRAM_ID));
}

#[test]
fn mint_plan_reports_a_refused_extension() {
    let (mut svm, payer) = setup();
    let r = CreateMintWithExtensions::new(&mut svm, &payer)
        .with_non_transferable()
        .with_interest_bearing([0u8; 32], 5)
        .plan(&key(2), 1);
    match r {
        Err(refused) => assert_eq!(refused.index, 1),
        Ok(_) => panic!("a zero rate authority must be refused"),
    }
}

#[test]
fn account_plan_sizes_the_account_for_its_extensions() {
    let (mut svm, payer) = setup();
    let account = key(3);
    let b = CreateAccountWithExtensions::new(&mut svm, &payer, &key(7))
        .with_immutable_owner()
        .with_cpi_guard();
    let planned = b.plan(&account, 2_500, &None);
    assert_eq!(planned.len(), 4);
    assert_eq!(planned[0].data, create_account_data(2_500, 175, TOKEN_2022_PROGRAM_ID));
    assert_eq!(planned[1].data, vec![22]);
    assert_eq!(planned[2].data[0], 18);
    assert_eq!(planned[3].data, vec![34, 0]);
    let bare = CreateAccountWithExtensions::new(&mut svm, &payer, &key(7)).plan(&account, 9, &None);
    assert_eq!(bare.len(), 2);
    assert_eq!(bare[0].data, create_account_data(9, 165, TOKEN_2022_PROGRAM_ID));
}

#[test]
fn create_account_data_is_the_system_encoding() {
    let from = solana_pubkey::Pubkey::new_from_array(key(1));
    let to = solana_pubkey::Pubkey::new_from_array(key(2));
    let owner = solana_pubkey::Pubkey::new_from_array(TOKEN_2022_PROGRAM_ID);
    let ix = solana_system_interface::instruction::create_account(&from, &to, 123_456, 278, &owner);
    assert_eq!(ix.data, create_account_data(123_456, 278, TOKEN_2022_PROGRAM_ID));
}

#[test]
fn owner_set_twice_keeps_the_last() {
    let (mut svm, payer) = setup();
    let first = Keypair::new();
    let second = Keypair::new();
    let b = CreateAccountWithExtensions::new(&mut svm, &payer, &key(7)).owner(&first).owner(&second);
    assert_eq!(b.owner_key(), second.pubkey().to_bytes());
}

#[test]
fn owner_set_twice_creates_the_account_for_the_last() {
    let (mut svm, payer) = setup();
    let mint = CreateMintWithExtensions::new(&mut svm, &payer).send().unwrap();
    let first = Keypair::new();
    let second = Keypair::new();
    let account = CreateAccountWithExtensions::new(&mut svm, &payer, &mint)
        .owner(&first)
        .owner(&second)
        .with_memo_transfer()
        .send()
        .unwrap();
    let data = svm.get_account(&solana_pubkey::Pubkey::new_from_array(account)).unwrap().data;
    let unpacked = spl_token_2022_interface::extension::StateWithExtensions::<TokenAccount>::unpack(&data).unwrap();
    assert_eq!(unpacked.base.owner, second.pubkey());
}

fn mint_data(svm: &LiteSVM, mint: [u8; 32]) -> Vec<u8> {
    svm.get_account(&solana_pubkey::Pubkey::new_from_array(mint)).unwrap().data
}

fn from_mint(data: &[u8], types: &[ExtensionType]) -> usize {
    spl_token_2022_interface::extension::account_len::try_calculate_account_len_from_mint_data(data, types).unwrap()
}

#[test]
fn account_len_includes_what_a_transfer_fee_mint_requires() {
    let (mut svm, payer) = setup();
    let mint = CreateMintWithExtensions::new(&mut svm, &payer).with_transfer_fee(250, 5_000_000).send().unwrap();
    let data = mint_data(&svm, mint);
    let b = CreateAccountWithExtensions::new(&mut svm, &payer, &mint).with_immutable_owner().with_memo_transfer();
    // TransferFeeAmount (8 bytes), ImmutableOwner, MemoTransfer.
    assert_eq!(b.data_len(), 187);
    assert_eq!(b.data_len_for_mint(&Some(data.clone())), 187);
    assert_eq!(b.data_len_for_mint(&Some(data.clone())), from_mint(&data, &[ExtensionType::ImmutableOwner, ExtensionType::MemoTransfer]));
    // Without the mint's bytes, only the extensions added count.
    assert_eq!(b.data_len_for_mint(&None), 175);
    // Bytes that are no mint count as no mint.
    assert_eq!(b.data_len_for_mint(&Some(vec![1, 2, 3])), 175);
    let planned = b.plan(&key(3), 77, &Some(data));
    assert_eq!(planned[0].data, create_account_data(77, 187, TOKEN_2022_PROGRAM_ID));
}

#[test]
fn account_len_includes_what_other_mints_require() {
    let (mut svm, payer) = setup();
    let non_transferable = CreateMintWithExtensions::new(&mut svm, &payer).with_non_transferable().send().unwrap();
    let hooked = CreateMintWithExtensions::new(&mut svm, &payer).with_transfer_hook(key(5)).send().unwrap();
    let plain = CreateMintWithExtensions::new(&mut svm, &payer).with_mint_close_authority(key(6)).send().unwrap();
    // NonTransferableAccount and ImmutableOwner; an ImmutableOwner added counts once.
    assert_eq!(CreateAccountWithExtensions::new(&mut svm, &payer, &non_transferable).data_len(), 174);
    assert_eq!(
        CreateAccountWithExtensions::new(&mut svm, &payer, &non_transferable).with_immutable_owner().data_len(),
        174
    );
    // TransferHookAccount (1 byte).
    assert_eq!(CreateAccountWithExtensions::new(&mut svm, &payer, &hooked).data_len(), 171);
    assert_eq!(CreateAccountWithExtensions::new(&mut svm, &payer, &hooked).with_cpi_guard().data_len(), 176);
    // A close authority requires nothing of the accounts.
    assert_eq!(CreateAccountWithExtensions::new(&mut svm, &payer, &plain).data_len(), 165);
    let data = mint_data(&svm, hooked);
    assert_eq!(
        CreateAccountWithExtensions::new(&mut svm, &payer, &hooked).with_cpi_guard().data_len(),
        from_mint(&data, &[ExtensionType::CpiGuard])
    );
}

#[test]
fn accounts_of_mints_with_required_extensions_are_created() {
    let (mut svm, payer) = setup();
    let non_transferable = CreateMintWithExtensions::new(&mut svm, &payer).with_non_transferable().send().unwrap();
    let hooked = CreateMintWithExtensions::new(&mut svm, &payer).with_transfer_hook(key(5)).send().unwrap();
    let a = CreateAccountWithExtensions::new(&mut svm, &payer, &non_transferable).with_memo_transfer().send();
    assert!(a.is_ok());
    let b = CreateAccountWithExtensions::new(&mut svm, &payer, &hooked).send();
    assert!(b.is_ok());
    let data = svm.get_account(&solana_pubkey::Pubkey::new_from_array(b.unwrap())).unwrap().data;
    assert_eq!(data.len(), 171);
}

#[test]
fn readme_account_on_transfer_fee_mint() {
    let (mut svm, payer) = setup();
    let mint = CreateMintWithExtensions::new(&mut svm, &payer)
        .decimals(6)
        .with_transfer_fee(250, 5_000_000)
        .with_metadata_pointer(payer.pubkey().to_bytes())
        .send()
        .unwrap();
    let account = CreateAccountWithExtensions::new(&mut svm, &payer, &mint)
        .with_immutable_owner()
        .with_memo_transfer()
        .send()
        .unwrap();
    let data = svm.get_account(&solana_pubkey::Pubkey::new_from_array(account)).unwrap().data;
    let unpacked = spl_token_2022_interface::extension::StateWithExtensions::<TokenAccount>::unpack(&data).unwrap();
    assert_eq!(unpacked.base.mint.to_bytes(), mint);
    assert!(unpacked
        .get_extension::<spl_token_2022_interface::extension::immutable_owner::ImmutableOwner>()
        .is_ok());
    assert!(bool::from(
        unpacked
            .get_extension::<spl_token_2022_interface::extension::memo_transfer::MemoTransfer>()
            .unwrap()
            .require_incoming_transfer_memos
    ));
}
