//! The extensions a builder can add, what each one contributes to the account
//! size, and the instruction that sets it up.

use vstd::prelude::*;
use crate::instruction::{self, InstructionData, InstructionView};
use crate::keys;
use spl_token_2022_interface::extension::ExtensionType as T;

pub mod cpi_guard;
pub mod immutable_owner;
pub mod interest_bearing;
pub mod memo_transfer;
pub mod metadata_pointer;
pub mod mint_close_authority;
pub mod non_transferable;
pub mod permanent_delegate;
pub mod transfer_fee;
pub mod transfer_hook;

verus! {

/// A mint extension with the parameters captured by the mint builder.
#[derive(Clone, Copy, Debug)]
pub enum MintExtensionInit {
    /// Transfer-fee configuration.
    TransferFee { fee_basis_points: u16, maximum_fee: u64 },
    /// Transfer hook program id.
    TransferHook { program_id: [u8; 32] },
    /// Mint close authority.
    MintCloseAuthority { authority: [u8; 32] },
    /// Metadata pointer address.
    MetadataPointer { metadata_address: [u8; 32] },
    /// Non-transferable marker.
    NonTransferable,
    /// Permanent delegate.
    PermanentDelegate { delegate: [u8; 32] },
    /// Interest-bearing configuration.
    InterestBearing { rate_authority: [u8; 32], rate: i16 },
}

/// A token-account extension captured by the account builder.
#[derive(Clone, Copy, Debug, PartialEq, Eq, Structural)]
pub enum AccountExtensionInit {
    /// Set up before `initialize_account3`; needs no owner signature.
    ImmutableOwner,
    /// Enabled after `initialize_account3`; the owner signs.
    MemoTransfer,
    /// Enabled after `initialize_account3`; the owner signs.
    CpiGuard,
}

/// The Token-2022 extension types of mints that the builder sets up.
#[derive(Clone, Copy, Debug, PartialEq, Eq, Structural)]
pub enum MintExtensionType {
    TransferFeeConfig,
    TransferHook,
    MintCloseAuthority,
    MetadataPointer,
    NonTransferable,
    PermanentDelegate,
    InterestBearingConfig,
}

/// The Token-2022 extension types of token accounts that the builder sets up.
#[derive(Clone, Copy, Debug, PartialEq, Eq, Structural)]
pub enum AccountExtensionType {
    ImmutableOwner,
    MemoTransfer,
    CpiGuard,
}

impl MintExtensionInit {
    /// The extension type this extension occupies in the mint.
    pub open spec fn kind(self) -> MintExtensionType {
        match self {
            MintExtensionInit::TransferFee { .. } => MintExtensionType::TransferFeeConfig,
            MintExtensionInit::TransferHook { .. } => MintExtensionType::TransferHook,
            MintExtensionInit::MintCloseAuthority { .. } => MintExtensionType::MintCloseAuthority,
            MintExtensionInit::MetadataPointer { .. } => MintExtensionType::MetadataPointer,
            MintExtensionInit::NonTransferable => MintExtensionType::NonTransferable,
            MintExtensionInit::PermanentDelegate { .. } => MintExtensionType::PermanentDelegate,
            MintExtensionInit::InterestBearing { .. } => MintExtensionType::InterestBearingConfig,
        }
    }

    /// The extension type this extension occupies in the mint.
    pub fn extension_type(&self) -> (t: MintExtensionType)
        ensures
            t == self.kind(),
    {
        match self {
            MintExtensionInit::TransferFee { .. } => transfer_fee::EXTENSION_TYPE,
            MintExtensionInit::TransferHook { .. } => transfer_hook::EXTENSION_TYPE,
            MintExtensionInit::MintCloseAuthority { .. } => mint_close_authority::EXTENSION_TYPE,
            MintExtensionInit::MetadataPointer { .. } => metadata_pointer::EXTENSION_TYPE,
            MintExtensionInit::NonTransferable => non_transferable::EXTENSION_TYPE,
            MintExtensionInit::PermanentDelegate { .. } => permanent_delegate::EXTENSION_TYPE,
            MintExtensionInit::InterestBearing { .. } => interest_bearing::EXTENSION_TYPE,
        }
    }

    /// The instruction that sets this extension up on `mint`, or none where
    /// the Token-2022 builder refuses the parameters.
    pub open spec fn init_instruction(self, mint: [u8; 32]) -> Option<InstructionView> {
        match self {
            MintExtensionInit::TransferFee { fee_basis_points, maximum_fee } =>
                transfer_fee::init_instruction(mint, fee_basis_points, maximum_fee),
            MintExtensionInit::TransferHook { program_id } =>
                transfer_hook::init_instruction(mint, program_id),
            MintExtensionInit::MintCloseAuthority { authority } =>
                mint_close_authority::init_instruction(mint, authority),
            MintExtensionInit::MetadataPointer { metadata_address } =>
                metadata_pointer::init_instruction(mint, metadata_address),
            MintExtensionInit::NonTransferable => non_transferable::init_instruction(mint),
            MintExtensionInit::PermanentDelegate { delegate } =>
                permanent_delegate::init_instruction(mint, delegate),
            MintExtensionInit::InterestBearing { rate_authority, rate } =>
                interest_bearing::init_instruction(mint, rate_authority, rate),
        }
    }

    /// Whether the Token-2022 builder accepts this extension's parameters: the
    /// keys that it packs as optional addresses must not be all-zero.
    pub open spec fn accepted(self) -> bool {
        match self {
            MintExtensionInit::TransferHook { program_id } => !keys::is_zero_key(program_id),
            MintExtensionInit::MetadataPointer { metadata_address } => !keys::is_zero_key(metadata_address),
            MintExtensionInit::InterestBearing { rate_authority, .. } => !keys::is_zero_key(rate_authority),
            _ => true,
        }
    }

    /// Builds the instruction that sets this extension up on `mint`.
    pub fn build_init_instruction(&self, mint: &[u8; 32]) -> (r: Result<
        InstructionData,
        solana_program_error::ProgramError,
    >)
        ensures
            instruction::built(r) == self.init_instruction(*mint),
    {
        match self {
            MintExtensionInit::TransferFee { fee_basis_points, maximum_fee } =>
                transfer_fee::build_init_instruction(mint, *fee_basis_points, *maximum_fee),
            MintExtensionInit::TransferHook { program_id } =>
                transfer_hook::build_init_instruction(mint, *program_id),
            MintExtensionInit::MintCloseAuthority { authority } =>
                mint_close_authority::build_init_instruction(mint, *authority),
            MintExtensionInit::MetadataPointer { metadata_address } =>
                metadata_pointer::build_init_instruction(mint, *metadata_address),
            MintExtensionInit::NonTransferable => non_transferable::build_init_instruction(mint),
            MintExtensionInit::PermanentDelegate { delegate } =>
                permanent_delegate::build_init_instruction(mint, *delegate),
            MintExtensionInit::InterestBearing { rate_authority, rate } =>
                interest_bearing::build_init_instruction(mint, *rate_authority, *rate),
        }
    }
}

/// An extension's set-up instruction exists exactly when its parameters are
/// accepted, and it touches only the mint, as a writable non-signer, under
/// the Token-2022 program.
pub proof fn lemma_init_instruction_shape(e: MintExtensionInit, mint: [u8; 32])
    ensures
        e.init_instruction(mint) is Some <==> e.accepted(),
        e.accepted() ==> e.init_instruction(mint)->0.program_id == instruction::TOKEN_2022_PROGRAM_ID,
        e.accepted() ==> e.init_instruction(mint)->0.accounts == seq![instruction::meta_writable(mint, false)],
{
}

/// The Token-2022 builders refuse no parameters of a transfer fee (the basis
/// points are not range-checked here), a close authority, the
/// non-transferable marker or a permanent delegate; the transfer-fee set-up
/// carries no authorities, then the basis points and the maximum fee, and the
/// close-authority set-up carries the authority as a present key.
pub proof fn lemma_unrefused_extensions(
    mint: [u8; 32],
    fee_basis_points: u16,
    maximum_fee: u64,
    authority: [u8; 32],
    delegate: [u8; 32],
)
    ensures
        (MintExtensionInit::TransferFee { fee_basis_points, maximum_fee }).accepted(),
        (MintExtensionInit::MintCloseAuthority { authority }).accepted(),
        MintExtensionInit::NonTransferable.accepted(),
        (MintExtensionInit::PermanentDelegate { delegate }).accepted(),
        (MintExtensionInit::TransferFee { fee_basis_points, maximum_fee }).init_instruction(mint)->0.data
            == seq![26u8, 0u8, 0u8, 0u8] + instruction::le_u16(fee_basis_points) + instruction::le_u64(maximum_fee),
        (MintExtensionInit::MintCloseAuthority { authority }).init_instruction(mint)->0.data
            == seq![25u8, 1u8] + authority@,
{
    assert(instruction::packed_key_option(Some(authority)) == seq![1u8] + authority@);
    assert(seq![25u8] + (seq![1u8] + authority@) =~= seq![25u8, 1u8] + authority@);
}

impl AccountExtensionInit {
    /// The extension type this extension occupies in the token account.
    pub open spec fn kind(self) -> AccountExtensionType {
        match self {
            AccountExtensionInit::ImmutableOwner => AccountExtensionType::ImmutableOwner,
            AccountExtensionInit::MemoTransfer => AccountExtensionType::MemoTransfer,
            AccountExtensionInit::CpiGuard => AccountExtensionType::CpiGuard,
        }
    }

    /// The extension type this extension occupies in the token account.
    pub fn extension_type(&self) -> (t: AccountExtensionType)
        ensures
            t == self.kind(),
    {
        match self {
            AccountExtensionInit::ImmutableOwner => immutable_owner::EXTENSION_TYPE,
            AccountExtensionInit::MemoTransfer => memo_transfer::EXTENSION_TYPE,
            AccountExtensionInit::CpiGuard => cpi_guard::EXTENSION_TYPE,
        }
    }

    /// Whether the extension is set up before `initialize_account3`.
    pub open spec fn is_pre_init(self) -> bool {
        self is ImmutableOwner
    }

    /// Whether the extension is set up before `initialize_account3`.
    pub fn pre_init(&self) -> (b: bool)
        ensures
            b == self.is_pre_init(),
    {
        matches!(self, AccountExtensionInit::ImmutableOwner)
    }

    /// The instruction that enables a post-init extension on `account`,
    /// signed by `owner`; none for a pre-init extension.
    pub open spec fn enable_instruction(self, account: [u8; 32], owner: [u8; 32]) -> Option<InstructionView> {
        match self {
            AccountExtensionInit::ImmutableOwner => None,
            AccountExtensionInit::MemoTransfer => memo_transfer::enable_instruction(account, owner),
            AccountExtensionInit::CpiGuard => cpi_guard::enable_instruction(account, owner),
        }
    }

    /// Builds the instruction that enables a post-init extension on `account`.
    pub fn build_enable_instruction(&self, account: &[u8; 32], owner: &[u8; 32]) -> (r: Result<
        InstructionData,
        solana_program_error::ProgramError,
    >)
        requires
            !self.is_pre_init(),
        ensures
            instruction::built(r) == self.enable_instruction(*account, *owner),
    {
        match self {
            AccountExtensionInit::MemoTransfer => memo_transfer::build_enable_instruction(account, owner),
            _ => cpi_guard::build_enable_instruction(account, owner),
        }
    }
}

/// A post-init extension's enable instruction always exists: under the
/// Token-2022 program it touches `account`, writable, and `owner`, as its one
/// signer (no multisig signers), with the extension's instruction tag
/// followed by `Enable` (0).
pub proof fn lemma_enable_instruction_shape(e: AccountExtensionInit, account: [u8; 32], owner: [u8; 32])
    requires
        !e.is_pre_init(),
    ensures
        e.enable_instruction(account, owner) is Some,
        e.enable_instruction(account, owner)->0.program_id == instruction::TOKEN_2022_PROGRAM_ID,
        e.enable_instruction(account, owner)->0.accounts
            == seq![instruction::meta_writable(account, false), instruction::meta_readonly(owner, true)],
        e.enable_instruction(account, owner)->0.data == (if e is MemoTransfer {
            seq![30u8, 0u8]
        } else {
            seq![34u8, 0u8]
        }),
{
}

/// The bytes of a mint extension's value, `size_of` of its Token-2022 struct.
pub open spec fn mint_extension_size(t: MintExtensionType) -> nat {
    match t {
        MintExtensionType::TransferFeeConfig => 108,
        MintExtensionType::TransferHook => 64,
        MintExtensionType::MintCloseAuthority => 32,
        MintExtensionType::MetadataPointer => 64,
        MintExtensionType::NonTransferable => 0,
        MintExtensionType::PermanentDelegate => 32,
        MintExtensionType::InterestBearingConfig => 52,
    }
}

/// The bytes of a token-account extension's value, `size_of` of its struct.
pub open spec fn account_extension_size(t: AccountExtensionType) -> nat {
    match t {
        AccountExtensionType::ImmutableOwner => 0,
        AccountExtensionType::MemoTransfer => 1,
        AccountExtensionType::CpiGuard => 1,
    }
}

/// The TLV bytes of the distinct types among `types`: a 2-byte type, a
/// 2-byte length and the value for each; a repeated type counts once.
pub open spec fn mint_tlv_len(types: Seq<MintExtensionType>) -> nat
    decreases types.len(),
{
    if types.len() == 0 {
        0
    } else {
        let rest = types.drop_last();
        mint_tlv_len(rest) + if rest.contains(types.last()) { 0 } else { 4 + mint_extension_size(types.last()) }
    }
}

/// The TLV bytes of the distinct types among `types`, as for mints.
pub open spec fn account_tlv_len(types: Seq<AccountExtensionType>) -> nat
    decreases types.len(),
{
    if types.len() == 0 {
        0
    } else {
        let rest = types.drop_last();
        account_tlv_len(rest) + if rest.contains(types.last()) { 0 } else { 4 + account_extension_size(types.last()) }
    }
}

/// A length with extensions that equals the multisig length (355) gets two
/// more bytes, so that the two kinds of account cannot be confused.
pub open spec fn multisig_adjusted(len: nat) -> nat {
    if len == 355 { 357 } else { len }
}

/// The data length of a mint carrying the extensions of `types`: the bare
/// mint (82 bytes) without extensions, and otherwise the base account length
/// (165), the account-type byte and the TLV entries.
pub open spec fn mint_len_with(types: Seq<MintExtensionType>) -> nat {
    if types.len() == 0 {
        82
    } else {
        multisig_adjusted(166 + mint_tlv_len(types))
    }
}

/// The data length of a token account carrying the extensions of `types`:
/// 165 bytes without extensions, and otherwise 166 and the TLV entries.
pub open spec fn account_len_with(types: Seq<AccountExtensionType>) -> nat {
    if types.len() == 0 {
        165
    } else {
        multisig_adjusted(166 + account_tlv_len(types))
    }
}

/// Calls `ExtensionType::try_calculate_account_len::<Mint>` on the matching
/// Token-2022 extension types. Its source fails only for a type of variable
/// length (`TokenMetadata`), which none of these is, so it returns `Ok`, with
/// the length its `TlvLenAccumulator` adds up: see [`mint_len_with`].
#[verifier::external_body]
pub(crate) fn try_calculate_mint_len(types: &Vec<MintExtensionType>) -> (r: Result<usize, solana_program_error::ProgramError>)
    ensures
        r is Ok && r->Ok_0 == mint_len_with(types@),
{
    let types: Vec<T> = types.iter().map(|t| match t {
        MintExtensionType::TransferFeeConfig => T::TransferFeeConfig,
        MintExtensionType::TransferHook => T::TransferHook,
        MintExtensionType::MintCloseAuthority => T::MintCloseAuthority,
        MintExtensionType::MetadataPointer => T::MetadataPointer,
        MintExtensionType::NonTransferable => T::NonTransferable,
        MintExtensionType::PermanentDelegate => T::PermanentDelegate,
        MintExtensionType::InterestBearingConfig => T::InterestBearingConfig,
    }).collect();
    T::try_calculate_account_len::<spl_token_2022_interface::state::Mint>(&types)
}

/// Calls `ExtensionType::try_calculate_account_len::<Account>` on the matching
/// Token-2022 extension types. Its source fails only for a type of variable
/// length, which none of these is, so it returns `Ok`, with the length of
/// [`account_len_with`].
#[verifier::external_body]
pub(crate) fn try_calculate_account_len(types: &Vec<AccountExtensionType>) -> (r: Result<usize, solana_program_error::ProgramError>)
    ensures
        r is Ok && r->Ok_0 == account_len_with(types@),
{
    let types: Vec<T> = types.iter().map(|t| match t {
        AccountExtensionType::ImmutableOwner => T::ImmutableOwner,
        AccountExtensionType::MemoTransfer => T::MemoTransfer,
        AccountExtensionType::CpiGuard => T::CpiGuard,
    }).collect();
    T::try_calculate_account_len::<spl_token_2022_interface::state::Account>(&types)
}

/// What `account_len::try_calculate_account_len_from_mint_data` gives for the
/// bytes of a mint account and the account extension types requested on top
/// of those the mint requires; none where it fails.
pub uninterp spec fn account_len_from_mint_data(mint_data: Seq<u8>, types: Seq<AccountExtensionType>) -> Option<usize>;

/// Calls `account_len::try_calculate_account_len_from_mint_data` on the bytes
/// of a mint account and the matching Token-2022 extension types. Its source
/// unpacks the mint (failing with `InvalidMint` where the bytes are no mint),
/// sizes the account extensions that the mint's extensions require at
/// `InitializeAccount` (a transfer fee needs `TransferFeeAmount`, a
/// non-transferable mint `NonTransferableAccount` and `ImmutableOwner`, a
/// transfer hook `TransferHookAccount`, a pausable mint `PausableAccount`),
/// adds the requested types, each distinct type once, and returns the account
/// length. The result is named by [`account_len_from_mint_data`]. Its
/// accumulator inserts every requested type (a repeated one once), so the
/// length it returns is never below the one that `try_calculate_account_len`
/// gives for the requested types alone: at most 14 bytes of these entries,
/// so no multisig adjustment applies to that one.
#[verifier::external_body]
pub(crate) fn try_calculate_account_len_from_mint_data(
    mint_data: &Vec<u8>,
    types: &Vec<AccountExtensionType>,
) -> (r: Result<usize, solana_program_error::ProgramError>)
    ensures
        (match r {
            Ok(n) => Some(n),
            Err(_) => None::<usize>,
        }) == account_len_from_mint_data(mint_data@, types@),
        r matches Ok(n) ==> n >= account_len_with(types@),
{
    let types: Vec<T> = types.iter().map(|t| match t {
        AccountExtensionType::ImmutableOwner => T::ImmutableOwner,
        AccountExtensionType::MemoTransfer => T::MemoTransfer,
        AccountExtensionType::CpiGuard => T::CpiGuard,
    }).collect();
    spl_token_2022_interface::extension::account_len::try_calculate_account_len_from_mint_data(mint_data, &types)
}

} // verus!
