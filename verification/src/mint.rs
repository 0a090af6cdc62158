//! `CreateMintWithExtensions` builder.

use vstd::prelude::*;
use crate::extensions::{self, MintExtensionInit, MintExtensionType};
use crate::instruction::{self, InstructionData, InstructionView, TOKEN_2022_PROGRAM_ID, SYSTEM_PROGRAM_ID};
use crate::keys::KeyedSigner;
use crate::outside;

verus! {

/// The configuration a mint builder has gathered.
pub struct MintBuilderView {
    /// The key of the payer, which funds and signs the transaction.
    pub payer: [u8; 32],
    /// The mint authority, when overridden.
    pub authority: Option<[u8; 32]>,
    /// The freeze authority, when set.
    pub freeze_authority: Option<[u8; 32]>,
    /// The mint decimals.
    pub decimals: u8,
    /// The extensions, in the order they were added.
    pub extensions: Seq<MintExtensionInit>,
}

impl MintBuilderView {
    /// The configuration with `e` added after the extensions already there.
    pub open spec fn with_extension(self, e: MintExtensionInit) -> MintBuilderView {
        MintBuilderView { extensions: self.extensions.push(e), ..self }
    }

    /// The mint authority: the override, or else the payer.
    pub open spec fn mint_authority(self) -> [u8; 32] {
        match self.authority {
            Some(a) => a,
            None => self.payer,
        }
    }

    /// The extension types of the extensions, in order.
    pub open spec fn extension_types(self) -> Seq<MintExtensionType> {
        self.extensions.map_values(|e: MintExtensionInit| e.kind())
    }

    /// Whether every extension's parameters are accepted.
    pub open spec fn extensions_accepted(self) -> bool {
        forall|i: int| 0 <= i < self.extensions.len() ==> #[trigger] self.extensions[i].accepted()
    }

    /// The instructions that create `mint`: the account creation funded by
    /// the payer with `lamports` and `space` bytes owned by Token-2022, one
    /// set-up instruction per extension in the order they were added, then
    /// `initialize_mint2`. None where an extension's parameters are refused.
    pub open spec fn instructions(self, mint: [u8; 32], lamports: u64, space: u64) -> Option<Seq<InstructionView>> {
        if self.extensions_accepted() {
            Some(
                seq![instruction::create_account_instruction(self.payer, mint, lamports, space, TOKEN_2022_PROGRAM_ID)]
                    + Seq::new(self.extensions.len(), |i: int| self.extensions[i].init_instruction(mint)->0)
                    + seq![instruction::initialize_mint2_instruction(
                        mint,
                        self.mint_authority(),
                        self.freeze_authority,
                        self.decimals,
                    )],
            )
        } else {
            None
        }
    }
}

/// The keys that must sign the creation of a mint are exactly the payer and
/// the mint itself: no extension's set-up instruction and no
/// `initialize_mint2` asks for a signature. The message lists no keys besides
/// these two and the system and Token-2022 programs.
pub proof fn lemma_mint_signers(cfg: MintBuilderView, mint: [u8; 32], lamports: u64, space: u64)
    requires
        cfg.extensions_accepted(),
    ensures
        instruction::required_signers(cfg.instructions(mint, lamports, space)->0, cfg.payer)
            == set![cfg.payer, mint],
        instruction::message_keys(cfg.instructions(mint, lamports, space)->0, cfg.payer).subset_of(
            set![cfg.payer, mint, TOKEN_2022_PROGRAM_ID, SYSTEM_PROGRAM_ID],
        ),
{
    let ixs = cfg.instructions(mint, lamports, space)->0;
    let n = cfg.extensions.len();
    assert(ixs.len() == n + 2);
    assert(ixs[0] == instruction::create_account_instruction(cfg.payer, mint, lamports, space, TOKEN_2022_PROGRAM_ID));
    assert forall|i: int| 1 <= i <= n implies #[trigger] ixs[i] == cfg.extensions[i - 1].init_instruction(mint)->0
        && ixs[i].program_id == TOKEN_2022_PROGRAM_ID
        && ixs[i].accounts == seq![instruction::meta_writable(mint, false)] by {
        extensions::lemma_init_instruction_shape(cfg.extensions[i - 1], mint);
        assert(cfg.extensions[i - 1].accepted());
    }
    let required = instruction::required_signers(ixs, cfg.payer);
    assert forall|k: [u8; 32]| required.contains(k) <==> set![cfg.payer, mint].contains(k) by {
        if k == mint {
            assert(ixs[0].accounts[1].is_signer);
        }
        if required.contains(k) && k != cfg.payer {
            let (i, j) = choose|i: int, j: int|
                0 <= i < ixs.len() && 0 <= j < ixs[i].accounts.len()
                    && #[trigger] ixs[i].accounts[j].is_signer
                    && ixs[i].accounts[j].pubkey == k;
            if 1 <= i <= n {
                assert(ixs[i].accounts == seq![instruction::meta_writable(mint, false)]);
            }
        }
    }
    assert(required =~= set![cfg.payer, mint]);
    let keys = instruction::message_keys(ixs, cfg.payer);
    assert forall|k: [u8; 32]| keys.contains(k) implies set![cfg.payer, mint, TOKEN_2022_PROGRAM_ID, SYSTEM_PROGRAM_ID].contains(k) by {
        if k != cfg.payer {
            let i = choose|i: int|
                0 <= i < ixs.len() && (#[trigger] ixs[i].program_id == k || exists|j: int|
                    0 <= j < ixs[i].accounts.len() && #[trigger] ixs[i].accounts[j].pubkey == k);
            if 1 <= i <= n {
                assert(ixs[i].accounts == seq![instruction::meta_writable(mint, false)]);
            }
        }
    }
}

/// The last instruction that creates a mint initializes it exactly as
/// configured, whatever the extensions: `initialize_mint2` under Token-2022
/// on the mint alone (writable, not signing), with data `[20, decimals]`, the
/// mint authority override's key or else the payer's, then `[0]` where no
/// freeze authority was set and `[1]` and its key where one was, also where it
/// equals the mint authority. All instructions before it are the account
/// creation and one set-up per extension.
pub proof fn lemma_mint_initialization(cfg: MintBuilderView, mint: [u8; 32], lamports: u64, space: u64)
    requires
        cfg.extensions_accepted(),
    ensures
        ({
            let ixs = cfg.instructions(mint, lamports, space)->0;
            let authority = match cfg.authority {
                Some(a) => a,
                None => cfg.payer,
            };
            let freeze = match cfg.freeze_authority {
                Some(f) => seq![1u8] + f@,
                None => seq![0u8],
            };
            &&& ixs.len() == cfg.extensions.len() + 2
            &&& ixs.last().program_id == TOKEN_2022_PROGRAM_ID
            &&& ixs.last().accounts == seq![instruction::AccountMetaData { pubkey: mint, is_signer: false, is_writable: true }]
            &&& ixs.last().data == seq![20u8, cfg.decimals] + authority@ + freeze
            &&& ixs.last().data.len() == (if cfg.freeze_authority is Some { 67int } else { 35int })
            &&& ixs.last().data[1] == cfg.decimals
            &&& ixs.last().data.subrange(2, 34) == authority@
        }),
{
    let ixs = cfg.instructions(mint, lamports, space)->0;
    let authority = cfg.mint_authority();
    let data = ixs.last().data;
    assert(data == seq![20u8, cfg.decimals] + authority@ + instruction::packed_key_option(cfg.freeze_authority));
    assert(data.subrange(2, 34) =~= authority@);
}

/// The first extension, by its position among those added, whose parameters
/// the Token-2022 builder refused, with the builder's error.
#[derive(Debug)]
pub struct ExtensionRefused {
    pub index: usize,
    pub error: solana_program_error::ProgramError,
}

/// Builder for creating a Token-2022 mint with one or more extensions.
///
/// Extensions are added by chained `with_*` calls and set up in the order
/// they were added, followed by the base `initialize_mint2`.
pub struct CreateMintWithExtensions<'a> {
    svm: &'a mut litesvm::LiteSVM,
    payer: KeyedSigner<'a>,
    authority: Option<[u8; 32]>,
    freeze_authority: Option<[u8; 32]>,
    decimals: u8,
    extensions: Vec<MintExtensionInit>,
}

impl<'a> View for CreateMintWithExtensions<'a> {
    type V = MintBuilderView;

    closed spec fn view(&self) -> MintBuilderView {
        MintBuilderView {
            payer: self.payer@,
            authority: self.authority,
            freeze_authority: self.freeze_authority,
            decimals: self.decimals,
            extensions: self.extensions@,
        }
    }
}

impl<'a> CreateMintWithExtensions<'a> {
    /// Create a new builder: the payer's key, no authority override, no
    /// freeze authority, 9 decimals and no extensions.
    pub fn new(svm: &'a mut litesvm::LiteSVM, payer: &'a solana_keypair::Keypair) -> (b: Self)
        ensures
            b@.authority is None,
            b@.freeze_authority is None,
            b@.decimals == 9,
            b@.extensions == Seq::<MintExtensionInit>::empty(),
            b.payer_keypair() == payer,
    {
        CreateMintWithExtensions {
            svm,
            payer: KeyedSigner::new(payer),
            authority: None,
            freeze_authority: None,
            decimals: 9,
            extensions: Vec::new(),
        }
    }

    /// The keypair of the payer, which signs the transaction.
    pub closed spec fn payer_keypair(&self) -> &'a solana_keypair::Keypair {
        self.payer.signing_keypair()
    }

    /// The key of the payer.
    pub fn payer_key(&self) -> (k: [u8; 32])
        ensures
            k == self@.payer,
    {
        self.payer.key()
    }

    /// Override the mint authority (defaults to the payer).
    pub fn authority(self, authority: [u8; 32]) -> (b: Self)
        ensures
            b@ == (MintBuilderView { authority: Some(authority), ..self@ }),
            b.payer_keypair() == self.payer_keypair(),
    {
        let mut b = self;
        b.authority = Some(authority);
        b
    }

    /// Override the freeze authority (defaults to none).
    pub fn freeze_authority(self, freeze_authority: [u8; 32]) -> (b: Self)
        ensures
            b@ == (MintBuilderView { freeze_authority: Some(freeze_authority), ..self@ }),
            b.payer_keypair() == self.payer_keypair(),
    {
        let mut b = self;
        b.freeze_authority = Some(freeze_authority);
        b
    }

    /// Set the mint decimals (defaults to 9).
    pub fn decimals(self, decimals: u8) -> (b: Self)
        ensures
            b@ == (MintBuilderView { decimals, ..self@ }),
            b.payer_keypair() == self.payer_keypair(),
    {
        let mut b = self;
        b.decimals = decimals;
        b
    }

    /// Appends an extension.
    fn with_extension(self, e: MintExtensionInit) -> (b: Self)
        ensures
            b@ == self@.with_extension(e),
            b.payer_keypair() == self.payer_keypair(),
    {
        let mut b = self;
        b.extensions.push(e);
        b
    }

    /// The extension types of the added extensions, in order.
    pub fn extension_types(&self) -> (types: Vec<MintExtensionType>)
        ensures
            types@ == self@.extension_types(),
    {
        let mut types: Vec<MintExtensionType> = Vec::new();
        let mut i: usize = 0;
        while i < self.extensions.len()
            invariant
                0 <= i <= self.extensions@.len(),
                types@ == self.extensions@.take(i as int).map_values(|e: MintExtensionInit| e.kind()),
            decreases self.extensions@.len() - i,
        {
            types.push(self.extensions[i].extension_type());
            assert(self.extensions@.take(i + 1 as int) == self.extensions@.take(i as int).push(self.extensions@[i as int]));
            i = i + 1;
        }
        assert(self.extensions@.take(i as int) == self.extensions@);
        types
    }

    /// The data length of the new mint, as the Token-2022 interface
    /// computes it for the extension types added.
    pub fn data_len(&self) -> (n: usize)
        ensures
            n == extensions::mint_len_with(self@.extension_types()),
    {
        let extension_types = self.extension_types();
        match extensions::try_calculate_mint_len(&extension_types) {
            Ok(n) => n,
            Err(_) => vstd::pervasive::unreached(),
        }
    }

    /// The instructions that create `mint` with `lamports` and `space`: see
    /// [`MintBuilderView::instructions`]. Fails with the Token-2022 builder's
    /// error exactly where an extension's parameters are refused.
    pub fn instructions(&self, mint: &[u8; 32], lamports: u64, space: u64) -> (r: Result<
        Vec<InstructionData>,
        ExtensionRefused,
    >)
        ensures
            r is Ok <==> self@.extensions_accepted(),
            r is Ok ==> instruction::instructions_view(r->Ok_0@) == self@.instructions(*mint, lamports, space)->0,
            r matches Err(e) ==> e.index < self@.extensions.len() && !self@.extensions[e.index as int].accepted()
                && forall|j: int| 0 <= j < e.index ==> #[trigger] self@.extensions[j].accepted(),
    {
        let ghost cfg = self@;
        let ghost n = cfg.extensions.len();
        let ghost expected = Seq::new(n, |i: int| cfg.extensions[i].init_instruction(*mint)->0);
        let token_program = instruction::token_program_id();
        let mut ixs: Vec<InstructionData> = Vec::new();
        ixs.push(instruction::create_account(&self.payer.key(), mint, lamports, space, &token_program));
        let mut i: usize = 0;
        while i < self.extensions.len()
            invariant
                cfg == self@,
                n == cfg.extensions.len(),
                expected == Seq::new(n, |i: int| cfg.extensions[i].init_instruction(*mint)->0),
                0 <= i <= n,
                ixs@.len() == i + 1,
                ixs@[0]@ == instruction::create_account_instruction(cfg.payer, *mint, lamports, space, TOKEN_2022_PROGRAM_ID),
                forall|j: int| 0 <= j < i ==> #[trigger] cfg.extensions[j].accepted(),
                forall|j: int| 0 <= j < i ==> #[trigger] ixs@[j + 1]@ == expected[j],
            decreases n - i,
        {
            proof { extensions::lemma_init_instruction_shape(cfg.extensions[i as int], *mint); }
            match self.extensions[i].build_init_instruction(mint) {
                Ok(ix) => {
                    ixs.push(ix);
                },
                Err(error) => {
                    assert(!cfg.extensions[i as int].accepted());
                    return Err(ExtensionRefused { index: i, error });
                },
            }
            i = i + 1;
        }
        let authority = match self.authority {
            Some(a) => a,
            None => self.payer.key(),
        };
        let ix = match instruction::initialize_mint2(mint, &authority, self.freeze_authority, self.decimals) {
            Ok(ix) => ix,
            Err(_) => vstd::pervasive::unreached(),
        };
        ixs.push(ix);
        proof {
            assert(cfg.extensions_accepted());
            let want = cfg.instructions(*mint, lamports, space)->0;
            let got = instruction::instructions_view(ixs@);
            assert(want.len() == n + 2);
            assert forall|k: int| 0 <= k < got.len() implies got[k] == want[k] by {
                if 1 <= k <= n {
                    assert(ixs@[(k - 1) + 1]@ == expected[k - 1]);
                }
            }
            assert(got =~= want);
        }
        Ok(ixs)
    }

    /// The instructions that create `mint` funded with `lamports`, sized for
    /// the extensions added: [`Self::instructions`] with the space of
    /// [`Self::data_len`].
    pub fn plan(&self, mint: &[u8; 32], lamports: u64) -> (r: Result<Vec<InstructionData>, ExtensionRefused>)
        ensures
            r is Ok <==> self@.extensions_accepted(),
            r is Ok ==> instruction::instructions_view(r->Ok_0@) == self@.instructions(
                *mint,
                lamports,
                extensions::mint_len_with(self@.extension_types()) as u64,
            )->0,
            r matches Err(e) ==> e.index < self@.extensions.len() && !self@.extensions[e.index as int].accepted()
                && forall|j: int| 0 <= j < e.index ==> #[trigger] self@.extensions[j].accepted(),
    {
        let space = self.data_len();
        self.instructions(mint, lamports, space as u64)
    }

    /// The signers of the creation of the mint whose keypair `mint` holds: the
    /// payer, then the mint.
    pub fn signers<'b>(&self, mint: KeyedSigner<'b>) -> (v: Vec<KeyedSigner<'b>>)
        where 'a: 'b,
        ensures
            v@.len() == 2,
            outside::signer_key_list(v@) == seq![self@.payer, mint@],
            v@[0].signing_keypair() == self.payer_keypair(),
            v@[1] == mint,
    {
        let mut v: Vec<KeyedSigner<'b>> = Vec::new();
        v.push(self.payer);
        v.push(mint);
        assert(outside::signer_key_list(v@) =~= seq![self@.payer, mint@]);
        v
    }

    /// Build and submit the creation of the mint whose keypair `mint` holds:
    /// the instructions of [`Self::plan`] for its key, with the rent-exempt
    /// balance of [`Self::data_len`] bytes, signed by [`Self::signers`]; these
    /// are exactly the keys the instructions require. Returns the mint's key
    /// where the simulator accepts the transaction. Where an extension's
    /// parameters are refused, it fails before anything is submitted.
    ///
    /// Beside the result it gives, as a ghost value, what it handed to the
    /// transaction: the balance, the instructions and the signers' keys, in
    /// order; none where nothing was submitted.
    pub fn send_as<'b>(self, mint: KeyedSigner<'b>) -> (out: (
        Result<[u8; 32], litesvm::types::FailedTransactionMetadata>,
        Ghost<Option<(u64, Seq<InstructionView>, Seq<[u8; 32]>)>>,
    ))
        where 'a: 'b,
        ensures
            !self@.extensions_accepted() ==> out.0 is Err && out.1@ is None,
            self@.extensions_accepted() ==> (out.1@ matches Some((rent, ixs, keys)) && rent >= 1
                && ixs == self@.instructions(mint@, rent, extensions::mint_len_with(self@.extension_types()) as u64)->0
                && keys == seq![self@.payer, mint@]),
            out.0 matches Ok(k) ==> k == mint@,
    {
        let mint_pk = mint.key();
        let mint_size = self.data_len();
        let rent = outside::minimum_balance_for_rent_exemption(self.svm, mint_size);
        let instructions = match self.plan(&mint_pk, rent) {
            Ok(ixs) => ixs,
            Err(refused) => {
                return (Err(outside::failed_from_program_error(refused.error)), Ghost(None));
            },
        };
        let payer_pk = self.payer.key();
        let signers = self.signers(mint);
        let ghost submitted = (rent, instruction::instructions_view(instructions@), outside::signer_key_list(signers@));
        proof {
            let cfg = self@;
            let space = mint_size as u64;
            let ixs = cfg.instructions(mint_pk, rent, space);
            lemma_mint_signers(cfg, mint_pk, rent, space);
            assert(outside::signer_keys(signers@) =~= set![cfg.payer, mint_pk]) by {
                assert(signers@[0]@ == outside::signer_key_list(signers@)[0]);
                assert(signers@[1]@ == outside::signer_key_list(signers@)[1]);
            }
            let four = set![cfg.payer, mint_pk, TOKEN_2022_PROGRAM_ID, SYSTEM_PROGRAM_ID];
            assert(four.len() <= 4);
            vstd::set_lib::lemma_len_subset(instruction::message_keys(ixs->0, cfg.payer), four);
        }
        let blockhash = outside::latest_blockhash(self.svm);
        let tx = outside::new_signed_with_payer(&instructions, &payer_pk, &signers, blockhash);
        let r = match outside::send_transaction(self.svm, tx) {
            Ok(_) => Ok(mint_pk),
            Err(e) => Err(e),
        };
        (r, Ghost(Some(submitted)))
    }

    /// Build and submit the create_account + extension set-up +
    /// `initialize_mint2` sequence for a fresh mint keypair, signed by the
    /// payer and the mint: [`Self::send_as`] with a new random keypair.
    /// Returns the new mint's key.
    pub fn send(self) -> (r: Result<[u8; 32], litesvm::types::FailedTransactionMetadata>)
        ensures
            !self@.extensions_accepted() ==> r is Err,
    {
        let mint_kp = outside::new_keypair();
        let mint = KeyedSigner::new(&mint_kp);
        let (r, _) = self.send_as(mint);
        r
    }

    /// Add the `TransferFeeConfig` extension.
    pub fn with_transfer_fee(self, fee_basis_points: u16, maximum_fee: u64) -> (b: Self)
        ensures
            b@ == self@.with_extension(MintExtensionInit::TransferFee { fee_basis_points, maximum_fee }),
            b.payer_keypair() == self.payer_keypair(),
    {
        self.with_extension(MintExtensionInit::TransferFee { fee_basis_points, maximum_fee })
    }

    /// Add the `TransferHook` extension.
    pub fn with_transfer_hook(self, program_id: [u8; 32]) -> (b: Self)
        ensures
            b@ == self@.with_extension(MintExtensionInit::TransferHook { program_id }),
            b.payer_keypair() == self.payer_keypair(),
    {
        self.with_extension(MintExtensionInit::TransferHook { program_id })
    }

    /// Add the `MintCloseAuthority` extension.
    pub fn with_mint_close_authority(self, authority: [u8; 32]) -> (b: Self)
        ensures
            b@ == self@.with_extension(MintExtensionInit::MintCloseAuthority { authority }),
            b.payer_keypair() == self.payer_keypair(),
    {
        self.with_extension(MintExtensionInit::MintCloseAuthority { authority })
    }

    /// Add the `MetadataPointer` extension.
    pub fn with_metadata_pointer(self, metadata_address: [u8; 32]) -> (b: Self)
        ensures
            b@ == self@.with_extension(MintExtensionInit::MetadataPointer { metadata_address }),
            b.payer_keypair() == self.payer_keypair(),
    {
        self.with_extension(MintExtensionInit::MetadataPointer { metadata_address })
    }

    /// Add the `NonTransferable` extension.
    pub fn with_non_transferable(self) -> (b: Self)
        ensures
            b@ == self@.with_extension(MintExtensionInit::NonTransferable),
            b.payer_keypair() == self.payer_keypair(),
    {
        self.with_extension(MintExtensionInit::NonTransferable)
    }

    /// Add the `PermanentDelegate` extension.
    pub fn with_permanent_delegate(self, delegate: [u8; 32]) -> (b: Self)
        ensures
            b@ == self@.with_extension(MintExtensionInit::PermanentDelegate { delegate }),
            b.payer_keypair() == self.payer_keypair(),
    {
        self.with_extension(MintExtensionInit::PermanentDelegate { delegate })
    }

    /// Add the `InterestBearingConfig` extension.
    pub fn with_interest_bearing(self, rate_authority: [u8; 32], rate: i16) -> (b: Self)
        ensures
            b@ == self@.with_extension(MintExtensionInit::InterestBearing { rate_authority, rate }),
            b.payer_keypair() == self.payer_keypair(),
    {
        self.with_extension(MintExtensionInit::InterestBearing { rate_authority, rate })
    }
}

} // verus!
