//! `CreateAccountWithExtensions` builder.

use vstd::prelude::*;
use crate::extensions::{self, immutable_owner, AccountExtensionInit, AccountExtensionType};
use crate::instruction::{self, AccountMetaData, InstructionData, InstructionView, TOKEN_2022_PROGRAM_ID, SYSTEM_PROGRAM_ID};
use crate::keys::{self, KeyedSigner};
use crate::outside;

verus! {

/// The configuration an account builder has gathered.
pub struct AccountBuilderView {
    /// The key of the payer, which funds and signs the transaction.
    pub payer: [u8; 32],
    /// The mint of the new token account.
    pub mint: [u8; 32],
    /// The key of the owner, when overridden.
    pub owner: Option<[u8; 32]>,
    /// The extensions, in the order they were added.
    pub extensions: Seq<AccountExtensionInit>,
}

/// The set-up instructions of the pre-init extensions among `exts`, in order.
pub open spec fn pre_init_instructions(exts: Seq<AccountExtensionInit>, account: [u8; 32]) -> Seq<InstructionView>
    decreases exts.len(),
{
    if exts.len() == 0 {
        seq![]
    } else {
        let rest = pre_init_instructions(exts.drop_last(), account);
        if exts.last().is_pre_init() {
            rest.push(immutable_owner::init_instruction(account)->0)
        } else {
            rest
        }
    }
}

/// The enable instructions of the post-init extensions among `exts`, in
/// order, each signed by `owner`.
pub open spec fn post_init_instructions(
    exts: Seq<AccountExtensionInit>,
    account: [u8; 32],
    owner: [u8; 32],
) -> Seq<InstructionView>
    decreases exts.len(),
{
    if exts.len() == 0 {
        seq![]
    } else {
        let rest = post_init_instructions(exts.drop_last(), account, owner);
        if exts.last().is_pre_init() {
            rest
        } else {
            rest.push(exts.last().enable_instruction(account, owner)->0)
        }
    }
}

/// The bytes of an account that was read, if any.
pub open spec fn bytes_view(data: Option<Vec<u8>>) -> Option<Seq<u8>> {
    match data {
        Some(d) => Some(d@),
        None => None,
    }
}

/// The data length of a token account of the mint whose account holds
/// `mint_data`, carrying the extensions of `types`: as Token-2022 computes it
/// for those extensions together with the ones the mint requires of its
/// accounts. Where the mint's account could not be read, or its bytes are no
/// mint, the length for `types` alone.
pub open spec fn account_size(mint_data: Option<Seq<u8>>, types: Seq<AccountExtensionType>) -> nat {
    match mint_data {
        Some(d) => match extensions::account_len_from_mint_data(d, types) {
            Some(n) => n as nat,
            None => extensions::account_len_with(types),
        },
        None => extensions::account_len_with(types),
    }
}

/// Whether some extension among `exts` is enabled after `initialize_account3`.
pub open spec fn has_post_init(exts: Seq<AccountExtensionInit>) -> bool {
    exists|i: int| 0 <= i < exts.len() && !(#[trigger] exts[i]).is_pre_init()
}

impl AccountBuilderView {
    /// The configuration with `e` added after the extensions already there.
    pub open spec fn with_extension(self, e: AccountExtensionInit) -> AccountBuilderView {
        AccountBuilderView { extensions: self.extensions.push(e), ..self }
    }

    /// The owner of the token account: the override, or else the payer.
    pub open spec fn owner_key(self) -> [u8; 32] {
        match self.owner {
            Some(o) => o,
            None => self.payer,
        }
    }

    /// The extension types of the extensions, in order.
    pub open spec fn extension_types(self) -> Seq<AccountExtensionType> {
        self.extensions.map_values(|e: AccountExtensionInit| e.kind())
    }

    /// Whether the owner must sign besides the payer: some extension is
    /// enabled after initialization and the owner is a key other than the
    /// payer's.
    pub open spec fn needs_owner_signer(self) -> bool {
        has_post_init(self.extensions) && self.owner is Some && self.owner->0 != self.payer
    }

    /// The keys that sign the creation of `account`: the payer, the new
    /// account, and the owner where [`Self::needs_owner_signer`] holds.
    pub open spec fn signers(self, account: [u8; 32]) -> Seq<[u8; 32]> {
        if self.needs_owner_signer() {
            seq![self.payer, account, self.owner->0]
        } else {
            seq![self.payer, account]
        }
    }

    /// The instructions that create the token `account`: the account creation
    /// funded by the payer with `lamports` and `space` bytes owned by
    /// Token-2022, the set-up of each pre-init extension, `initialize_account3`
    /// for the mint and owner, then the enabling of each post-init extension,
    /// both groups in the order they were added.
    pub open spec fn instructions(self, account: [u8; 32], lamports: u64, space: u64) -> Seq<InstructionView> {
        seq![instruction::create_account_instruction(self.payer, account, lamports, space, TOKEN_2022_PROGRAM_ID)]
            + pre_init_instructions(self.extensions, account)
            + seq![instruction::initialize_account3_instruction(account, self.mint, self.owner_key())]
            + post_init_instructions(self.extensions, account, self.owner_key())
    }
}

/// Each pre-init instruction is the immutable-owner set-up of `account`,
/// which touches only that account, as a writable non-signer.
pub proof fn lemma_pre_init_shape(exts: Seq<AccountExtensionInit>, account: [u8; 32])
    ensures
        forall|k: int| 0 <= k < pre_init_instructions(exts, account).len() ==>
            (#[trigger] pre_init_instructions(exts, account)[k]).program_id == TOKEN_2022_PROGRAM_ID
                && pre_init_instructions(exts, account)[k].accounts == seq![instruction::meta_writable(account, false)],
    decreases exts.len(),
{
    if exts.len() > 0 {
        let rest = pre_init_instructions(exts.drop_last(), account);
        lemma_pre_init_shape(exts.drop_last(), account);
        let all = pre_init_instructions(exts, account);
        assert forall|k: int| 0 <= k < all.len() implies (#[trigger] all[k]).program_id == TOKEN_2022_PROGRAM_ID
            && all[k].accounts == seq![instruction::meta_writable(account, false)] by {
            if k < rest.len() {
                assert(all[k] == rest[k]);
            }
        }
    }
}

/// Each post-init instruction touches `account`, writable, and `owner`, as
/// its one signer; there is one exactly when some extension is post-init.
pub proof fn lemma_post_init_shape(exts: Seq<AccountExtensionInit>, account: [u8; 32], owner: [u8; 32])
    ensures
        post_init_instructions(exts, account, owner).len() > 0 <==> has_post_init(exts),
        forall|k: int| 0 <= k < post_init_instructions(exts, account, owner).len() ==>
            (#[trigger] post_init_instructions(exts, account, owner)[k]).program_id == TOKEN_2022_PROGRAM_ID
                && post_init_instructions(exts, account, owner)[k].accounts
                    == seq![instruction::meta_writable(account, false), instruction::meta_readonly(owner, true)],
    decreases exts.len(),
{
    if exts.len() > 0 {
        let init = exts.drop_last();
        lemma_post_init_shape(init, account, owner);
        if has_post_init(init) {
            let i = choose|i: int| 0 <= i < init.len() && !(#[trigger] init[i]).is_pre_init();
            assert(!exts[i].is_pre_init());
        }
        if has_post_init(exts) && exts.last().is_pre_init() {
            let i = choose|i: int| 0 <= i < exts.len() && !(#[trigger] exts[i]).is_pre_init();
            assert(i != exts.len() - 1);
            assert(!init[i].is_pre_init());
        }
        if !exts.last().is_pre_init() {
            assert(!exts[exts.len() - 1].is_pre_init());
        }
        let rest = post_init_instructions(init, account, owner);
        let all = post_init_instructions(exts, account, owner);
        assert forall|k: int| 0 <= k < all.len() implies (#[trigger] all[k]).program_id == TOKEN_2022_PROGRAM_ID
            && all[k].accounts == seq![instruction::meta_writable(account, false), instruction::meta_readonly(owner, true)] by {
            if k < rest.len() {
                assert(all[k] == rest[k]);
            }
        }
    }
}

/// Every extension contributes exactly one instruction: a pre-init one
/// before `initialize_account3` or a post-init one after it.
pub proof fn lemma_account_instruction_count(exts: Seq<AccountExtensionInit>, account: [u8; 32], owner: [u8; 32])
    ensures
        pre_init_instructions(exts, account).len() + post_init_instructions(exts, account, owner).len() == exts.len(),
    decreases exts.len(),
{
    if exts.len() > 0 {
        lemma_account_instruction_count(exts.drop_last(), account, owner);
    }
}

/// The keys that must sign the creation of a token account are exactly the
/// payer, the new account, and, where some extension is enabled after
/// initialization, the owner; [`AccountBuilderView::signers`] lists exactly
/// these. The message lists no keys besides them, the mint and the system and
/// Token-2022 programs.
pub proof fn lemma_account_signers(cfg: AccountBuilderView, account: [u8; 32], lamports: u64, space: u64)
    ensures
        instruction::required_signers(cfg.instructions(account, lamports, space), cfg.payer)
            == cfg.signers(account).to_set(),
        instruction::message_keys(cfg.instructions(account, lamports, space), cfg.payer).subset_of(
            set![cfg.payer, account, cfg.mint, cfg.owner_key(), TOKEN_2022_PROGRAM_ID, SYSTEM_PROGRAM_ID],
        ),
{
    let owner = cfg.owner_key();
    let ixs = cfg.instructions(account, lamports, space);
    let pre = pre_init_instructions(cfg.extensions, account);
    let post = post_init_instructions(cfg.extensions, account, owner);
    lemma_pre_init_shape(cfg.extensions, account);
    lemma_post_init_shape(cfg.extensions, account, owner);
    let p: int = pre.len() as int;
    assert(ixs.len() == p + post.len() + 2);
    assert forall|i: int| 1 <= i <= p implies #[trigger] ixs[i] == pre[i - 1] by {}
    assert forall|i: int| p + 2 <= i < ixs.len() implies #[trigger] ixs[i] == post[i - p - 2] by {}
    assert(ixs[p + 1] == instruction::initialize_account3_instruction(account, cfg.mint, owner));
    let required = instruction::required_signers(ixs, cfg.payer);
    let expected = set![cfg.payer, account].union(if post.len() > 0 { set![owner] } else { Set::empty() });
    assert forall|k: [u8; 32]| required.contains(k) <==> expected.contains(k) by {
        if k == account {
            assert(ixs[0].accounts[1].is_signer);
        }
        if post.len() > 0 && k == owner {
            assert(ixs[p + 2] == post[0]);
            assert(ixs[p + 2].accounts[1].is_signer);
        }
        if required.contains(k) && k != cfg.payer {
            let (i, j) = choose|i: int, j: int|
                0 <= i < ixs.len() && 0 <= j < ixs[i].accounts.len()
                    && #[trigger] ixs[i].accounts[j].is_signer
                    && ixs[i].accounts[j].pubkey == k;
            if 1 <= i <= p {
                assert(ixs[i] == pre[i - 1]);
                assert(pre[i - 1].accounts == seq![instruction::meta_writable(account, false)]);
            } else if p + 2 <= i {
                assert(ixs[i] == post[i - p - 2]);
                assert(post[i - p - 2].accounts
                    == seq![instruction::meta_writable(account, false), instruction::meta_readonly(owner, true)]);
            }
        }
    }
    assert(required =~= expected);
    assert(expected =~= cfg.signers(account).to_set()) by {
        let sig = cfg.signers(account);
        assert forall|k: [u8; 32]| expected.contains(k) <==> sig.contains(k) by {
            if sig.contains(k) {
                let i = choose|i: int| 0 <= i < sig.len() && sig[i] == k;
            }
            if k == cfg.payer { assert(sig[0] == k); }
            if k == account { assert(sig[1] == k); }
            if post.len() > 0 && k == owner && cfg.needs_owner_signer() { assert(sig[2] == k); }
        }
    }
    let keys = instruction::message_keys(ixs, cfg.payer);
    let six = set![cfg.payer, account, cfg.mint, owner, TOKEN_2022_PROGRAM_ID, SYSTEM_PROGRAM_ID];
    assert forall|k: [u8; 32]| keys.contains(k) implies six.contains(k) by {
        if k != cfg.payer {
            let i = choose|i: int|
                0 <= i < ixs.len() && (#[trigger] ixs[i].program_id == k || exists|j: int|
                    0 <= j < ixs[i].accounts.len() && #[trigger] ixs[i].accounts[j].pubkey == k);
            if 1 <= i <= p {
                assert(ixs[i] == pre[i - 1]);
                assert(pre[i - 1].accounts == seq![instruction::meta_writable(account, false)]);
            } else if p + 2 <= i {
                assert(ixs[i] == post[i - p - 2]);
                assert(post[i - p - 2].accounts
                    == seq![instruction::meta_writable(account, false), instruction::meta_readonly(owner, true)]);
            }
        }
    }
}

/// In the creation of a token account, `initialize_account3` comes right
/// after the account creation and the pre-init set-ups: under Token-2022, on
/// the account (writable) and the mint (read-only), neither signing, with data
/// `[18]` and the owner override's key, or the payer's where none was given,
/// whatever extensions were added. Every set-up before it touches only the
/// account and every enable after it is signed by that same owner.
pub proof fn lemma_account_initialization(cfg: AccountBuilderView, account: [u8; 32], lamports: u64, space: u64)
    ensures
        ({
            let ixs = cfg.instructions(account, lamports, space);
            let p: int = pre_init_instructions(cfg.extensions, account).len() as int;
            let owner = match cfg.owner {
                Some(o) => o,
                None => cfg.payer,
            };
            &&& ixs.len() == cfg.extensions.len() + 2
            &&& ixs[p + 1].program_id == TOKEN_2022_PROGRAM_ID
            &&& ixs[p + 1].accounts == seq![
                AccountMetaData { pubkey: account, is_signer: false, is_writable: true },
                AccountMetaData { pubkey: cfg.mint, is_signer: false, is_writable: false },
            ]
            &&& ixs[p + 1].data == seq![18u8] + owner@
            &&& forall|i: int| 1 <= i <= p ==> (#[trigger] ixs[i]).accounts
                == seq![AccountMetaData { pubkey: account, is_signer: false, is_writable: true }]
            &&& forall|i: int| p + 2 <= i < ixs.len() ==> (#[trigger] ixs[i]).accounts
                == seq![
                    AccountMetaData { pubkey: account, is_signer: false, is_writable: true },
                    AccountMetaData { pubkey: owner, is_signer: true, is_writable: false },
                ]
        }),
{
    let ixs = cfg.instructions(account, lamports, space);
    let owner = cfg.owner_key();
    let pre = pre_init_instructions(cfg.extensions, account);
    let post = post_init_instructions(cfg.extensions, account, owner);
    let p: int = pre.len() as int;
    lemma_pre_init_shape(cfg.extensions, account);
    lemma_post_init_shape(cfg.extensions, account, owner);
    lemma_account_instruction_count(cfg.extensions, account, owner);
    assert(ixs[p + 1] == instruction::initialize_account3_instruction(account, cfg.mint, owner));
    assert forall|i: int| 1 <= i <= p implies (#[trigger] ixs[i]).accounts
        == seq![AccountMetaData { pubkey: account, is_signer: false, is_writable: true }] by {
        assert(ixs[i] == pre[i - 1]);
    }
    assert forall|i: int| p + 2 <= i < ixs.len() implies (#[trigger] ixs[i]).accounts
        == seq![
            AccountMetaData { pubkey: account, is_signer: false, is_writable: true },
            AccountMetaData { pubkey: owner, is_signer: true, is_writable: false },
        ] by {
        assert(ixs[i] == post[i - p - 2]);
    }
}

/// Builder for creating a Token-2022 token account with one or more extensions.
///
/// This creates a non-associated account using an ephemeral keypair.
pub struct CreateAccountWithExtensions<'a> {
    svm: &'a mut litesvm::LiteSVM,
    payer: KeyedSigner<'a>,
    mint: [u8; 32],
    owner: Option<KeyedSigner<'a>>,
    extensions: Vec<AccountExtensionInit>,
}

impl<'a> View for CreateAccountWithExtensions<'a> {
    type V = AccountBuilderView;

    closed spec fn view(&self) -> AccountBuilderView {
        AccountBuilderView {
            payer: self.payer@,
            mint: self.mint,
            owner: match self.owner {
                Some(o) => Some(o@),
                None => None,
            },
            extensions: self.extensions@,
        }
    }
}

impl<'a> CreateAccountWithExtensions<'a> {
    /// Create a new builder. Defaults: owner = payer, no extensions.
    pub fn new(svm: &'a mut litesvm::LiteSVM, payer: &'a solana_keypair::Keypair, mint: &[u8; 32]) -> (b: Self)
        ensures
            b@.mint == *mint,
            b@.owner is None,
            b@.extensions == Seq::<AccountExtensionInit>::empty(),
            b.payer_keypair() == payer,
            b.owner_keypair() is None,
    {
        CreateAccountWithExtensions {
            svm,
            payer: KeyedSigner::new(payer),
            mint: *mint,
            owner: None,
            extensions: Vec::new(),
        }
    }

    /// The keypair of the payer, which signs the transaction.
    pub closed spec fn payer_keypair(&self) -> &'a solana_keypair::Keypair {
        self.payer.signing_keypair()
    }

    /// The keypair of the owner, when overridden.
    pub closed spec fn owner_keypair(&self) -> Option<&'a solana_keypair::Keypair> {
        match self.owner {
            Some(o) => Some(o.signing_keypair()),
            None => None,
        }
    }

    /// The key of the payer.
    pub fn payer_key(&self) -> (k: [u8; 32])
        ensures
            k == self@.payer,
    {
        self.payer.key()
    }

    /// Override the account owner with `owner`, which signs the enabling of
    /// post-init extensions; a later call replaces an earlier one.
    pub fn owner(self, owner: &'a solana_keypair::Keypair) -> (b: Self)
        ensures
            b.owner_keypair() == Some(owner),
            b.payer_keypair() == self.payer_keypair(),
            b@.owner is Some,
            b@ == (AccountBuilderView { owner: b@.owner, ..self@ }),
    {
        let mut b = self;
        b.owner = Some(KeyedSigner::new(owner));
        b
    }

    /// Appends an extension.
    fn with_extension(self, e: AccountExtensionInit) -> (b: Self)
        ensures
            b@ == self@.with_extension(e),
            b.payer_keypair() == self.payer_keypair(),
            b.owner_keypair() == self.owner_keypair(),
    {
        let mut b = self;
        b.extensions.push(e);
        b
    }

    /// Add the `ImmutableOwner` extension (pre-init).
    pub fn with_immutable_owner(self) -> (b: Self)
        ensures
            b@ == self@.with_extension(AccountExtensionInit::ImmutableOwner),
            b.payer_keypair() == self.payer_keypair(),
            b.owner_keypair() == self.owner_keypair(),
    {
        self.with_extension(AccountExtensionInit::ImmutableOwner)
    }

    /// Add the `MemoTransfer` extension (post-init enable; owner-signed).
    pub fn with_memo_transfer(self) -> (b: Self)
        ensures
            b@ == self@.with_extension(AccountExtensionInit::MemoTransfer),
            b.payer_keypair() == self.payer_keypair(),
            b.owner_keypair() == self.owner_keypair(),
    {
        self.with_extension(AccountExtensionInit::MemoTransfer)
    }

    /// Add the `CpiGuard` extension (post-init enable; owner-signed).
    pub fn with_cpi_guard(self) -> (b: Self)
        ensures
            b@ == self@.with_extension(AccountExtensionInit::CpiGuard),
            b.payer_keypair() == self.payer_keypair(),
            b.owner_keypair() == self.owner_keypair(),
    {
        self.with_extension(AccountExtensionInit::CpiGuard)
    }

    /// The owner of the new account: the override's key, or else the payer's.
    pub fn owner_key(&self) -> (k: [u8; 32])
        ensures
            k == self@.owner_key(),
    {
        match &self.owner {
            Some(o) => o.key(),
            None => self.payer.key(),
        }
    }

    /// The extension types of the added extensions, in order.
    pub fn extension_types(&self) -> (types: Vec<AccountExtensionType>)
        ensures
            types@ == self@.extension_types(),
    {
        let mut types: Vec<AccountExtensionType> = Vec::new();
        let mut i: usize = 0;
        while i < self.extensions.len()
            invariant
                0 <= i <= self.extensions@.len(),
                types@ == self.extensions@.take(i as int).map_values(|e: AccountExtensionInit| e.kind()),
            decreases self.extensions@.len() - i,
        {
            types.push(self.extensions[i].extension_type());
            assert(self.extensions@.take(i + 1 as int) == self.extensions@.take(i as int).push(self.extensions@[i as int]));
            i = i + 1;
        }
        assert(self.extensions@.take(i as int) == self.extensions@);
        types
    }

    /// The data length of the new token account given the bytes of the mint's
    /// account, if it could be read: see [`account_size`].
    /// It is never below the length for the extensions added alone.
    pub fn data_len_for_mint(&self, mint_data: &Option<Vec<u8>>) -> (n: usize)
        ensures
            n == account_size(bytes_view(*mint_data), self@.extension_types()),
            n >= extensions::account_len_with(self@.extension_types()),
    {
        let extension_types = self.extension_types();
        let own = match extensions::try_calculate_account_len(&extension_types) {
            Ok(n) => n,
            Err(_) => vstd::pervasive::unreached(),
        };
        match mint_data {
            Some(d) => match extensions::try_calculate_account_len_from_mint_data(d, &extension_types) {
                Ok(n) => n,
                Err(_) => own,
            },
            None => own,
        }
    }

    /// The data length of the new token account, for the mint's account as
    /// the simulator holds it now: see [`Self::data_len_for_mint`].
    pub fn data_len(&self) -> (n: usize)
        ensures
            exists|d: Option<Seq<u8>>| n == account_size(d, self@.extension_types()),
            n >= extensions::account_len_with(self@.extension_types()),
    {
        let mint_data = outside::account_data(self.svm, &self.mint);
        self.data_len_for_mint(&mint_data)
    }

    /// The instructions that create the token `account` with `lamports` and
    /// `space`: see [`AccountBuilderView::instructions`]. The Token-2022
    /// builders accept every account extension, so this cannot fail.
    pub fn instructions(&self, account: &[u8; 32], lamports: u64, space: u64) -> (ixs: Vec<InstructionData>)
        ensures
            instruction::instructions_view(ixs@) == self@.instructions(*account, lamports, space),
    {
        let ghost cfg = self@;
        let ghost exts = cfg.extensions;
        let token_program = instruction::token_program_id();
        let owner = self.owner_key();
        let mut ixs: Vec<InstructionData> = Vec::new();
        ixs.push(instruction::create_account(&self.payer.key(), account, lamports, space, &token_program));
        let ghost head = seq![instruction::create_account_instruction(cfg.payer, *account, lamports, space, TOKEN_2022_PROGRAM_ID)];
        assert(instruction::instructions_view(ixs@) =~= head + pre_init_instructions(exts.take(0), *account));
        let mut i: usize = 0;
        while i < self.extensions.len()
            invariant
                cfg == self@,
                exts == cfg.extensions,
                0 <= i <= exts.len(),
                instruction::instructions_view(ixs@) == head + pre_init_instructions(exts.take(i as int), *account),
            decreases exts.len() - i,
        {
            let ghost before = ixs@;
            assert(exts.take(i + 1 as int).drop_last() =~= exts.take(i as int));
            assert(exts.take(i + 1 as int).last() == exts[i as int]);
            if self.extensions[i].pre_init() {
                let ix = match immutable_owner::build_init_instruction(account) {
                    Ok(ix) => ix,
                    Err(_) => vstd::pervasive::unreached(),
                };
                ixs.push(ix);
                assert(instruction::instructions_view(ixs@) =~= instruction::instructions_view(before).push(ixs@.last()@));
            }
            i = i + 1;
        }
        assert(exts.take(i as int) =~= exts);
        let ghost middle = instruction::instructions_view(ixs@);
        let ix = match instruction::initialize_account3(account, &self.mint, &owner) {
            Ok(ix) => ix,
            Err(_) => vstd::pervasive::unreached(),
        };
        ixs.push(ix);
        let ghost body = middle.push(instruction::initialize_account3_instruction(*account, cfg.mint, owner));
        assert(instruction::instructions_view(ixs@) =~= body + post_init_instructions(exts.take(0), *account, owner));
        let mut i: usize = 0;
        while i < self.extensions.len()
            invariant
                cfg == self@,
                exts == cfg.extensions,
                owner == cfg.owner_key(),
                0 <= i <= exts.len(),
                instruction::instructions_view(ixs@) == body + post_init_instructions(exts.take(i as int), *account, owner),
            decreases exts.len() - i,
        {
            let ghost before = ixs@;
            assert(exts.take(i + 1 as int).drop_last() =~= exts.take(i as int));
            assert(exts.take(i + 1 as int).last() == exts[i as int]);
            if !self.extensions[i].pre_init() {
                let ix = match self.extensions[i].build_enable_instruction(account, &owner) {
                    Ok(ix) => ix,
                    Err(_) => vstd::pervasive::unreached(),
                };
                ixs.push(ix);
                assert(instruction::instructions_view(ixs@) =~= instruction::instructions_view(before).push(ixs@.last()@));
            }
            i = i + 1;
        }
        assert(exts.take(i as int) =~= exts);
        assert(instruction::instructions_view(ixs@) =~= cfg.instructions(*account, lamports, space));
        ixs
    }

    /// The instructions that create the token `account` funded with
    /// `lamports`, given the bytes of the mint's account, if they could be
    /// read: [`Self::instructions`] with the space of
    /// [`Self::data_len_for_mint`].
    pub fn plan(&self, account: &[u8; 32], lamports: u64, mint_data: &Option<Vec<u8>>) -> (ixs: Vec<InstructionData>)
        ensures
            instruction::instructions_view(ixs@) == self@.instructions(
                *account,
                lamports,
                account_size(bytes_view(*mint_data), self@.extension_types()) as u64,
            ),
    {
        let space = self.data_len_for_mint(mint_data);
        self.instructions(account, lamports, space as u64)
    }

    /// The signers of the creation of the token account whose keypair
    /// `account` holds: the payer, the account, and the owner's keypair where
    /// [`Self::needs_owner_signer`] holds; their keys are
    /// [`AccountBuilderView::signers`].
    pub fn signers<'b>(&self, account: KeyedSigner<'b>) -> (v: Vec<KeyedSigner<'b>>)
        where 'a: 'b,
        ensures
            v@.len() == self@.signers(account@).len(),
            outside::signer_key_list(v@) == self@.signers(account@),
            v@[0].signing_keypair() == self.payer_keypair(),
            v@[1] == account,
            self@.needs_owner_signer() ==> self.owner_keypair() == Some(v@[2].signing_keypair()),
    {
        let mut v: Vec<KeyedSigner<'b>> = Vec::new();
        v.push(self.payer);
        v.push(account);
        if self.needs_owner_signer() {
            match self.owner {
                Some(owner) => {
                    v.push(owner);
                },
                None => {},
            }
        }
        assert(outside::signer_key_list(v@) =~= self@.signers(account@));
        v
    }

    /// Build and submit the creation of the token account whose keypair
    /// `account` holds: the instructions of [`Self::plan`] for its key and the
    /// mint's account as the simulator holds it, with the rent-exempt balance
    /// of [`Self::data_len_for_mint`] bytes, signed by
    /// [`Self::signers`]; these are exactly the keys the instructions require.
    /// Returns the account's key where the simulator accepts the transaction.
    ///
    /// Beside the result it gives, as a ghost value, what it handed to the
    /// transaction: the balance, the mint's bytes it sized the account by,
    /// the instructions and the signers' keys, in order.
    pub fn send_as<'b>(self, account: KeyedSigner<'b>) -> (out: (
        Result<[u8; 32], litesvm::types::FailedTransactionMetadata>,
        Ghost<(u64, Option<Seq<u8>>, Seq<InstructionView>, Seq<[u8; 32]>)>,
    ))
        where 'a: 'b,
        ensures
            out.1@.0 >= 1,
            out.1@.2 == self@.instructions(account@, out.1@.0, account_size(out.1@.1, self@.extension_types()) as u64),
            out.1@.3 == self@.signers(account@),
            out.0 matches Ok(k) ==> k == account@,
    {
        let account_pk = account.key();
        let owner_pk = self.owner_key();
        let mint_data = outside::account_data(self.svm, &self.mint);
        let account_size = self.data_len_for_mint(&mint_data);
        let rent = outside::minimum_balance_for_rent_exemption(self.svm, account_size);
        let instructions = self.plan(&account_pk, rent, &mint_data);
        let payer_pk = self.payer.key();
        let signers = self.signers(account);
        let ghost submitted = (
            rent,
            bytes_view(mint_data),
            instruction::instructions_view(instructions@),
            outside::signer_key_list(signers@),
        );
        proof {
            let cfg = self@;
            let space = account_size as u64;
            let ixs = cfg.instructions(account_pk, rent, space);
            lemma_account_signers(cfg, account_pk, rent, space);
            let sig = cfg.signers(account_pk);
            assert(outside::signer_keys(signers@) =~= sig.to_set()) by {
                assert forall|k: [u8; 32]| outside::signer_keys(signers@).contains(k) <==> sig.contains(k) by {
                    if outside::signer_keys(signers@).contains(k) {
                        let i = choose|i: int| 0 <= i < signers@.len() && #[trigger] signers@[i]@ == k;
                        assert(sig[i] == outside::signer_key_list(signers@)[i]);
                    }
                    if sig.contains(k) {
                        let i = choose|i: int| 0 <= i < sig.len() && sig[i] == k;
                        assert(signers@[i]@ == outside::signer_key_list(signers@)[i]);
                    }
                }
            }
            let six = set![cfg.payer, account_pk, cfg.mint, owner_pk, TOKEN_2022_PROGRAM_ID, SYSTEM_PROGRAM_ID];
            assert(six.len() <= 6);
            vstd::set_lib::lemma_len_subset(instruction::message_keys(ixs, cfg.payer), six);
        }
        let blockhash = outside::latest_blockhash(self.svm);
        let tx = outside::new_signed_with_payer(&instructions, &payer_pk, &signers, blockhash);
        let r = match outside::send_transaction(self.svm, tx) {
            Ok(_) => Ok(account_pk),
            Err(e) => Err(e),
        };
        (r, Ghost(submitted))
    }

    /// Build and submit the create_account + pre-init + `initialize_account3`
    /// + post-init sequence for a fresh account keypair: [`Self::send_as`]
    /// with a new random keypair. Returns the new account's key. The key is
    /// drawn at random and the outcome is the simulator's, so what holds of
    /// the result is stated on [`Self::send_as`], for the keypair given.
    pub fn send(self) -> (r: Result<[u8; 32], litesvm::types::FailedTransactionMetadata>) {
        let account_kp = outside::new_keypair();
        let account = KeyedSigner::new(&account_kp);
        let (r, _) = self.send_as(account);
        r
    }

    /// Whether the owner must sign besides the payer: some extension is
    /// enabled after initialization and the owner was overridden by a keypair
    /// whose key differs from the payer's.
    pub fn needs_owner_signer(&self) -> (b: bool)
        ensures
            b == self@.needs_owner_signer(),
    {
        let mut any_post_init = false;
        let mut i: usize = 0;
        while i < self.extensions.len()
            invariant
                0 <= i <= self.extensions@.len(),
                any_post_init == exists|j: int| 0 <= j < i && !(#[trigger] self.extensions@[j]).is_pre_init(),
            decreases self.extensions@.len() - i,
        {
            if !self.extensions[i].pre_init() {
                any_post_init = true;
            }
            i = i + 1;
        }
        any_post_init && match &self.owner {
            Some(o) => !keys::keys_equal(&o.key(), &self.payer.key()),
            None => false,
        }
    }
}

} // verus!
