//! Instruction handlers over plain models of the accounts a call touches.
//!
//! Every handler is a pure state transition: it validates the caller-supplied
//! accounts, rewrites the repository region, and — for a purchase — returns
//! the delegated steps (token move, metadata rewrite, native payment) as a
//! [`Settlement`] order list.  A handler either applies its whole effect or
//! returns an error with the repository untouched; the delegated steps of an
//! issued settlement are carried out by the surrounding host, whose
//! transaction model undoes every effect of an invocation that fails.

use vstd::prelude::*;

use crate::adapters::{
    create_address_with_seed, derived_address, metadata_mint, parse_text_address,
    read_metadata_mint, text_address, token_account_parses, token_holder_of, token_mint_of,
    unpack_token_account,
};
use crate::codec::{
    append_bytes, get_nft_data_from_repository, lemma_save_record_effect, load_record_spec,
    parse_record, save_nft_data_to_repository, save_record_spec, slot_in_range, slot_of,
};
use crate::error::HeroError;
use crate::instruction::{unpack_spec, HeroInstruction, HeroInstructionV};
use crate::state::{NFTRecord, NFTRecordV, REPO_ACCOUNT_SEED};

verus! {

/// Arguments of a record addition.  The token identity arrives as base58
/// text and is decoded before the record is written.
pub struct AddRecordArgs {
    pub hero_id: u8,
    pub content_uri: Vec<u8>,
    pub key_nft: Vec<u8>,
    pub last_price: u64,
    pub listed_price: u64,
}

/// Mathematical image of [`AddRecordArgs`].
#[verifier::ext_equal]
pub ghost struct AddRecordArgsV {
    pub hero_id: u8,
    pub content_uri: Seq<u8>,
    pub key_nft: Seq<u8>,
    pub last_price: u64,
    pub listed_price: u64,
}

impl View for AddRecordArgs {
    type V = AddRecordArgsV;

    open spec fn view(&self) -> AddRecordArgsV {
        AddRecordArgsV {
            hero_id: self.hero_id,
            content_uri: self.content_uri@,
            key_nft: self.key_nft@,
            last_price: self.last_price,
            listed_price: self.listed_price,
        }
    }
}

/// Arguments of an update: a new listed price and a new content pointer for
/// the record of a held token.
pub struct UpdateRecordArgs {
    pub hero_id: u8,
    pub key_nft: Vec<u8>,
    pub new_price: u64,
    pub content_uri: Vec<u8>,
}

/// Mathematical image of [`UpdateRecordArgs`].
#[verifier::ext_equal]
pub ghost struct UpdateRecordArgsV {
    pub hero_id: u8,
    pub key_nft: Seq<u8>,
    pub new_price: u64,
    pub content_uri: Seq<u8>,
}

impl View for UpdateRecordArgs {
    type V = UpdateRecordArgsV;

    open spec fn view(&self) -> UpdateRecordArgsV {
        UpdateRecordArgsV {
            hero_id: self.hero_id,
            key_nft: self.key_nft@,
            new_price: self.new_price,
            content_uri: self.content_uri@,
        }
    }
}

/// Arguments of a purchase: the retired token's metadata is rewritten to
/// these values.
pub struct BuyRecordArgs {
    pub hero_id: u8,
    pub dead_uri: Vec<u8>,
    pub dead_name: Vec<u8>,
}

/// Mathematical image of [`BuyRecordArgs`].
#[verifier::ext_equal]
pub ghost struct BuyRecordArgsV {
    pub hero_id: u8,
    pub dead_uri: Seq<u8>,
    pub dead_name: Seq<u8>,
}

impl View for BuyRecordArgs {
    type V = BuyRecordArgsV;

    open spec fn view(&self) -> BuyRecordArgsV {
        BuyRecordArgsV {
            hero_id: self.hero_id,
            dead_uri: self.dead_uri@,
            dead_name: self.dead_name@,
        }
    }
}

/// What a handler reads of one caller-supplied account: its address, its
/// owning program, whether the host saw its signature, and its data bytes.
pub struct AccountRec {
    pub key: Vec<u8>,
    pub owner: Vec<u8>,
    pub is_signer: bool,
    pub data: Vec<u8>,
}

/// Mathematical image of an [`AccountRec`].
#[verifier::ext_equal]
pub ghost struct AccountRecV {
    pub key: Seq<u8>,
    pub owner: Seq<u8>,
    pub is_signer: bool,
    pub data: Seq<u8>,
}

impl View for AccountRec {
    type V = AccountRecV;

    open spec fn view(&self) -> AccountRecV {
        AccountRecV {
            key: self.key@,
            owner: self.owner@,
            is_signer: self.is_signer,
            data: self.data@,
        }
    }
}

impl AccountRecV {
    /// An account's addresses are full 32-byte addresses.
    pub open spec fn wf(self) -> bool {
        &&& self.key.len() == 32
        &&& self.owner.len() == 32
    }
}

/// One token move, delegated to the token primitive.
pub struct TokenTransfer {
    pub source: Vec<u8>,
    pub destination: Vec<u8>,
    pub authority: Vec<u8>,
    pub amount: u64,
}

/// Mathematical image of a [`TokenTransfer`].
#[verifier::ext_equal]
pub ghost struct TokenTransferV {
    pub source: Seq<u8>,
    pub destination: Seq<u8>,
    pub authority: Seq<u8>,
    pub amount: u64,
}

impl View for TokenTransfer {
    type V = TokenTransferV;

    open spec fn view(&self) -> TokenTransferV {
        TokenTransferV {
            source: self.source@,
            destination: self.destination@,
            authority: self.authority@,
            amount: self.amount,
        }
    }
}

/// One metadata rewrite, delegated to the metadata primitive.
pub struct MetadataUpdate {
    pub metadata_account: Vec<u8>,
    pub update_authority: Vec<u8>,
    pub new_uri: Vec<u8>,
    pub new_name: Vec<u8>,
    pub primary_sale_happened: bool,
}

/// Mathematical image of a [`MetadataUpdate`].
#[verifier::ext_equal]
pub ghost struct MetadataUpdateV {
    pub metadata_account: Seq<u8>,
    pub update_authority: Seq<u8>,
    pub new_uri: Seq<u8>,
    pub new_name: Seq<u8>,
    pub primary_sale_happened: bool,
}

impl View for MetadataUpdate {
    type V = MetadataUpdateV;

    open spec fn view(&self) -> MetadataUpdateV {
        MetadataUpdateV {
            metadata_account: self.metadata_account@,
            update_authority: self.update_authority@,
            new_uri: self.new_uri@,
            new_name: self.new_name@,
            primary_sale_happened: self.primary_sale_happened,
        }
    }
}

/// One native payment, delegated to the payment primitive.
pub struct Payment {
    pub from: Vec<u8>,
    pub to: Vec<u8>,
    pub amount: u64,
}

/// Mathematical image of a [`Payment`].
#[verifier::ext_equal]
pub ghost struct PaymentV {
    pub from: Seq<u8>,
    pub to: Seq<u8>,
    pub amount: u64,
}

impl View for Payment {
    type V = PaymentV;

    open spec fn view(&self) -> PaymentV {
        PaymentV { from: self.from@, to: self.to@, amount: self.amount }
    }
}

/// The three delegated steps a successful purchase issues, in order: the
/// token move, then the metadata rewrite, then the payment.  The host
/// performs them within the same invocation, so a failure of any one undoes
/// the repository write as well.
pub struct Settlement {
    pub token_transfer: TokenTransfer,
    pub metadata_update: MetadataUpdate,
    pub payment: Payment,
}

/// Mathematical image of a [`Settlement`].
#[verifier::ext_equal]
pub ghost struct SettlementV {
    pub token_transfer: TokenTransferV,
    pub metadata_update: MetadataUpdateV,
    pub payment: PaymentV,
}

impl View for Settlement {
    type V = SettlementV;

    open spec fn view(&self) -> SettlementV {
        SettlementV {
            token_transfer: self.token_transfer@,
            metadata_update: self.metadata_update@,
            payment: self.payment@,
        }
    }
}

/// Whether `admin_key` is the administrator of the repository at
/// `repository_key`: the repository address must be exactly the address
/// derived from the administrator's identity, the fixed seed and the program.
pub open spec fn admin_ok(admin_key: Seq<u8>, repository_key: Seq<u8>, program_id: Seq<u8>) -> bool {
    derived_address(admin_key, REPO_ACCOUNT_SEED@, program_id) == Some(repository_key)
}

/// Outcome of holding a token account image against an expected
/// (holder, token identity) pair.
pub open spec fn holder_check_spec(data: Seq<u8>, holder: Seq<u8>, mint: Seq<u8>) -> Result<
    (),
    HeroError,
> {
    if data.len() < 165 || !token_account_parses(data) {
        Err(HeroError::InvalidAccountData)
    } else if token_holder_of(data) != holder || token_mint_of(data) != mint {
        Err(HeroError::OwnershipMismatch)
    } else {
        Ok(())
    }
}

/// Outcome of holding a metadata account against the metadata program and the
/// retired token's mint.
pub open spec fn metadata_check_spec(
    meta_owner: Seq<u8>,
    meta_data: Seq<u8>,
    metadata_program_key: Seq<u8>,
    old_mint_key: Seq<u8>,
) -> Result<(), HeroError> {
    if meta_data.len() < 1 {
        Err(HeroError::InvalidAccountData)
    } else {
        match metadata_mint(meta_data) {
            Option::None => Err(HeroError::InvalidAccountData),
            Option::Some(m) => if meta_owner != metadata_program_key || m != old_mint_key {
                Err(HeroError::InvalidAccountData)
            } else {
                Ok(())
            },
        }
    }
}

/// Full outcome of a record addition: the repository region after the write,
/// or the first failing check's error.
pub open spec fn add_record_spec(
    adder: AccountRecV,
    repository: AccountRecV,
    args: AddRecordArgsV,
    program_id: Seq<u8>,
) -> Result<Seq<u8>, HeroError> {
    if !adder.is_signer {
        Err(HeroError::MissingSignature)
    } else if repository.owner != program_id {
        Err(HeroError::WrongProgramOwner)
    } else if !admin_ok(adder.key, repository.key, program_id) {
        Err(HeroError::NotAuthorized)
    } else {
        match text_address(args.key_nft) {
            Option::None => Err(HeroError::InvalidInstruction),
            Option::Some(key) => save_record_spec(
                repository.data,
                NFTRecordV {
                    hero_id: args.hero_id,
                    content_uri: args.content_uri,
                    key_nft: key,
                    last_price: args.last_price,
                    listed_price: args.listed_price,
                },
            ),
        }
    }
}

/// Full outcome of an update: the repository region after the write, or the
/// first failing check's error.  The settled price of the record is never
/// touched.
pub open spec fn update_record_spec(
    setter: AccountRecV,
    repository: AccountRecV,
    nft_mint: AccountRecV,
    token_account: AccountRecV,
    args: UpdateRecordArgsV,
    program_id: Seq<u8>,
) -> Result<Seq<u8>, HeroError> {
    if !setter.is_signer {
        Err(HeroError::MissingSignature)
    } else if repository.owner != program_id {
        Err(HeroError::WrongProgramOwner)
    } else if !admin_ok(setter.key, repository.key, program_id) {
        Err(HeroError::NotAuthorized)
    } else {
        match holder_check_spec(token_account.data, setter.key, nft_mint.key) {
            Err(e) => Err(e),
            Ok(_) => match load_record_spec(repository.data, args.hero_id) {
                Err(e) => Err(e),
                Ok(rec) => if rec.key_nft != args.key_nft || rec.key_nft != nft_mint.key {
                    Err(HeroError::InvalidTokenKey)
                } else {
                    save_record_spec(
                        repository.data,
                        NFTRecordV {
                            listed_price: args.new_price,
                            content_uri: args.content_uri,
                            ..rec
                        },
                    )
                },
            },
        }
    }
}

/// Full outcome of a purchase: the repository region after the settlement
/// write together with the three delegated steps, or the first failing
/// check's error.
pub open spec fn buy_record_spec(
    admin: AccountRecV,
    buyer: AccountRecV,
    prev_owner: AccountRecV,
    repository: AccountRecV,
    old_nft_mint: AccountRecV,
    old_nft_token_account: AccountRecV,
    old_nft_metadata: AccountRecV,
    new_nft_mint: AccountRecV,
    token_account_to_send: AccountRecV,
    token_account_to_receive: AccountRecV,
    token_metadata_program: AccountRecV,
    args: BuyRecordArgsV,
    program_id: Seq<u8>,
) -> Result<(Seq<u8>, SettlementV), HeroError> {
    if !buyer.is_signer {
        Err(HeroError::MissingSignature)
    } else if repository.owner != program_id {
        Err(HeroError::WrongProgramOwner)
    } else if !admin_ok(admin.key, repository.key, program_id) {
        Err(HeroError::NotAuthorized)
    } else {
        match holder_check_spec(old_nft_token_account.data, prev_owner.key, old_nft_mint.key) {
            Err(e) => Err(e),
            Ok(_) => match metadata_check_spec(
                old_nft_metadata.owner,
                old_nft_metadata.data,
                token_metadata_program.key,
                old_nft_mint.key,
            ) {
                Err(e) => Err(e),
                Ok(_) => match load_record_spec(repository.data, args.hero_id) {
                    Err(e) => Err(e),
                    Ok(rec) => if rec.key_nft != old_nft_mint.key {
                        Err(HeroError::InvalidNFTKey)
                    } else {
                        match save_record_spec(
                            repository.data,
                            NFTRecordV {
                                last_price: rec.listed_price,
                                key_nft: new_nft_mint.key,
                                ..rec
                            },
                        ) {
                            Err(e) => Err(e),
                            Ok(new_data) => Ok(
                                (
                                    new_data,
                                    SettlementV {
                                        token_transfer: TokenTransferV {
                                            source: token_account_to_send.key,
                                            destination: token_account_to_receive.key,
                                            authority: admin.key,
                                            amount: 1,
                                        },
                                        metadata_update: MetadataUpdateV {
                                            metadata_account: old_nft_metadata.key,
                                            update_authority: admin.key,
                                            new_uri: args.dead_uri,
                                            new_name: args.dead_name,
                                            primary_sale_happened: true,
                                        },
                                        payment: PaymentV {
                                            from: buyer.key,
                                            to: prev_owner.key,
                                            amount: rec.listed_price,
                                        },
                                    },
                                ),
                            ),
                        }
                    },
                },
            },
        }
    }
}

/// Images of a positional account list.
pub open spec fn views_of(accounts: Seq<AccountRec>) -> Seq<AccountRecV> {
    Seq::new(accounts.len(), |i: int| accounts[i]@)
}

/// Image of an optional settlement.
pub open spec fn settlement_view_of(s: Option<Settlement>) -> Option<SettlementV> {
    match s {
        Option::Some(x) => Some(x@),
        Option::None => None,
    }
}

/// Full outcome of one invocation: decode the instruction, hold the
/// positional account list against the selected handler's roles, and apply
/// it.  Returns the account list after the call together with the delegated
/// steps a purchase issues, or the error that aborted the call.
pub open spec fn process_spec(
    accounts: Seq<AccountRecV>,
    instruction_data: Seq<u8>,
    program_id: Seq<u8>,
) -> Result<(Seq<AccountRecV>, Option<SettlementV>), HeroError> {
    match unpack_spec(instruction_data) {
        Err(e) => Err(e),
        Ok(inst) => match inst {
            HeroInstructionV::AddRecord(a) => if accounts.len() < 2 {
                Err(HeroError::NotEnoughAccounts)
            } else {
                match add_record_spec(accounts[0], accounts[1], a, program_id) {
                    Err(e) => Err(e),
                    Ok(d) => Ok(
                        (accounts.update(1, AccountRecV { data: d, ..accounts[1] }), None),
                    ),
                }
            },
            HeroInstructionV::UpdateRecord(a) => if accounts.len() < 4 {
                Err(HeroError::NotEnoughAccounts)
            } else {
                match update_record_spec(
                    accounts[0],
                    accounts[1],
                    accounts[2],
                    accounts[3],
                    a,
                    program_id,
                ) {
                    Err(e) => Err(e),
                    Ok(d) => Ok(
                        (accounts.update(1, AccountRecV { data: d, ..accounts[1] }), None),
                    ),
                }
            },
            HeroInstructionV::BuyRecord(a) => if accounts.len() < 13 {
                Err(HeroError::NotEnoughAccounts)
            } else {
                match buy_record_spec(
                    accounts[0],
                    accounts[1],
                    accounts[2],
                    accounts[3],
                    accounts[4],
                    accounts[5],
                    accounts[6],
                    accounts[7],
                    accounts[8],
                    accounts[9],
                    accounts[11],
                    a,
                    program_id,
                ) {
                    Err(e) => Err(e),
                    Ok((d, s)) => Ok(
                        (accounts.update(3, AccountRecV { data: d, ..accounts[3] }), Some(s)),
                    ),
                }
            },
            HeroInstructionV::OnChainMinting => Ok((accounts, None)),
        },
    }
}

/// Byte-for-byte equality of two byte vectors.
fn vec_eq(a: &Vec<u8>, b: &Vec<u8>) -> (r: bool)
    ensures
        r == (a@ == b@),
{
    if a.len() != b.len() {
        return false;
    }
    let mut i: usize = 0;
    while i < a.len()
        invariant
            i <= a@.len(),
            a@.len() == b@.len(),
            forall|k: int| 0 <= k < i ==> a@[k] == b@[k],
        decreases a@.len() - i,
    {
        if a[i] != b[i] {
            return false;
        }
        i = i + 1;
    }
    proof {
        assert(a@ =~= b@);
    }
    true
}

/// Fresh copy of a byte vector.
fn clone_bytes(src: &Vec<u8>) -> (out: Vec<u8>)
    ensures
        out@ == src@,
{
    let mut out: Vec<u8> = Vec::new();
    append_bytes(&mut out, src);
    assert(out@ =~= src@);
    out
}

/// Confirms that a token account image records exactly the expected holder
/// and token identity.
pub fn verify_holder(
    token_account_data: &Vec<u8>,
    expected_holder: &Vec<u8>,
    expected_mint: &Vec<u8>,
) -> (r: Result<(), HeroError>)
    ensures
        r == holder_check_spec(token_account_data@, expected_holder@, expected_mint@),
{
    if token_account_data.len() < 165 {
        return Err(HeroError::InvalidAccountData);
    }
    match unpack_token_account(token_account_data) {
        None => Err(HeroError::InvalidAccountData),
        Some(p) => {
            let (mint, holder) = p;
            if !vec_eq(&holder, expected_holder) || !vec_eq(&mint, expected_mint) {
                Err(HeroError::OwnershipMismatch)
            } else {
                Ok(())
            }
        },
    }
}

/// Confirms that a metadata account is owned by the metadata program and
/// records the retired token's mint.
pub fn check_metadata(
    meta_owner: &Vec<u8>,
    meta_data: &Vec<u8>,
    metadata_program_key: &Vec<u8>,
    old_mint_key: &Vec<u8>,
) -> (r: Result<(), HeroError>)
    ensures
        r == metadata_check_spec(meta_owner@, meta_data@, metadata_program_key@, old_mint_key@),
{
    if meta_data.len() == 0 {
        return Err(HeroError::InvalidAccountData);
    }
    match read_metadata_mint(meta_data) {
        None => Err(HeroError::InvalidAccountData),
        Some(m) => {
            if !vec_eq(meta_owner, metadata_program_key) || !vec_eq(&m, old_mint_key) {
                Err(HeroError::InvalidAccountData)
            } else {
                Ok(())
            }
        },
    }
}

/// The instruction processor.
pub struct Processor;

impl Processor {
    /// Confirms the caller's authority over the repository: the repository
    /// address must equal the address derived from the caller's identity,
    /// the fixed seed and the program.
    pub fn verify_admin_authority(
        admin_account_pk: &Vec<u8>,
        repository_account_pk: &Vec<u8>,
        program_id: &Vec<u8>,
    ) -> (r: Result<(), HeroError>)
        requires
            admin_account_pk@.len() == 32,
            program_id@.len() == 32,
        ensures
            match r {
                Ok(_) => admin_ok(admin_account_pk@, repository_account_pk@, program_id@),
                Err(e) => !admin_ok(admin_account_pk@, repository_account_pk@, program_id@) && e
                    == HeroError::NotAuthorized,
            },
    {
        match create_address_with_seed(admin_account_pk, REPO_ACCOUNT_SEED, program_id) {
            None => Err(HeroError::NotAuthorized),
            Some(expected) => {
                if vec_eq(&expected, repository_account_pk) {
                    Ok(())
                } else {
                    Err(HeroError::NotAuthorized)
                }
            },
        }
    }

    /// Writes a fresh record into its slot, overwriting any prior contents.
    /// Only the administrator may add records.
    pub fn process_add_record(
        adder: &AccountRec,
        repository: &mut AccountRec,
        args: &AddRecordArgs,
        program_id: &Vec<u8>,
    ) -> (r: Result<(), HeroError>)
        requires
            adder@.wf(),
            program_id@.len() == 32,
        ensures
            final(repository).key@ == old(repository).key@,
            final(repository).owner@ == old(repository).owner@,
            final(repository).is_signer == old(repository).is_signer,
            match r {
                Ok(_) => add_record_spec(adder@, old(repository)@, args@, program_id@)
                    == Ok::<Seq<u8>, HeroError>(final(repository).data@),
                Err(e) => add_record_spec(adder@, old(repository)@, args@, program_id@)
                    == Err::<Seq<u8>, HeroError>(e) && final(repository).data@ == old(
                    repository,
                ).data@,
            },
    {
        if !adder.is_signer {
            return Err(HeroError::MissingSignature);
        }
        if !vec_eq(&repository.owner, program_id) {
            return Err(HeroError::WrongProgramOwner);
        }
        match Self::verify_admin_authority(&adder.key, &repository.key, program_id) {
            Err(e) => {
                return Err(e);
            },
            Ok(_) => {},
        }
        let key_nft = match parse_text_address(&args.key_nft) {
            None => {
                return Err(HeroError::InvalidInstruction);
            },
            Some(k) => k,
        };
        let nft_record = NFTRecord {
            hero_id: args.hero_id,
            content_uri: clone_bytes(&args.content_uri),
            key_nft,
            last_price: args.last_price,
            listed_price: args.listed_price,
        };
        save_nft_data_to_repository(&nft_record, &mut repository.data)
    }

    /// Re-prices and re-describes the record of a held token.  The caller
    /// must be the administrator and must hold the token; the settled price
    /// is never touched.
    pub fn process_update_record(
        setter: &AccountRec,
        repository: &mut AccountRec,
        nft_account: &AccountRec,
        associated_token_account: &AccountRec,
        args: &UpdateRecordArgs,
        program_id: &Vec<u8>,
    ) -> (r: Result<(), HeroError>)
        requires
            setter@.wf(),
            program_id@.len() == 32,
        ensures
            final(repository).key@ == old(repository).key@,
            final(repository).owner@ == old(repository).owner@,
            final(repository).is_signer == old(repository).is_signer,
            match r {
                Ok(_) => update_record_spec(
                    setter@,
                    old(repository)@,
                    nft_account@,
                    associated_token_account@,
                    args@,
                    program_id@,
                ) == Ok::<Seq<u8>, HeroError>(final(repository).data@),
                Err(e) => update_record_spec(
                    setter@,
                    old(repository)@,
                    nft_account@,
                    associated_token_account@,
                    args@,
                    program_id@,
                ) == Err::<Seq<u8>, HeroError>(e) && final(repository).data@ == old(
                    repository,
                ).data@,
            },
    {
        if !setter.is_signer {
            return Err(HeroError::MissingSignature);
        }
        if !vec_eq(&repository.owner, program_id) {
            return Err(HeroError::WrongProgramOwner);
        }
        match Self::verify_admin_authority(&setter.key, &repository.key, program_id) {
            Err(e) => {
                return Err(e);
            },
            Ok(_) => {},
        }
        match verify_holder(&associated_token_account.data, &setter.key, &nft_account.key) {
            Err(e) => {
                return Err(e);
            },
            Ok(_) => {},
        }
        let mut nft_record = match get_nft_data_from_repository(&repository.data, args.hero_id) {
            Err(e) => {
                return Err(e);
            },
            Ok(rec) => rec,
        };
        if !vec_eq(&nft_record.key_nft, &args.key_nft) || !vec_eq(
            &nft_record.key_nft,
            &nft_account.key,
        ) {
            return Err(HeroError::InvalidTokenKey);
        }
        nft_record.listed_price = args.new_price;
        nft_record.content_uri = clone_bytes(&args.content_uri);
        save_nft_data_to_repository(&nft_record, &mut repository.data)
    }

    /// Settles a purchase: after the authority, ownership, metadata and
    /// record checks, records the listed price as settled, binds the slot to
    /// the replacement token, and issues the three delegated steps.  On any
    /// failure nothing is written and no step is issued; the host undoes
    /// every effect of an invocation whose delegated steps fail.
    pub fn process_buy_record(
        admin_account: &AccountRec,
        buyer_account: &AccountRec,
        prev_owner_account: &AccountRec,
        repository: &mut AccountRec,
        old_nft_mint: &AccountRec,
        old_nft_token_account: &AccountRec,
        old_nft_metadata_account: &AccountRec,
        new_nft_mint: &AccountRec,
        nft_token_account_to_send: &AccountRec,
        nft_token_account_to_receive: &AccountRec,
        token_metadata_program: &AccountRec,
        args: &BuyRecordArgs,
        program_id: &Vec<u8>,
    ) -> (r: Result<Settlement, HeroError>)
        requires
            admin_account@.wf(),
            program_id@.len() == 32,
        ensures
            final(repository).key@ == old(repository).key@,
            final(repository).owner@ == old(repository).owner@,
            final(repository).is_signer == old(repository).is_signer,
            match r {
                Ok(s) => buy_record_spec(
                    admin_account@,
                    buyer_account@,
                    prev_owner_account@,
                    old(repository)@,
                    old_nft_mint@,
                    old_nft_token_account@,
                    old_nft_metadata_account@,
                    new_nft_mint@,
                    nft_token_account_to_send@,
                    nft_token_account_to_receive@,
                    token_metadata_program@,
                    args@,
                    program_id@,
                ) == Ok::<(Seq<u8>, SettlementV), HeroError>((final(repository).data@, s@)),
                Err(e) => buy_record_spec(
                    admin_account@,
                    buyer_account@,
                    prev_owner_account@,
                    old(repository)@,
                    old_nft_mint@,
                    old_nft_token_account@,
                    old_nft_metadata_account@,
                    new_nft_mint@,
                    nft_token_account_to_send@,
                    nft_token_account_to_receive@,
                    token_metadata_program@,
                    args@,
                    program_id@,
                ) == Err::<(Seq<u8>, SettlementV), HeroError>(e) && final(repository).data@ == old(
                    repository,
                ).data@,
            },
    {
        if !buyer_account.is_signer {
            return Err(HeroError::MissingSignature);
        }
        if !vec_eq(&repository.owner, program_id) {
            return Err(HeroError::WrongProgramOwner);
        }
        match Self::verify_admin_authority(&admin_account.key, &repository.key, program_id) {
            Err(e) => {
                return Err(e);
            },
            Ok(_) => {},
        }
        match verify_holder(
            &old_nft_token_account.data,
            &prev_owner_account.key,
            &old_nft_mint.key,
        ) {
            Err(e) => {
                return Err(e);
            },
            Ok(_) => {},
        }
        match check_metadata(
            &old_nft_metadata_account.owner,
            &old_nft_metadata_account.data,
            &token_metadata_program.key,
            &old_nft_mint.key,
        ) {
            Err(e) => {
                return Err(e);
            },
            Ok(_) => {},
        }
        let mut nft_record = match get_nft_data_from_repository(&repository.data, args.hero_id) {
            Err(e) => {
                return Err(e);
            },
            Ok(rec) => rec,
        };
        if !vec_eq(&nft_record.key_nft, &old_nft_mint.key) {
            return Err(HeroError::InvalidNFTKey);
        }
        let listed_before = nft_record.listed_price;
        nft_record.last_price = listed_before;
        nft_record.key_nft = clone_bytes(&new_nft_mint.key);
        match save_nft_data_to_repository(&nft_record, &mut repository.data) {
            Err(e) => {
                return Err(e);
            },
            Ok(_) => {},
        }
        Ok(
            Settlement {
                token_transfer: TokenTransfer {
                    source: clone_bytes(&nft_token_account_to_send.key),
                    destination: clone_bytes(&nft_token_account_to_receive.key),
                    authority: clone_bytes(&admin_account.key),
                    amount: 1,
                },
                metadata_update: MetadataUpdate {
                    metadata_account: clone_bytes(&old_nft_metadata_account.key),
                    update_authority: clone_bytes(&admin_account.key),
                    new_uri: clone_bytes(&args.dead_uri),
                    new_name: clone_bytes(&args.dead_name),
                    primary_sale_happened: true,
                },
                payment: Payment {
                    from: clone_bytes(&buyer_account.key),
                    to: clone_bytes(&prev_owner_account.key),
                    amount: listed_before,
                },
            },
        )
    }

    /// Decodes the instruction buffer and applies the selected handler to the
    /// positional account list.  A purchase returns its delegated steps; any
    /// failure leaves every account exactly as supplied.
    pub fn process(
        program_id: &Vec<u8>,
        accounts: &mut Vec<AccountRec>,
        instruction_data: &[u8],
    ) -> (r: Result<Option<Settlement>, HeroError>)
        requires
            program_id@.len() == 32,
            forall|i: int|
                0 <= i < old(accounts)@.len() ==> (#[trigger] old(accounts)@[i])@.wf(),
        ensures
            match r {
                Ok(s) => process_spec(views_of(old(accounts)@), instruction_data@, program_id@)
                    == Ok::<(Seq<AccountRecV>, Option<SettlementV>), HeroError>(
                    (views_of(final(accounts)@), settlement_view_of(s)),
                ),
                Err(e) => process_spec(views_of(old(accounts)@), instruction_data@, program_id@)
                    == Err::<(Seq<AccountRecV>, Option<SettlementV>), HeroError>(e) && views_of(
                    final(accounts)@,
                ) == views_of(old(accounts)@),
            },
    {
        let instruction = match HeroInstruction::unpack(instruction_data) {
            Err(e) => {
                return Err(e);
            },
            Ok(i) => i,
        };
        match instruction {
            HeroInstruction::AddRecord(args) => {
                if accounts.len() < 2 {
                    return Err(HeroError::NotEnoughAccounts);
                }
                let mut repository = accounts.remove(1);
                let result = Self::process_add_record(
                    &accounts[0],
                    &mut repository,
                    &args,
                    program_id,
                );
                let ghost repo2 = repository@;
                accounts.insert(1, repository);
                proof {
                    assert(views_of(accounts@) =~= views_of(old(accounts)@).update(1, repo2));
                }
                match result {
                    Err(e) => {
                        proof {
                            assert(views_of(accounts@) =~= views_of(old(accounts)@));
                        }
                        Err(e)
                    },
                    Ok(_) => {
                        proof {
                            assert(repo2 =~= AccountRecV {
                                data: repo2.data,
                                ..views_of(old(accounts)@)[1]
                            });
                        }
                        Ok(None)
                    },
                }
            },
            HeroInstruction::UpdateRecord(args) => {
                if accounts.len() < 4 {
                    return Err(HeroError::NotEnoughAccounts);
                }
                let mut repository = accounts.remove(1);
                let result = Self::process_update_record(
                    &accounts[0],
                    &mut repository,
                    &accounts[1],
                    &accounts[2],
                    &args,
                    program_id,
                );
                let ghost repo2 = repository@;
                accounts.insert(1, repository);
                proof {
                    assert(views_of(accounts@) =~= views_of(old(accounts)@).update(1, repo2));
                }
                match result {
                    Err(e) => {
                        proof {
                            assert(views_of(accounts@) =~= views_of(old(accounts)@));
                        }
                        Err(e)
                    },
                    Ok(_) => {
                        proof {
                            assert(repo2 =~= AccountRecV {
                                data: repo2.data,
                                ..views_of(old(accounts)@)[1]
                            });
                        }
                        Ok(None)
                    },
                }
            },
            HeroInstruction::BuyRecord(args) => {
                if accounts.len() < 13 {
                    return Err(HeroError::NotEnoughAccounts);
                }
                let mut repository = accounts.remove(3);
                let result = Self::process_buy_record(
                    &accounts[0],
                    &accounts[1],
                    &accounts[2],
                    &mut repository,
                    &accounts[3],
                    &accounts[4],
                    &accounts[5],
                    &accounts[6],
                    &accounts[7],
                    &accounts[8],
                    &accounts[10],
                    &args,
                    program_id,
                );
                let ghost repo2 = repository@;
                accounts.insert(3, repository);
                proof {
                    assert(views_of(accounts@) =~= views_of(old(accounts)@).update(3, repo2));
                }
                match result {
                    Err(e) => {
                        proof {
                            assert(views_of(accounts@) =~= views_of(old(accounts)@));
                        }
                        Err(e)
                    },
                    Ok(s) => {
                        proof {
                            assert(repo2 =~= AccountRecV {
                                data: repo2.data,
                                ..views_of(old(accounts)@)[3]
                            });
                        }
                        Ok(Some(s))
                    },
                }
            },
            HeroInstruction::OnChainMinting => {
                Ok(None)
            },
        }
    }
}

/// Law: a record addition that succeeds leaves, at the submitted slot, a
/// record that decodes to exactly the submitted fields, and leaves every
/// other slot byte-for-byte unchanged.
pub proof fn lemma_add_record_decodes(
    adder: AccountRecV,
    repository: AccountRecV,
    args: AddRecordArgsV,
    program_id: Seq<u8>,
    new_data: Seq<u8>,
)
    requires
        add_record_spec(adder, repository, args, program_id) == Ok::<Seq<u8>, HeroError>(new_data),
    ensures
        new_data.len() == repository.data.len(),
        parse_record(slot_of(new_data, args.hero_id as int)) == Some(
            NFTRecordV {
                hero_id: args.hero_id,
                content_uri: args.content_uri,
                key_nft: text_address(args.key_nft)->Some_0,
                last_price: args.last_price,
                listed_price: args.listed_price,
            },
        ),
        forall|j: int|
            0 <= j && j != args.hero_id as int && slot_in_range(repository.data, j) ==> slot_of(
                new_data,
                j,
            ) == slot_of(repository.data, j),
{
    let rec = NFTRecordV {
        hero_id: args.hero_id,
        content_uri: args.content_uri,
        key_nft: text_address(args.key_nft)->Some_0,
        last_price: args.last_price,
        listed_price: args.listed_price,
    };
    lemma_save_record_effect(repository.data, rec, new_data);
}

/// Law: an update that succeeds keeps the record's settled price and sets
/// exactly the submitted listed price and content pointer; every other slot
/// keeps its bytes.
pub proof fn lemma_update_record_effect(
    setter: AccountRecV,
    repository: AccountRecV,
    nft_mint: AccountRecV,
    token_account: AccountRecV,
    args: UpdateRecordArgsV,
    program_id: Seq<u8>,
    new_data: Seq<u8>,
)
    requires
        update_record_spec(setter, repository, nft_mint, token_account, args, program_id)
            == Ok::<Seq<u8>, HeroError>(new_data),
    ensures
        new_data.len() == repository.data.len(),
        ({
            let rec0 = load_record_spec(repository.data, args.hero_id)->Ok_0;
            parse_record(slot_of(new_data, rec0.hero_id as int)) == Some(
                NFTRecordV { listed_price: args.new_price, content_uri: args.content_uri, ..rec0 },
            )
        }),
        ({
            let rec0 = load_record_spec(repository.data, args.hero_id)->Ok_0;
            forall|j: int|
                0 <= j && j != rec0.hero_id as int && slot_in_range(repository.data, j)
                    ==> slot_of(new_data, j) == slot_of(repository.data, j)
        }),
{
    let rec0 = load_record_spec(repository.data, args.hero_id)->Ok_0;
    let rec1 = NFTRecordV {
        listed_price: args.new_price,
        content_uri: args.content_uri,
        ..rec0
    };
    lemma_save_record_effect(repository.data, rec1, new_data);
}

/// Law: without a matching derived repository address an update is refused
/// as unauthorized, whatever else the caller supplies; the handler's
/// contract then guarantees that no repository byte changes.
pub proof fn lemma_update_requires_admin(
    setter: AccountRecV,
    repository: AccountRecV,
    nft_mint: AccountRecV,
    token_account: AccountRecV,
    args: UpdateRecordArgsV,
    program_id: Seq<u8>,
)
    ensures
        setter.is_signer && repository.owner == program_id && !admin_ok(
            setter.key,
            repository.key,
            program_id,
        ) ==> update_record_spec(setter, repository, nft_mint, token_account, args, program_id)
            == Err::<Seq<u8>, HeroError>(HeroError::NotAuthorized),
{
}

/// Law: a purchase that succeeds settles at exactly the listed price, binds
/// the slot to the replacement token, and issues exactly one token unit's
/// move from the source to the destination and a payment of the listed
/// price from the buyer to the previous owner; every other slot keeps its
/// bytes.
pub proof fn lemma_buy_record_settlement(
    admin: AccountRecV,
    buyer: AccountRecV,
    prev_owner: AccountRecV,
    repository: AccountRecV,
    old_nft_mint: AccountRecV,
    old_nft_token_account: AccountRecV,
    old_nft_metadata: AccountRecV,
    new_nft_mint: AccountRecV,
    token_account_to_send: AccountRecV,
    token_account_to_receive: AccountRecV,
    token_metadata_program: AccountRecV,
    args: BuyRecordArgsV,
    program_id: Seq<u8>,
    new_data: Seq<u8>,
    s: SettlementV,
)
    requires
        buy_record_spec(
            admin,
            buyer,
            prev_owner,
            repository,
            old_nft_mint,
            old_nft_token_account,
            old_nft_metadata,
            new_nft_mint,
            token_account_to_send,
            token_account_to_receive,
            token_metadata_program,
            args,
            program_id,
        ) == Ok::<(Seq<u8>, SettlementV), HeroError>((new_data, s)),
    ensures
        new_data.len() == repository.data.len(),
        ({
            let rec0 = load_record_spec(repository.data, args.hero_id)->Ok_0;
            parse_record(slot_of(new_data, rec0.hero_id as int)) == Some(
                NFTRecordV { last_price: rec0.listed_price, key_nft: new_nft_mint.key, ..rec0 },
            )
        }),
        ({
            let rec0 = load_record_spec(repository.data, args.hero_id)->Ok_0;
            &&& s.token_transfer == TokenTransferV {
                source: token_account_to_send.key,
                destination: token_account_to_receive.key,
                authority: admin.key,
                amount: 1,
            }
            &&& s.metadata_update == MetadataUpdateV {
                metadata_account: old_nft_metadata.key,
                update_authority: admin.key,
                new_uri: args.dead_uri,
                new_name: args.dead_name,
                primary_sale_happened: true,
            }
            &&& s.payment == PaymentV {
                from: buyer.key,
                to: prev_owner.key,
                amount: rec0.listed_price,
            }
        }),
        ({
            let rec0 = load_record_spec(repository.data, args.hero_id)->Ok_0;
            forall|j: int|
                0 <= j && j != rec0.hero_id as int && slot_in_range(repository.data, j)
                    ==> slot_of(new_data, j) == slot_of(repository.data, j)
        }),
{
    let rec0 = load_record_spec(repository.data, args.hero_id)->Ok_0;
    let rec1 = NFTRecordV { last_price: rec0.listed_price, key_nft: new_nft_mint.key, ..rec0 };
    lemma_save_record_effect(repository.data, rec1, new_data);
}

/// Law: a token-holding account whose recorded holder differs from the
/// claimed caller fails an update with an ownership mismatch once the
/// earlier checks pass; the handler's contract then guarantees that no
/// repository byte changes.
pub proof fn lemma_update_foreign_holder_rejected(
    setter: AccountRecV,
    repository: AccountRecV,
    nft_mint: AccountRecV,
    token_account: AccountRecV,
    args: UpdateRecordArgsV,
    program_id: Seq<u8>,
)
    ensures
        (setter.is_signer && repository.owner == program_id && admin_ok(
            setter.key,
            repository.key,
            program_id,
        ) && token_account.data.len() >= 165 && token_account_parses(token_account.data)
            && token_holder_of(token_account.data) != setter.key) ==> update_record_spec(
            setter,
            repository,
            nft_mint,
            token_account,
            args,
            program_id,
        ) == Err::<Seq<u8>, HeroError>(HeroError::OwnershipMismatch),
{
}

/// Law: a token-holding account whose recorded holder differs from the
/// claimed previous owner fails a purchase with an ownership mismatch once
/// the earlier checks pass; the handler's contract then guarantees that no
/// repository byte changes and no delegated step is issued.
pub proof fn lemma_buy_foreign_holder_rejected(
    admin: AccountRecV,
    buyer: AccountRecV,
    prev_owner: AccountRecV,
    repository: AccountRecV,
    old_nft_mint: AccountRecV,
    old_nft_token_account: AccountRecV,
    old_nft_metadata: AccountRecV,
    new_nft_mint: AccountRecV,
    token_account_to_send: AccountRecV,
    token_account_to_receive: AccountRecV,
    token_metadata_program: AccountRecV,
    args: BuyRecordArgsV,
    program_id: Seq<u8>,
)
    ensures
        (buyer.is_signer && repository.owner == program_id && admin_ok(
            admin.key,
            repository.key,
            program_id,
        ) && old_nft_token_account.data.len() >= 165 && token_account_parses(
            old_nft_token_account.data,
        ) && token_holder_of(old_nft_token_account.data) != prev_owner.key) ==> buy_record_spec(
            admin,
            buyer,
            prev_owner,
            repository,
            old_nft_mint,
            old_nft_token_account,
            old_nft_metadata,
            new_nft_mint,
            token_account_to_send,
            token_account_to_receive,
            token_metadata_program,
            args,
            program_id,
        ) == Err::<(Seq<u8>, SettlementV), HeroError>(HeroError::OwnershipMismatch),
{
}

} // verus!
