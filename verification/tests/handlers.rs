use hero_registry::codec::get_nft_data_from_repository;
use hero_registry::error::HeroError;
use hero_registry::processor::{
    check_metadata, verify_holder, AccountRec, AddRecordArgs, BuyRecordArgs, Processor,
    UpdateRecordArgs,
};
use hero_registry::state::{NFT_COUNT, NFT_RECORD_SIZE, REPO_ACCOUNT_SEED};
use solana_program::program_option::COption;
use solana_program::program_pack::Pack;
use solana_program::pubkey::Pubkey;
use spl_token::state::{Account as TokenAccount, AccountState};
use spl_token_metadata::state::{Data, Key, Metadata, MAX_METADATA_LEN};

const PROGRAM: [u8; 32] = [7u8; 32];
const ADMIN: [u8; 32] = [1u8; 32];
const T1: [u8; 32] = [2u8; 32];
const T2: [u8; 32] = [4u8; 32];
const BUYER: [u8; 32] = [3u8; 32];

fn account(key: [u8; 32], owner: Vec<u8>, is_signer: bool, data: Vec<u8>) -> AccountRec {
    AccountRec {
        key: key.to_vec(),
        owner,
        is_signer,
        data,
    }
}

fn derived_repo_key(admin: [u8; 32], program: [u8; 32]) -> Vec<u8> {
    Pubkey::create_with_seed(
        &Pubkey::new_from_array(admin),
        REPO_ACCOUNT_SEED,
        &Pubkey::new_from_array(program),
    )
    .unwrap()
    .to_bytes()
    .to_vec()
}

fn repository_account() -> AccountRec {
    AccountRec {
        key: derived_repo_key(ADMIN, PROGRAM),
        owner: PROGRAM.to_vec(),
        is_signer: false,
        data: vec![0u8; NFT_COUNT * NFT_RECORD_SIZE],
    }
}

fn token_account_bytes(mint: [u8; 32], owner: [u8; 32], amount: u64) -> Vec<u8> {
    let acct = TokenAccount {
        mint: Pubkey::new_from_array(mint),
        owner: Pubkey::new_from_array(owner),
        amount,
        delegate: COption::None,
        state: AccountState::Initialized,
        is_native: COption::None,
        delegated_amount: 0,
        close_authority: COption::None,
    };
    let mut buf = vec![0u8; TokenAccount::LEN];
    TokenAccount::pack(acct, &mut buf).unwrap();
    buf
}

fn metadata_bytes(mint: [u8; 32], update_authority: [u8; 32]) -> Vec<u8> {
    let md = Metadata {
        key: Key::MetadataV1,
        update_authority: Pubkey::new_from_array(update_authority),
        mint: Pubkey::new_from_array(mint),
        data: Data {
            name: "Hero".to_string(),
            symbol: "HH".to_string(),
            uri: "ipfs://orig".to_string(),
            seller_fee_basis_points: 0,
            creators: None,
        },
        primary_sale_happened: false,
        is_mutable: true,
        edition_nonce: None,
    };
    let mut buf = borsh::BorshSerialize::try_to_vec(&md).unwrap();
    buf.resize(MAX_METADATA_LEN, 0);
    buf
}

fn add_args(hero_id: u8, uri: &[u8], key: [u8; 32], last: u64, listed: u64) -> AddRecordArgs {
    AddRecordArgs {
        hero_id,
        content_uri: uri.to_vec(),
        key_nft: Pubkey::new_from_array(key).to_string().into_bytes(),
        last_price: last,
        listed_price: listed,
    }
}

fn admin_account(is_signer: bool) -> AccountRec {
    account(ADMIN, [0u8; 32].to_vec(), is_signer, vec![])
}

#[test]
fn full_lifecycle_settles_at_listed_price() {
    let program_id = PROGRAM.to_vec();
    let adder = admin_account(true);
    let mut repository = repository_account();

    Processor::process_add_record(&adder, &mut repository, &add_args(0, b"ipfs://a", T1, 0, 100), &program_id)
        .unwrap();
    let rec = get_nft_data_from_repository(&repository.data, 0).unwrap();
    assert_eq!(rec.key_nft, T1.to_vec());
    assert_eq!(rec.content_uri, b"ipfs://a".to_vec());
    assert_eq!(rec.last_price, 0);
    assert_eq!(rec.listed_price, 100);

    let nft_mint = account(T1, [0u8; 32].to_vec(), false, vec![]);
    let token_acct = account([6u8; 32], [0u8; 32].to_vec(), false, token_account_bytes(T1, ADMIN, 1));
    let upd = UpdateRecordArgs {
        hero_id: 0,
        key_nft: T1.to_vec(),
        new_price: 150,
        content_uri: b"ipfs://b".to_vec(),
    };
    Processor::process_update_record(&adder, &mut repository, &nft_mint, &token_acct, &upd, &program_id)
        .unwrap();
    let rec = get_nft_data_from_repository(&repository.data, 0).unwrap();
    assert_eq!(rec.listed_price, 150);
    assert_eq!(rec.last_price, 0);
    assert_eq!(rec.content_uri, b"ipfs://b".to_vec());

    let buyer = account(BUYER, [0u8; 32].to_vec(), true, vec![]);
    let prev_owner = admin_account(false);
    let meta_program_key = spl_token_metadata::id().to_bytes();
    let metadata_acct = account([5u8; 32], meta_program_key.to_vec(), false, metadata_bytes(T1, ADMIN));
    let new_mint = account(T2, [0u8; 32].to_vec(), false, vec![]);
    let send = account([8u8; 32], [0u8; 32].to_vec(), false, vec![]);
    let recv = account([9u8; 32], [0u8; 32].to_vec(), false, vec![]);
    let meta_prog = account(meta_program_key, [0u8; 32].to_vec(), false, vec![]);
    let buy = BuyRecordArgs {
        hero_id: 0,
        dead_uri: b"ipfs://dead".to_vec(),
        dead_name: b"Retired".to_vec(),
    };
    let s = Processor::process_buy_record(
        &admin_account(true),
        &buyer,
        &prev_owner,
        &mut repository,
        &nft_mint,
        &token_acct,
        &metadata_acct,
        &new_mint,
        &send,
        &recv,
        &meta_prog,
        &buy,
        &program_id,
    )
    .unwrap();

    assert_eq!(s.payment.amount, 150);
    assert_eq!(s.payment.from, BUYER.to_vec());
    assert_eq!(s.payment.to, ADMIN.to_vec());
    assert_eq!(s.token_transfer.amount, 1);
    assert_eq!(s.token_transfer.source, [8u8; 32].to_vec());
    assert_eq!(s.token_transfer.destination, [9u8; 32].to_vec());
    assert_eq!(s.token_transfer.authority, ADMIN.to_vec());
    assert!(s.metadata_update.primary_sale_happened);
    assert_eq!(s.metadata_update.new_uri, b"ipfs://dead".to_vec());
    assert_eq!(s.metadata_update.new_name, b"Retired".to_vec());
    assert_eq!(s.metadata_update.metadata_account, [5u8; 32].to_vec());

    let rec = get_nft_data_from_repository(&repository.data, 0).unwrap();
    assert_eq!(rec.last_price, 150);
    assert_eq!(rec.listed_price, 150);
    assert_eq!(rec.key_nft, T2.to_vec());
}

#[test]
fn add_requires_admin_derivation() {
    let program_id = PROGRAM.to_vec();
    let stranger = account([8u8; 32], [0u8; 32].to_vec(), true, vec![]);
    let mut repository = repository_account();
    let before = repository.data.clone();
    let r = Processor::process_add_record(
        &stranger,
        &mut repository,
        &add_args(0, b"ipfs://a", T1, 0, 100),
        &program_id,
    );
    assert_eq!(r, Err(HeroError::NotAuthorized));
    assert_eq!(repository.data, before);
}

#[test]
fn add_requires_signature() {
    let program_id = PROGRAM.to_vec();
    let mut repository = repository_account();
    let r = Processor::process_add_record(
        &admin_account(false),
        &mut repository,
        &add_args(0, b"ipfs://a", T1, 0, 100),
        &program_id,
    );
    assert_eq!(r, Err(HeroError::MissingSignature));
}

#[test]
fn add_requires_program_owner() {
    let program_id = PROGRAM.to_vec();
    let mut repository = repository_account();
    repository.owner = [9u8; 32].to_vec();
    let r = Processor::process_add_record(
        &admin_account(true),
        &mut repository,
        &add_args(0, b"ipfs://a", T1, 0, 100),
        &program_id,
    );
    assert_eq!(r, Err(HeroError::WrongProgramOwner));
}

#[test]
fn add_rejects_unparsable_address_text() {
    let program_id = PROGRAM.to_vec();
    let mut repository = repository_account();
    let args = AddRecordArgs {
        hero_id: 0,
        content_uri: b"ipfs://a".to_vec(),
        key_nft: b"not a base58 address !!".to_vec(),
        last_price: 0,
        listed_price: 0,
    };
    let r = Processor::process_add_record(&admin_account(true), &mut repository, &args, &program_id);
    assert_eq!(r, Err(HeroError::InvalidInstruction));
}

#[test]
fn add_overwrites_existing_slot() {
    let program_id = PROGRAM.to_vec();
    let mut repository = repository_account();
    let adder = admin_account(true);
    Processor::process_add_record(&adder, &mut repository, &add_args(1, b"ipfs://a", T1, 0, 10), &program_id)
        .unwrap();
    Processor::process_add_record(&adder, &mut repository, &add_args(1, b"ipfs://z", T2, 3, 30), &program_id)
        .unwrap();
    let rec = get_nft_data_from_repository(&repository.data, 1).unwrap();
    assert_eq!(rec.content_uri, b"ipfs://z".to_vec());
    assert_eq!(rec.key_nft, T2.to_vec());
    assert_eq!(rec.last_price, 3);
    assert_eq!(rec.listed_price, 30);
}

#[test]
fn update_foreign_holder_fails() {
    let program_id = PROGRAM.to_vec();
    let mut repository = repository_account();
    let adder = admin_account(true);
    Processor::process_add_record(&adder, &mut repository, &add_args(0, b"ipfs://a", T1, 0, 100), &program_id)
        .unwrap();
    let before = repository.data.clone();
    let nft_mint = account(T1, [0u8; 32].to_vec(), false, vec![]);
    let token_acct = account(
        [6u8; 32],
        [0u8; 32].to_vec(),
        false,
        token_account_bytes(T1, [9u8; 32], 1),
    );
    let upd = UpdateRecordArgs {
        hero_id: 0,
        key_nft: T1.to_vec(),
        new_price: 150,
        content_uri: b"ipfs://b".to_vec(),
    };
    let r = Processor::process_update_record(&adder, &mut repository, &nft_mint, &token_acct, &upd, &program_id);
    assert_eq!(r, Err(HeroError::OwnershipMismatch));
    assert_eq!(repository.data, before);
}

#[test]
fn update_checks_stored_token_key() {
    let program_id = PROGRAM.to_vec();
    let mut repository = repository_account();
    let adder = admin_account(true);
    Processor::process_add_record(&adder, &mut repository, &add_args(0, b"ipfs://a", T1, 0, 100), &program_id)
        .unwrap();
    let nft_mint = account(T1, [0u8; 32].to_vec(), false, vec![]);
    let token_acct = account([6u8; 32], [0u8; 32].to_vec(), false, token_account_bytes(T1, ADMIN, 1));
    let upd = UpdateRecordArgs {
        hero_id: 0,
        key_nft: T2.to_vec(),
        new_price: 150,
        content_uri: b"ipfs://b".to_vec(),
    };
    let r = Processor::process_update_record(&adder, &mut repository, &nft_mint, &token_acct, &upd, &program_id);
    assert_eq!(r, Err(HeroError::InvalidTokenKey));
}

#[test]
fn update_rejects_short_token_account() {
    let program_id = PROGRAM.to_vec();
    let mut repository = repository_account();
    let adder = admin_account(true);
    Processor::process_add_record(&adder, &mut repository, &add_args(0, b"ipfs://a", T1, 0, 100), &program_id)
        .unwrap();
    let nft_mint = account(T1, [0u8; 32].to_vec(), false, vec![]);
    let token_acct = account([6u8; 32], [0u8; 32].to_vec(), false, vec![0u8; 10]);
    let upd = UpdateRecordArgs {
        hero_id: 0,
        key_nft: T1.to_vec(),
        new_price: 1,
        content_uri: b"x".to_vec(),
    };
    let r = Processor::process_update_record(&adder, &mut repository, &nft_mint, &token_acct, &upd, &program_id);
    assert_eq!(r, Err(HeroError::InvalidAccountData));
}

#[test]
fn buy_checks_record_key_against_old_mint() {
    let program_id = PROGRAM.to_vec();
    let mut repository = repository_account();
    let adder = admin_account(true);
    Processor::process_add_record(&adder, &mut repository, &add_args(0, b"ipfs://a", T2, 0, 100), &program_id)
        .unwrap();
    let before = repository.data.clone();
    let nft_mint = account(T1, [0u8; 32].to_vec(), false, vec![]);
    let token_acct = account([6u8; 32], [0u8; 32].to_vec(), false, token_account_bytes(T1, ADMIN, 1));
    let meta_program_key = spl_token_metadata::id().to_bytes();
    let metadata_acct = account([5u8; 32], meta_program_key.to_vec(), false, metadata_bytes(T1, ADMIN));
    let r = Processor::process_buy_record(
        &admin_account(true),
        &account(BUYER, [0u8; 32].to_vec(), true, vec![]),
        &admin_account(false),
        &mut repository,
        &nft_mint,
        &token_acct,
        &metadata_acct,
        &account(T2, [0u8; 32].to_vec(), false, vec![]),
        &account([8u8; 32], [0u8; 32].to_vec(), false, vec![]),
        &account([9u8; 32], [0u8; 32].to_vec(), false, vec![]),
        &account(meta_program_key, [0u8; 32].to_vec(), false, vec![]),
        &BuyRecordArgs {
            hero_id: 0,
            dead_uri: b"ipfs://dead".to_vec(),
            dead_name: b"Retired".to_vec(),
        },
        &program_id,
    );
    assert!(matches!(r, Err(HeroError::InvalidNFTKey)));
    assert_eq!(repository.data, before);
}

#[test]
fn buy_rejects_wrong_metadata_mint() {
    let program_id = PROGRAM.to_vec();
    let mut repository = repository_account();
    let adder = admin_account(true);
    Processor::process_add_record(&adder, &mut repository, &add_args(0, b"ipfs://a", T1, 0, 100), &program_id)
        .unwrap();
    let nft_mint = account(T1, [0u8; 32].to_vec(), false, vec![]);
    let token_acct = account([6u8; 32], [0u8; 32].to_vec(), false, token_account_bytes(T1, ADMIN, 1));
    let meta_program_key = spl_token_metadata::id().to_bytes();
    let metadata_acct = account([5u8; 32], meta_program_key.to_vec(), false, metadata_bytes(T2, ADMIN));
    let r = Processor::process_buy_record(
        &admin_account(true),
        &account(BUYER, [0u8; 32].to_vec(), true, vec![]),
        &admin_account(false),
        &mut repository,
        &nft_mint,
        &token_acct,
        &metadata_acct,
        &account(T2, [0u8; 32].to_vec(), false, vec![]),
        &account([8u8; 32], [0u8; 32].to_vec(), false, vec![]),
        &account([9u8; 32], [0u8; 32].to_vec(), false, vec![]),
        &account(meta_program_key, [0u8; 32].to_vec(), false, vec![]),
        &BuyRecordArgs {
            hero_id: 0,
            dead_uri: b"ipfs://dead".to_vec(),
            dead_name: b"Retired".to_vec(),
        },
        &program_id,
    );
    assert!(matches!(r, Err(HeroError::InvalidAccountData)));
}

#[test]
fn verify_holder_reads_packed_fields() {
    let data = token_account_bytes(T1, ADMIN, 1);
    assert!(verify_holder(&data, &ADMIN.to_vec(), &T1.to_vec()).is_ok());
    assert_eq!(
        verify_holder(&data, &T1.to_vec(), &T1.to_vec()),
        Err(HeroError::OwnershipMismatch)
    );
    assert_eq!(
        verify_holder(&data, &ADMIN.to_vec(), &ADMIN.to_vec()),
        Err(HeroError::OwnershipMismatch)
    );
}

#[test]
fn check_metadata_reads_recorded_mint() {
    let meta_program_key = spl_token_metadata::id().to_bytes().to_vec();
    let data = metadata_bytes(T1, ADMIN);
    assert!(check_metadata(&meta_program_key, &data, &meta_program_key, &T1.to_vec()).is_ok());
    assert_eq!(
        check_metadata(&meta_program_key, &data, &meta_program_key, &T2.to_vec()),
        Err(HeroError::InvalidAccountData)
    );
    assert_eq!(
        check_metadata(&[0u8; 32].to_vec(), &data, &meta_program_key, &T1.to_vec()),
        Err(HeroError::InvalidAccountData)
    );
    assert_eq!(
        check_metadata(&meta_program_key, &vec![0u8; 10], &meta_program_key, &T1.to_vec()),
        Err(HeroError::InvalidAccountData)
    );
}

#[test]
fn dispatcher_routes_add_record() {
    let program_id = PROGRAM.to_vec();
    let mut buf = vec![0u8, 0u8];
    let uri = b"ipfs://a";
    buf.extend_from_slice(&(uri.len() as u32).to_le_bytes());
    buf.extend_from_slice(uri);
    let key_text = Pubkey::new_from_array(T1).to_string().into_bytes();
    buf.extend_from_slice(&(key_text.len() as u32).to_le_bytes());
    buf.extend_from_slice(&key_text);
    buf.extend_from_slice(&0u64.to_le_bytes());
    buf.extend_from_slice(&100u64.to_le_bytes());

    let mut accounts = vec![admin_account(true), repository_account()];
    let r = Processor::process(&program_id, &mut accounts, &buf).unwrap();
    assert!(r.is_none());
    let rec = get_nft_data_from_repository(&accounts[1].data, 0).unwrap();
    assert_eq!(rec.key_nft, T1.to_vec());
    assert_eq!(rec.listed_price, 100);
}

#[test]
fn dispatcher_requires_enough_accounts() {
    let program_id = PROGRAM.to_vec();
    let mut buf = vec![0u8, 0u8];
    let uri = b"ipfs://a";
    buf.extend_from_slice(&(uri.len() as u32).to_le_bytes());
    buf.extend_from_slice(uri);
    let key_text = Pubkey::new_from_array(T1).to_string().into_bytes();
    buf.extend_from_slice(&(key_text.len() as u32).to_le_bytes());
    buf.extend_from_slice(&key_text);
    buf.extend_from_slice(&0u64.to_le_bytes());
    buf.extend_from_slice(&100u64.to_le_bytes());

    let mut accounts = vec![admin_account(true)];
    let r = Processor::process(&program_id, &mut accounts, &buf);
    assert!(matches!(r, Err(HeroError::NotEnoughAccounts)));
}

#[test]
fn dispatcher_routes_diagnostic_as_no_op() {
    let program_id = PROGRAM.to_vec();
    let mut accounts = vec![];
    let r = Processor::process(&program_id, &mut accounts, &[3u8]).unwrap();
    assert!(r.is_none());
}
