use nft_program::error::{ErrorCode, ProgramError};
use nft_program::ledger::{CreateToken, Holding, Ledger, TransferNft};
use nft_program::metadata::{
    certification_data, collection_data, consume_use, CertificationMetadata, UseMethod, Uses,
};
use nft_program::program::{
    check_transfer, check_uses, mint_certification_nft, mint_collection_nft, transfer_nft,
};

const PAYER: u64 = 1;
const MINT: u64 = 100;
const PAYER_HOLDING: u64 = 200;

fn accounts() -> CreateToken {
    CreateToken { payer: PAYER, mint_account: MINT, associated_token_account: PAYER_HOLDING }
}

fn cert(name: &str, symbol: &str, uri: &str) -> CertificationMetadata {
    CertificationMetadata { name: name.to_string(), symbol: symbol.to_string(), uri: uri.to_string() }
}

fn single() -> Option<Uses> {
    Some(Uses { use_method: UseMethod::Single, remaining: 1, total: 1 })
}

fn balance(l: &Ledger, addr: u64) -> u64 {
    l.holding(addr).unwrap().balance
}

fn minted_certification() -> Ledger {
    let mut l = Ledger::new();
    assert_eq!(mint_certification_nft(&mut l, &accounts(), cert("Cert-A", "CRT", "ipfs://x")), Ok(()));
    l
}

fn minted_collection() -> Ledger {
    let mut l = Ledger::new();
    let r = mint_collection_nft(
        &mut l,
        &accounts(),
        "Coll-A".to_string(),
        "COL".to_string(),
        "ipfs://y".to_string(),
    );
    assert_eq!(r, Ok(()));
    l
}

const ALREADY: Result<(), ProgramError> = Err(ProgramError::Custom(ErrorCode::AlreadyTransferred));

#[test]
fn certification_transfers_once_then_fails() {
    let mut l = minted_certification();
    l.open_holding(300, 2, MINT).unwrap();
    l.open_holding(400, 3, MINT).unwrap();
    let first = TransferNft { from: PAYER_HOLDING, to: 300, authority: PAYER, metadata: MINT };
    assert_eq!(transfer_nft(&mut l, &first), Ok(()));
    assert_eq!(balance(&l, PAYER_HOLDING), 0);
    assert_eq!(balance(&l, 300), 1);
    let second = TransferNft { from: 300, to: 400, authority: 2, metadata: MINT };
    assert_eq!(transfer_nft(&mut l, &second), ALREADY);
}

#[test]
fn collection_transfers_three_times() {
    let mut l = minted_collection();
    l.open_holding(300, 2, MINT).unwrap();
    l.open_holding(400, 3, MINT).unwrap();
    let t1 = TransferNft { from: PAYER_HOLDING, to: 300, authority: PAYER, metadata: MINT };
    let t2 = TransferNft { from: 300, to: 400, authority: 2, metadata: MINT };
    let t3 = TransferNft { from: 400, to: PAYER_HOLDING, authority: 3, metadata: MINT };
    assert_eq!(transfer_nft(&mut l, &t1), Ok(()));
    assert_eq!(transfer_nft(&mut l, &t2), Ok(()));
    assert_eq!(transfer_nft(&mut l, &t3), Ok(()));
    assert_eq!(balance(&l, PAYER_HOLDING), 1);
    assert_eq!(balance(&l, 300), 0);
    assert_eq!(balance(&l, 400), 0);
}

#[test]
fn collection_transfers_many_times() {
    let mut l = minted_collection();
    l.open_holding(300, 2, MINT).unwrap();
    let there = TransferNft { from: PAYER_HOLDING, to: 300, authority: PAYER, metadata: MINT };
    let back = TransferNft { from: 300, to: PAYER_HOLDING, authority: 2, metadata: MINT };
    for _ in 0..20 {
        assert_eq!(transfer_nft(&mut l, &there), Ok(()));
        assert_eq!(transfer_nft(&mut l, &back), Ok(()));
    }
    assert_eq!(l.uses_of(MINT), Some(None));
}

#[test]
fn certification_mint_records_single_use() {
    let l = minted_certification();
    assert_eq!(l.uses_of(MINT), Some(single()));
    assert!(l.has_edition(MINT));
}

#[test]
fn collection_mint_records_no_uses() {
    let l = minted_collection();
    assert_eq!(l.uses_of(MINT), Some(None));
    assert!(l.has_edition(MINT));
}

#[test]
fn mint_issues_one_unit_to_payer() {
    for l in [minted_certification(), minted_collection()] {
        let m = l.mint_account(MINT).unwrap();
        assert_eq!(m.supply, 1);
        assert_eq!(m.decimals, 0);
        assert_eq!(m.mint_authority, PAYER);
        assert_eq!(m.freeze_authority, PAYER);
        assert_eq!(l.holding(PAYER_HOLDING), Some(Holding { owner: PAYER, mint: MINT, balance: 1 }));
    }
}

#[test]
fn double_mint_fails_and_changes_nothing() {
    let mut l = minted_certification();
    let again = mint_collection_nft(&mut l, &accounts(), "B".to_string(), "B".to_string(), "B".to_string());
    assert_eq!(again, Err(ProgramError::AccountAlreadyInUse));
    assert_eq!(l.uses_of(MINT), Some(single()));
    assert_eq!(l.mint_account(MINT).unwrap().supply, 1);
    assert_eq!(balance(&l, PAYER_HOLDING), 1);
    let other_holding = CreateToken { associated_token_account: 999, ..accounts() };
    assert_eq!(
        mint_certification_nft(&mut l, &other_holding, cert("C", "C", "C")),
        Err(ProgramError::AccountAlreadyInUse)
    );
    assert_eq!(l.holding(999), None);
}

#[test]
fn mint_onto_existing_holding_is_refused() {
    let mut l = minted_certification();
    let clash = CreateToken { payer: PAYER, mint_account: 101, associated_token_account: PAYER_HOLDING };
    assert_eq!(mint_certification_nft(&mut l, &clash, cert("D", "D", "D")), Err(ProgramError::ConstraintViolated));
    assert_eq!(l.mint_account(101), None);
    assert_eq!(l.uses_of(101), None);
    assert!(!l.has_edition(101));
}

#[test]
fn consumed_token_stays_blocked_and_balances_stay() {
    let mut l = minted_certification();
    l.open_holding(300, 2, MINT).unwrap();
    let first = TransferNft { from: PAYER_HOLDING, to: 300, authority: PAYER, metadata: MINT };
    assert_eq!(transfer_nft(&mut l, &first), Ok(()));
    assert_eq!(l.uses_of(MINT), Some(Some(Uses { use_method: UseMethod::Single, remaining: 0, total: 1 })));
    let back = TransferNft { from: 300, to: PAYER_HOLDING, authority: 2, metadata: MINT };
    for _ in 0..5 {
        assert_eq!(transfer_nft(&mut l, &back), ALREADY);
        assert_eq!(transfer_nft(&mut l, &first), ALREADY);
        assert_eq!(balance(&l, PAYER_HOLDING), 0);
        assert_eq!(balance(&l, 300), 1);
    }
    // Other mints leave the flag where it is.
    let next = CreateToken { payer: 5, mint_account: 101, associated_token_account: 201 };
    assert_eq!(mint_certification_nft(&mut l, &next, cert("E", "E", "E")), Ok(()));
    assert_eq!(transfer_nft(&mut l, &back), ALREADY);
}

fn borsh_str(out: &mut Vec<u8>, text: &str) {
    out.extend_from_slice(&(text.len() as u32).to_le_bytes());
    out.extend_from_slice(text.as_bytes());
}

/// A metadata account's data in the metadata program's layout, with the
/// given update-authority key and uses field (method, remaining, total).
fn metadata_bytes(authority: [u8; 32], uses: Option<(u8, u64, u64)>) -> Vec<u8> {
    let mut out = vec![4u8];
    out.extend_from_slice(&authority);
    out.extend_from_slice(&[7u8; 32]);
    borsh_str(&mut out, "Cert-A");
    borsh_str(&mut out, "CRT");
    borsh_str(&mut out, "ipfs://x");
    out.extend_from_slice(&0u16.to_le_bytes());
    out.push(0); // creators
    out.push(0); // primary sale happened
    out.push(0); // is mutable
    out.push(0); // edition nonce
    out.push(0); // token standard
    out.push(0); // collection
    match uses {
        Some((method, remaining, total)) => {
            out.push(1);
            out.push(method);
            out.extend_from_slice(&remaining.to_le_bytes());
            out.extend_from_slice(&total.to_le_bytes());
        }
        None => out.push(0),
    }
    out.push(0); // collection details
    out.push(0); // programmable config
    out
}

#[test]
fn gate_on_uses_field() {
    assert_eq!(check_uses(Some(single())), Ok(()));
    let spent = Some(Uses { use_method: UseMethod::Single, remaining: 0, total: 1 });
    assert_eq!(check_uses(Some(spent)), Err(ErrorCode::AlreadyTransferred));
    assert_eq!(check_uses(Some(None)), Ok(()));
    assert_eq!(check_uses(None), Ok(()));
    let many = Some(Uses { use_method: UseMethod::Multiple, remaining: 0, total: 5 });
    assert_eq!(check_uses(Some(many)), Err(ErrorCode::AlreadyTransferred));
}

#[test]
fn gate_decodes_metadata_records() {
    let key = [0u8; 32];
    assert_eq!(check_transfer(&metadata_bytes(key, Some((2, 1, 1)))), Ok(()));
    assert_eq!(
        check_transfer(&metadata_bytes(key, Some((2, 0, 1)))),
        Err(ErrorCode::AlreadyTransferred)
    );
    assert_eq!(check_transfer(&metadata_bytes(key, None)), Ok(()));
}

#[test]
fn gate_ignores_the_authority_key_bytes() {
    // Byte 8 lies inside the update-authority key; its value decides nothing.
    let key = [1u8; 32];
    let data = metadata_bytes(key, None);
    assert_eq!(data[8], 1);
    assert_eq!(check_transfer(&data), Ok(()));
}

#[test]
fn gate_passes_data_that_does_not_decode() {
    assert_eq!(check_transfer(&[]), Ok(()));
    assert_eq!(check_transfer(&[1u8; 9]), Ok(()));
    let mut wrong_key = metadata_bytes([0u8; 32], Some((2, 0, 1)));
    wrong_key[0] = 6;
    assert_eq!(check_transfer(&wrong_key), Ok(()));
}

#[test]
fn transfer_requires_the_source_mint_record() {
    let mut l = minted_collection();
    l.open_holding(300, 2, MINT).unwrap();
    let other = CreateToken { payer: 7, mint_account: 500, associated_token_account: 600 };
    let r = mint_collection_nft(&mut l, &other, "F".to_string(), "F".to_string(), "F".to_string());
    assert_eq!(r, Ok(()));
    let foreign = TransferNft { from: PAYER_HOLDING, to: 300, authority: PAYER, metadata: 500 };
    assert_eq!(transfer_nft(&mut l, &foreign), Err(ProgramError::ConstraintViolated));
    let absent = TransferNft { metadata: 12345, ..foreign };
    assert_eq!(transfer_nft(&mut l, &absent), Err(ProgramError::ConstraintViolated));
    assert_eq!(balance(&l, PAYER_HOLDING), 1);
    assert_eq!(balance(&l, 300), 0);
    let own = TransferNft { metadata: MINT, ..foreign };
    assert_eq!(transfer_nft(&mut l, &own), Ok(()));
}

#[test]
fn metadata_account_header() {
    let l = minted_certification();
    assert_eq!(l.metadata_header(MINT), Some((MINT, PAYER, false)));
    assert_eq!(l.metadata_header(42), None);
    let k = minted_collection();
    assert_eq!(k.metadata_header(MINT), Some((MINT, PAYER, false)));
}

#[test]
fn transfer_errors() {
    let mut l = minted_certification();
    l.open_holding(300, 2, MINT).unwrap();
    let missing = TransferNft { from: PAYER_HOLDING, to: 301, authority: PAYER, metadata: MINT };
    assert_eq!(transfer_nft(&mut l, &missing), Err(ProgramError::AccountNotInitialized));
    let empty = TransferNft { from: 300, to: PAYER_HOLDING, authority: 2, metadata: MINT };
    assert_eq!(transfer_nft(&mut l, &empty), Err(ProgramError::InsufficientFunds));
    let thief = TransferNft { from: PAYER_HOLDING, to: 300, authority: 9, metadata: MINT };
    assert_eq!(transfer_nft(&mut l, &thief), Err(ProgramError::OwnerMismatch));
    let other = CreateToken { payer: 3, mint_account: 101, associated_token_account: 201 };
    let r = mint_collection_nft(&mut l, &other, "G".to_string(), "G".to_string(), "G".to_string());
    assert_eq!(r, Ok(()));
    let crossed = TransferNft { from: PAYER_HOLDING, to: 201, authority: PAYER, metadata: MINT };
    assert_eq!(transfer_nft(&mut l, &crossed), Err(ProgramError::MintMismatch));
    assert_eq!(balance(&l, PAYER_HOLDING), 1);
    assert_eq!(balance(&l, 201), 1);
    assert_eq!(l.uses_of(MINT), Some(single()));
}

#[test]
fn self_transfer_keeps_balance() {
    let mut l = minted_collection();
    let t = TransferNft { from: PAYER_HOLDING, to: PAYER_HOLDING, authority: PAYER, metadata: MINT };
    assert_eq!(transfer_nft(&mut l, &t), Ok(()));
    assert_eq!(balance(&l, PAYER_HOLDING), 1);
}

#[test]
fn open_holding_errors() {
    let mut l = minted_collection();
    assert_eq!(l.open_holding(300, 2, 77), Err(ProgramError::InvalidMint));
    assert_eq!(l.open_holding(PAYER_HOLDING, 2, MINT), Err(ProgramError::AccountAlreadyInUse));
    assert_eq!(l.open_holding(300, 2, MINT), Ok(()));
    assert_eq!(l.holding(300), Some(Holding { owner: 2, mint: MINT, balance: 0 }));
}

#[test]
fn record_builders() {
    let c = certification_data(cert("Cert-A", "CRT", "ipfs://x"));
    assert_eq!(c.name, "Cert-A");
    assert_eq!(c.symbol, "CRT");
    assert_eq!(c.uri, "ipfs://x");
    assert_eq!(c.seller_fee_basis_points, 0);
    assert_eq!(c.uses, single());
    let k = collection_data("Coll-A".to_string(), "COL".to_string(), "ipfs://y".to_string());
    assert_eq!(k.name, "Coll-A");
    assert_eq!(k.symbol, "COL");
    assert_eq!(k.uri, "ipfs://y");
    assert_eq!(k.seller_fee_basis_points, 0);
    assert_eq!(k.uses, None);
}

#[test]
fn consume_use_spends_one() {
    let c = consume_use(certification_data(cert("a", "b", "c")));
    assert_eq!(c.uses, Some(Uses { use_method: UseMethod::Single, remaining: 0, total: 1 }));
    let c2 = consume_use(c);
    assert_eq!(c2.uses, Some(Uses { use_method: UseMethod::Single, remaining: 0, total: 1 }));
    let k = consume_use(collection_data("a".to_string(), "b".to_string(), "c".to_string()));
    assert_eq!(k.uses, None);
}

#[test]
fn error_message() {
    assert_eq!(
        ErrorCode::AlreadyTransferred.message(),
        "This certification NFT has already been transferred and cannot be transferred again"
    );
}
