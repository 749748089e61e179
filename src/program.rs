use vstd::prelude::*;
use crate::error::{ErrorCode, ProgramError};
use crate::ledger::{CreateToken, Ledger, LedgerModel, TransferNft, spec_mint, spec_move};
use crate::metadata::{
    CertificationMetadata, Uses, certification_data, collection_data, decode_uses, decoded_uses,
    spent, spec_certification_data, spec_collection_data,
};

verus! {

/// Minting a certification token, as a transition of the ledger.
pub open spec fn spec_mint_certification(
    l: LedgerModel,
    a: CreateToken,
    m: CertificationMetadata,
) -> (Result<(), ProgramError>, LedgerModel) {
    spec_mint(l, a, spec_certification_data(m))
}

/// Minting a collection token, as a transition of the ledger.
pub open spec fn spec_mint_collection(
    l: LedgerModel,
    a: CreateToken,
    name: String,
    symbol: String,
    uri: String,
) -> (Result<(), ProgramError>, LedgerModel) {
    spec_mint(l, a, spec_collection_data(name, symbol, uri))
}

/// A transfer, as a transition of the ledger: both holdings must exist, the
/// record handed in must not have a spent usage budget, it must be the record
/// of the source holding's mint, and then the token ledger moves the unit.
pub open spec fn spec_transfer(l: LedgerModel, a: TransferNft) -> (
    Result<(), ProgramError>,
    LedgerModel,
) {
    if !l.holdings.contains_key(a.from) || !l.holdings.contains_key(a.to) {
        (Err(ProgramError::AccountNotInitialized), l)
    } else if l.used_up(a.metadata) {
        (Err(ProgramError::Custom(ErrorCode::AlreadyTransferred)), l)
    } else if a.metadata != l.holdings[a.from].mint {
        (Err(ProgramError::ConstraintViolated), l)
    } else {
        spec_move(l, a)
    }
}

/// The transfer gate on a decoded uses field: a spent budget blocks; no
/// budget, a budget with uses left, or data that did not decode (`None`)
/// let the transfer through.
pub open spec fn gate(decoded: Option<Option<Uses>>) -> Result<(), ErrorCode> {
    match decoded {
        Some(u) => if spent(u) {
            Err(ErrorCode::AlreadyTransferred)
        } else {
            Ok(())
        },
        None => Ok(()),
    }
}

/// Applies the transfer gate to the uses field of a decoded record.
pub fn check_uses(decoded: Option<Option<Uses>>) -> (r: Result<(), ErrorCode>)
    ensures
        r == gate(decoded),
{
    match decoded {
        Some(Some(u)) => if u.remaining == 0 {
            Err(ErrorCode::AlreadyTransferred)
        } else {
            Ok(())
        },
        _ => Ok(()),
    }
}

/// Decodes a metadata account's raw data with the metadata program's decoder
/// and applies the transfer gate to its uses field.
pub fn check_transfer(data: &[u8]) -> (r: Result<(), ErrorCode>)
    ensures
        r == gate(decoded_uses(data@)),
{
    check_uses(decode_uses(data))
}

/// Mints a certification token: one unit to the payer's holding, a record
/// with a single-use budget, and a master edition; all or nothing.
pub fn mint_certification_nft(
    ledger: &mut Ledger,
    accounts: &CreateToken,
    metadata: CertificationMetadata,
) -> (r: Result<(), ProgramError>)
    requires
        old(ledger).wf(),
    ensures
        (r, final(ledger)@) == spec_mint_certification(old(ledger)@, *accounts, metadata),
        final(ledger).wf(),
{
    let record = certification_data(metadata);
    ledger.mint(accounts, record)
}

/// Mints a collection token: one unit to the payer's holding, a record with
/// no usage budget, and a master edition; all or nothing.
pub fn mint_collection_nft(
    ledger: &mut Ledger,
    accounts: &CreateToken,
    name: String,
    symbol: String,
    uri: String,
) -> (r: Result<(), ProgramError>)
    requires
        old(ledger).wf(),
    ensures
        (r, final(ledger)@) == spec_mint_collection(old(ledger)@, *accounts, name, symbol, uri),
        final(ledger).wf(),
{
    let record = collection_data(name, symbol, uri);
    ledger.mint(accounts, record)
}

/// Transfers one unit between holdings, unless the record handed in has a
/// spent usage budget or is not the record of the source holding's mint.
pub fn transfer_nft(ledger: &mut Ledger, accounts: &TransferNft) -> (r: Result<(), ProgramError>)
    requires
        old(ledger).wf(),
    ensures
        (r, final(ledger)@) == spec_transfer(old(ledger)@, *accounts),
        final(ledger).wf(),
{
    if ledger.holding(accounts.from).is_none() || ledger.holding(accounts.to).is_none() {
        return Err(ProgramError::AccountNotInitialized);
    }
    if ledger.uses_of(accounts.metadata) matches Some(Some(u)) && u.remaining == 0 {
        return Err(ProgramError::Custom(ErrorCode::AlreadyTransferred));
    }
    match ledger.holding(accounts.from) {
        Some(f) => if f.mint != accounts.metadata {
            return Err(ProgramError::ConstraintViolated);
        },
        None => {},
    }
    ledger.move_unit(accounts)
}

} // verus!
