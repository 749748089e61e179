//! A model of the accounts that the program's operations act on: token-units,
//! holdings, metadata accounts and master editions, held in maps. On chain
//! these live in the token and metadata programs, which the operations reach
//! by cross-program calls; the model states what the operations do to them,
//! and the laws hold of the model.
use std::collections::HashMap;
use vstd::prelude::*;
use crate::error::ProgramError;
use crate::metadata::{IS_MUTABLE, MetadataRecord, consume_use, exhausted, spec_consume_use};

verus! {

broadcast use vstd::std_specs::hash::group_hash_axioms;

/// A token-unit: its supply and its authorities.
#[derive(Clone, Copy, Debug, PartialEq, Eq, Structural)]
pub struct MintAccount {
    pub supply: u64,
    pub decimals: u8,
    pub mint_authority: u64,
    pub freeze_authority: u64,
}

/// One owner's balance of one token-unit.
#[derive(Clone, Copy, Debug, PartialEq, Eq, Structural)]
pub struct Holding {
    pub owner: u64,
    pub mint: u64,
    pub balance: u64,
}

/// The marker that makes a token-unit the sole authoritative edition.
#[derive(Clone, Copy, Debug, PartialEq, Eq, Structural)]
pub struct MasterEdition {
    pub supply: u64,
    pub max_supply: Option<u64>,
}

/// The accounts that a mint operation names. The metadata and edition
/// records are derived one to one from the mint account, and are found by it.
#[derive(Clone, Copy, Debug, PartialEq, Eq, Structural)]
pub struct CreateToken {
    pub payer: u64,
    pub mint_account: u64,
    pub associated_token_account: u64,
}

/// The accounts that a transfer names. `metadata` is the mint whose metadata
/// account the caller hands in; a transfer refuses one that is not the
/// source holding's mint.
#[derive(Clone, Copy, Debug, PartialEq, Eq, Structural)]
pub struct TransferNft {
    pub from: u64,
    pub to: u64,
    pub authority: u64,
    pub metadata: u64,
}

/// A metadata account: the record of one token-unit and who may update it.
pub struct MetadataAccount {
    pub mint: u64,
    pub update_authority: u64,
    pub is_mutable: bool,
    pub data: MetadataRecord,
}

/// What the accounts hold, keyed by address; metadata accounts and editions
/// are keyed by their mint, from which their addresses are derived.
pub struct LedgerModel {
    pub mints: Map<u64, MintAccount>,
    pub holdings: Map<u64, Holding>,
    pub metadata: Map<u64, MetadataAccount>,
    pub editions: Map<u64, MasterEdition>,
}

impl LedgerModel {
    /// Every holding, record and edition belongs to an existing token-unit.
    pub open spec fn wf(self) -> bool {
        &&& forall|h: u64| #[trigger] self.holdings.contains_key(h) ==> self.mints.contains_key(
            self.holdings[h].mint,
        )
        &&& forall|m: u64| #[trigger] self.metadata.contains_key(m) ==> self.mints.contains_key(m)
        &&& forall|m: u64| #[trigger] self.editions.contains_key(m) ==> self.mints.contains_key(m)
    }

    /// True when the record of mint `m` exists and its usage budget is spent.
    pub open spec fn used_up(self, m: u64) -> bool {
        self.metadata.contains_key(m) && exhausted(self.metadata[m].data)
    }
}

/// Mints one unit of a fresh token-unit to the payer's holding and records
/// `record` and a master edition for it, all or nothing.
pub open spec fn spec_mint(l: LedgerModel, a: CreateToken, record: MetadataRecord) -> (
    Result<(), ProgramError>,
    LedgerModel,
) {
    if l.mints.contains_key(a.mint_account) {
        (Err(ProgramError::AccountAlreadyInUse), l)
    } else if l.holdings.contains_key(a.associated_token_account) {
        // An existing holding is of an existing token-unit, never of the
        // fresh one, so it cannot be the payer's holding of the new token.
        (Err(ProgramError::ConstraintViolated), l)
    } else {
        (
            Ok(()),
            LedgerModel {
                mints: l.mints.insert(
                    a.mint_account,
                    MintAccount {
                        supply: 1,
                        decimals: 0,
                        mint_authority: a.payer,
                        freeze_authority: a.payer,
                    },
                ),
                holdings: l.holdings.insert(
                    a.associated_token_account,
                    Holding { owner: a.payer, mint: a.mint_account, balance: 1 },
                ),
                metadata: l.metadata.insert(
                    a.mint_account,
                    MetadataAccount {
                        mint: a.mint_account,
                        update_authority: a.payer,
                        is_mutable: IS_MUTABLE,
                        data: record,
                    },
                ),
                editions: l.editions.insert(
                    a.mint_account,
                    MasterEdition { supply: 0, max_supply: None },
                ),
            },
        )
    }
}

/// Opens an empty holding at `addr` for `owner`'s balance of `mint`.
pub open spec fn spec_open_holding(l: LedgerModel, addr: u64, owner: u64, mint: u64) -> (
    Result<(), ProgramError>,
    LedgerModel,
) {
    if !l.mints.contains_key(mint) {
        (Err(ProgramError::InvalidMint), l)
    } else if l.holdings.contains_key(addr) {
        (Err(ProgramError::AccountAlreadyInUse), l)
    } else {
        (
            Ok(()),
            LedgerModel {
                holdings: l.holdings.insert(addr, Holding { owner, mint, balance: 0 }),
                ..l
            },
        )
    }
}

/// The token ledger's transfer of one unit from `a.from` to `a.to`,
/// authorised by `a.authority`. The model takes from the description of
/// single-use tokens that moving a token spends one use of its budget, if it
/// has one left; the real token program is not handed the metadata account.
pub open spec fn spec_move(l: LedgerModel, a: TransferNft) -> (
    Result<(), ProgramError>,
    LedgerModel,
) {
    if !l.holdings.contains_key(a.from) || !l.holdings.contains_key(a.to) {
        (Err(ProgramError::AccountNotInitialized), l)
    } else {
        let f = l.holdings[a.from];
        let t = l.holdings[a.to];
        if f.balance < 1 {
            (Err(ProgramError::InsufficientFunds), l)
        } else if f.mint != t.mint {
            (Err(ProgramError::MintMismatch), l)
        } else if f.owner != a.authority {
            (Err(ProgramError::OwnerMismatch), l)
        } else if a.from != a.to && t.balance == u64::MAX {
            (Err(ProgramError::Overflow), l)
        } else {
            let holdings = if a.from == a.to {
                l.holdings
            } else {
                l.holdings.insert(a.from, Holding { balance: (f.balance - 1) as u64, ..f }).insert(
                    a.to,
                    Holding { balance: (t.balance + 1) as u64, ..t },
                )
            };
            let metadata = if l.metadata.contains_key(f.mint) {
                l.metadata.insert(
                    f.mint,
                    MetadataAccount {
                        data: spec_consume_use(l.metadata[f.mint].data),
                        ..l.metadata[f.mint]
                    },
                )
            } else {
                l.metadata
            };
            (Ok(()), LedgerModel { holdings, metadata, ..l })
        }
    }
}

/// The token ledger and metadata store that the program's operations act on.
pub struct Ledger {
    mints: HashMap<u64, MintAccount>,
    holdings: HashMap<u64, Holding>,
    metadata: HashMap<u64, MetadataAccount>,
    editions: HashMap<u64, MasterEdition>,
}

impl View for Ledger {
    type V = LedgerModel;

    closed spec fn view(&self) -> LedgerModel {
        LedgerModel {
            mints: self.mints@,
            holdings: self.holdings@,
            metadata: self.metadata@,
            editions: self.editions@,
        }
    }
}

impl Ledger {
    pub open spec fn wf(&self) -> bool {
        self@.wf()
    }

    /// A ledger with no accounts.
    pub fn new() -> (r: Ledger)
        ensures
            r@.mints.is_empty(),
            r@.holdings.is_empty(),
            r@.metadata.is_empty(),
            r@.editions.is_empty(),
            r.wf(),
    {
        Ledger {
            mints: HashMap::new(),
            holdings: HashMap::new(),
            metadata: HashMap::new(),
            editions: HashMap::new(),
        }
    }

    /// Runs [`spec_mint`].
    pub fn mint(&mut self, a: &CreateToken, record: MetadataRecord) -> (r: Result<(), ProgramError>)
        requires
            old(self).wf(),
        ensures
            (r, final(self)@) == spec_mint(old(self)@, *a, record),
            final(self).wf(),
    {
        if self.mints.contains_key(&a.mint_account) {
            return Err(ProgramError::AccountAlreadyInUse);
        }
        if self.holdings.contains_key(&a.associated_token_account) {
            return Err(ProgramError::ConstraintViolated);
        }
        self.mints.insert(
            a.mint_account,
            MintAccount { supply: 1, decimals: 0, mint_authority: a.payer, freeze_authority: a.payer },
        );
        self.holdings.insert(
            a.associated_token_account,
            Holding { owner: a.payer, mint: a.mint_account, balance: 1 },
        );
        self.metadata.insert(
            a.mint_account,
            MetadataAccount {
                mint: a.mint_account,
                update_authority: a.payer,
                is_mutable: IS_MUTABLE,
                data: record,
            },
        );
        self.editions.insert(a.mint_account, MasterEdition { supply: 0, max_supply: None });
        Ok(())
    }

    /// The holding account at `addr`, if there is one.
    pub fn holding(&self, addr: u64) -> (r: Option<Holding>)
        ensures
            r == (if self@.holdings.contains_key(addr) {
                Some(self@.holdings[addr])
            } else {
                None
            }),
    {
        match self.holdings.get(&addr) {
            Some(h) => Some(*h),
            None => None,
        }
    }

    /// The token-unit at `addr`, if there is one.
    pub fn mint_account(&self, addr: u64) -> (r: Option<MintAccount>)
        ensures
            r == (if self@.mints.contains_key(addr) {
                Some(self@.mints[addr])
            } else {
                None
            }),
    {
        match self.mints.get(&addr) {
            Some(m) => Some(*m),
            None => None,
        }
    }

    /// The usage budget of the record of `mint`: `None` where there is no
    /// record, `Some(None)` where the record has no budget.
    pub fn uses_of(&self, mint: u64) -> (r: Option<Option<crate::metadata::Uses>>)
        ensures
            r == (if self@.metadata.contains_key(mint) {
                Some(self@.metadata[mint].data.uses)
            } else {
                None
            }),
    {
        match self.metadata.get(&mint) {
            Some(acc) => Some(acc.data.uses),
            None => None,
        }
    }

    /// The mint, update authority and mutability of the metadata account of
    /// `mint`, if there is one.
    pub fn metadata_header(&self, mint: u64) -> (r: Option<(u64, u64, bool)>)
        ensures
            r == (if self@.metadata.contains_key(mint) {
                Some(
                    (
                        self@.metadata[mint].mint,
                        self@.metadata[mint].update_authority,
                        self@.metadata[mint].is_mutable,
                    ),
                )
            } else {
                None
            }),
    {
        match self.metadata.get(&mint) {
            Some(acc) => Some((acc.mint, acc.update_authority, acc.is_mutable)),
            None => None,
        }
    }

    /// Whether a master edition exists for `mint`.
    pub fn has_edition(&self, mint: u64) -> (r: bool)
        ensures
            r == self@.editions.contains_key(mint),
    {
        self.editions.contains_key(&mint)
    }

    /// Runs [`spec_open_holding`].
    pub fn open_holding(&mut self, addr: u64, owner: u64, mint: u64) -> (r: Result<(), ProgramError>)
        requires
            old(self).wf(),
        ensures
            (r, final(self)@) == spec_open_holding(old(self)@, addr, owner, mint),
            final(self).wf(),
    {
        if !self.mints.contains_key(&mint) {
            return Err(ProgramError::InvalidMint);
        }
        if self.holdings.contains_key(&addr) {
            return Err(ProgramError::AccountAlreadyInUse);
        }
        self.holdings.insert(addr, Holding { owner, mint, balance: 0 });
        Ok(())
    }

    /// Runs [`spec_move`].
    pub fn move_unit(&mut self, a: &TransferNft) -> (r: Result<(), ProgramError>)
        requires
            old(self).wf(),
        ensures
            (r, final(self)@) == spec_move(old(self)@, *a),
            final(self).wf(),
    {
        let f = match self.holdings.get(&a.from) {
            Some(h) => *h,
            None => return Err(ProgramError::AccountNotInitialized),
        };
        let t = match self.holdings.get(&a.to) {
            Some(h) => *h,
            None => return Err(ProgramError::AccountNotInitialized),
        };
        if f.balance < 1 {
            return Err(ProgramError::InsufficientFunds);
        }
        if f.mint != t.mint {
            return Err(ProgramError::MintMismatch);
        }
        if f.owner != a.authority {
            return Err(ProgramError::OwnerMismatch);
        }
        if a.from != a.to {
            if t.balance == u64::MAX {
                return Err(ProgramError::Overflow);
            }
            self.holdings.insert(a.from, Holding { balance: f.balance - 1, ..f });
            self.holdings.insert(a.to, Holding { balance: t.balance + 1, ..t });
        }
        match self.metadata.remove(&f.mint) {
            Some(acc) => {
                let MetadataAccount { mint, update_authority, is_mutable, data } = acc;
                self.metadata.insert(
                    f.mint,
                    MetadataAccount { mint, update_authority, is_mutable, data: consume_use(data) },
                );
            },
            None => {},
        }
        proof {
            let ghost o = old(self)@;
            assert(self@.metadata =~= spec_move(o, *a).1.metadata);
            assert(self@.holdings =~= spec_move(o, *a).1.holdings);
        }
        Ok(())
    }
}

} // verus!
