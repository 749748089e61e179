use vstd::prelude::*;
use crate::error::{ErrorCode, ProgramError};
use crate::ledger::{
    CreateToken, Holding, LedgerModel, TransferNft, spec_mint, spec_move, spec_open_holding,
};
use crate::metadata::{
    CertificationMetadata, IS_MUTABLE, MetadataRecord, exhausted, single_use,
    spec_certification_data, spec_collection_data,
};
use crate::program::{spec_mint_certification, spec_mint_collection, spec_transfer};

verus! {

/// One operation of the program.
pub enum Step {
    Mint(CreateToken, MetadataRecord),
    Transfer(TransferNft),
    OpenHolding(u64, u64, u64),
}

/// The ledger after one operation, whether it succeeded or not.
pub open spec fn apply(l: LedgerModel, s: Step) -> LedgerModel {
    match s {
        Step::Mint(a, r) => spec_mint(l, a, r).1,
        Step::Transfer(a) => spec_transfer(l, a).1,
        Step::OpenHolding(addr, owner, mint) => spec_open_holding(l, addr, owner, mint).1,
    }
}

/// The ledger after a sequence of operations.
pub open spec fn run(l: LedgerModel, steps: Seq<Step>) -> LedgerModel
    decreases steps.len(),
{
    if steps.len() == 0 {
        l
    } else {
        run(apply(l, steps[0]), steps.drop_first())
    }
}

proof fn lemma_apply_wf(l: LedgerModel, s: Step)
    requires
        l.wf(),
    ensures
        apply(l, s).wf(),
{
    let n = apply(l, s);
    match s {
        Step::Mint(a, r) => {
            assert forall|h: u64| #[trigger] n.holdings.contains_key(h) implies n.mints.contains_key(
                n.holdings[h].mint,
            ) by {
                if h != a.associated_token_account && !l.mints.contains_key(a.mint_account) {
                    assert(l.holdings.contains_key(h));
                }
            }
        },
        Step::Transfer(a) => {
            assert forall|h: u64| #[trigger] n.holdings.contains_key(h) implies n.mints.contains_key(
                n.holdings[h].mint,
            ) by {
                assert(l.holdings.contains_key(h));
            }
            assert forall|m: u64| #[trigger] n.metadata.contains_key(m) implies n.mints.contains_key(
                m,
            ) by {
                assert(l.metadata.contains_key(m));
            }
        },
        Step::OpenHolding(addr, owner, mint) => {
            assert forall|h: u64| #[trigger] n.holdings.contains_key(h) implies n.mints.contains_key(
                n.holdings[h].mint,
            ) by {
                if h != addr {
                    assert(l.holdings.contains_key(h));
                }
            }
        },
    }
}

proof fn lemma_run_wf(l: LedgerModel, steps: Seq<Step>)
    requires
        l.wf(),
    ensures
        run(l, steps).wf(),
    decreases steps.len(),
{
    if steps.len() > 0 {
        lemma_apply_wf(l, steps[0]);
        lemma_run_wf(apply(l, steps[0]), steps.drop_first());
    }
}

proof fn lemma_apply_keeps_used_up(l: LedgerModel, s: Step, m: u64)
    requires
        l.wf(),
        l.used_up(m),
    ensures
        apply(l, s).used_up(m),
{
    let n = apply(l, s);
    assert(n.metadata.contains_key(m) && n.metadata[m] == l.metadata[m]);
}

proof fn lemma_run_keeps_used_up(l: LedgerModel, steps: Seq<Step>, m: u64)
    requires
        l.wf(),
        l.used_up(m),
    ensures
        run(l, steps).used_up(m),
    decreases steps.len(),
{
    if steps.len() > 0 {
        lemma_apply_wf(l, steps[0]);
        lemma_apply_keeps_used_up(l, steps[0], m);
        lemma_run_keeps_used_up(apply(l, steps[0]), steps.drop_first(), m);
    }
}

proof fn lemma_apply_keeps_no_uses(l: LedgerModel, s: Step, m: u64)
    requires
        l.wf(),
        l.metadata.contains_key(m),
        l.metadata[m].data.uses is None,
    ensures
        apply(l, s).metadata.contains_key(m),
        apply(l, s).metadata[m].data.uses is None,
{
    let n = apply(l, s);
    assert(n.metadata[m] == l.metadata[m]);
}

proof fn lemma_run_keeps_no_uses(l: LedgerModel, steps: Seq<Step>, m: u64)
    requires
        l.wf(),
        l.metadata.contains_key(m),
        l.metadata[m].data.uses is None,
    ensures
        run(l, steps).metadata.contains_key(m),
        run(l, steps).metadata[m].data.uses is None,
    decreases steps.len(),
{
    if steps.len() > 0 {
        lemma_apply_wf(l, steps[0]);
        lemma_apply_keeps_no_uses(l, steps[0], m);
        lemma_run_keeps_no_uses(apply(l, steps[0]), steps.drop_first(), m);
    }
}

/// A successful certification mint creates, at the new mint, a metadata
/// account of that mint, updatable by the payer, not mutable, whose record
/// holds the supplied texts, no royalty and the single-use budget
/// `{Single, 1, 1}`; a successful collection mint creates the same with no
/// budget.
pub proof fn mint_records_budget(
    l: LedgerModel,
    a: CreateToken,
    m: CertificationMetadata,
    name: String,
    symbol: String,
    uri: String,
)
    ensures
        spec_mint_certification(l, a, m).0 is Ok ==> ({
            let acc = spec_mint_certification(l, a, m).1.metadata[a.mint_account];
            &&& acc.mint == a.mint_account
            &&& acc.update_authority == a.payer
            &&& acc.is_mutable == IS_MUTABLE
            &&& acc.data == spec_certification_data(m)
            &&& acc.data.uses == Some(single_use())
        }),
        spec_mint_collection(l, a, name, symbol, uri).0 is Ok ==> ({
            let acc = spec_mint_collection(l, a, name, symbol, uri).1.metadata[a.mint_account];
            &&& acc.mint == a.mint_account
            &&& acc.update_authority == a.payer
            &&& acc.is_mutable == IS_MUTABLE
            &&& acc.data == spec_collection_data(name, symbol, uri)
            &&& acc.data.uses is None
        }),
{
}

/// After a successful mint, the new token-unit has a supply of exactly one,
/// that unit sits in the payer's holding, and no other holding is of that
/// token-unit.
pub proof fn mint_issues_one_unit(l: LedgerModel, a: CreateToken, record: MetadataRecord)
    requires
        l.wf(),
        spec_mint(l, a, record).0 is Ok,
    ensures
        ({
            let n = spec_mint(l, a, record).1;
            &&& n.mints[a.mint_account].supply == 1
            &&& n.holdings[a.associated_token_account] == Holding {
                owner: a.payer,
                mint: a.mint_account,
                balance: 1,
            }
            &&& forall|h: u64| #[trigger]
                n.holdings.contains_key(h) && h != a.associated_token_account
                    ==> n.holdings[h].mint != a.mint_account
        }),
{
    let n = spec_mint(l, a, record).1;
    assert forall|h: u64| #[trigger]
        n.holdings.contains_key(h) && h != a.associated_token_account implies n.holdings[h].mint
        != a.mint_account by {
        assert(l.holdings.contains_key(h));
    }
}

/// Between existing holdings, a transfer fails with `AlreadyTransferred`
/// exactly when the record handed in has a spent usage budget; otherwise it
/// fails when that record is not of the source holding's mint, and else the
/// token ledger's move decides, which succeeds whenever the source has a unit
/// of the same token-unit as the destination, the signer owns the source, and
/// the destination's balance can grow.
pub proof fn transfer_gated_by_budget(l: LedgerModel, a: TransferNft)
    requires
        l.holdings.contains_key(a.from),
        l.holdings.contains_key(a.to),
    ensures
        (spec_transfer(l, a).0 == Err::<(), ProgramError>(
            ProgramError::Custom(ErrorCode::AlreadyTransferred),
        )) == l.used_up(a.metadata),
        !l.used_up(a.metadata) && a.metadata != l.holdings[a.from].mint ==> spec_transfer(l, a) == (
            Err::<(), ProgramError>(ProgramError::ConstraintViolated),
            l,
        ),
        !l.used_up(a.metadata) && a.metadata == l.holdings[a.from].mint ==> spec_transfer(l, a)
            == spec_move(l, a),
        ({
            let f = l.holdings[a.from];
            let t = l.holdings[a.to];
            !l.used_up(a.metadata) && a.metadata == f.mint && f.balance >= 1 && f.mint == t.mint
                && f.owner == a.authority && (a.from == a.to || t.balance < u64::MAX)
                ==> spec_transfer(l, a).0 is Ok
        }),
{
}

/// Once the record of mint `m` has a spent usage budget, it stays spent
/// whatever operations follow, and every transfer between existing holdings
/// handed that record then fails with `AlreadyTransferred` and changes
/// nothing.
pub proof fn consumed_token_stays_blocked(l: LedgerModel, m: u64, steps: Seq<Step>)
    requires
        l.wf(),
        l.used_up(m),
    ensures
        run(l, steps).used_up(m),
        forall|a: TransferNft|
            a.metadata == m && run(l, steps).holdings.contains_key(a.from) && run(
                l,
                steps,
            ).holdings.contains_key(a.to) ==> #[trigger] spec_transfer(run(l, steps), a) == (
                Err::<(), ProgramError>(ProgramError::Custom(ErrorCode::AlreadyTransferred)),
                run(l, steps),
            ),
{
    lemma_run_keeps_used_up(l, steps, m);
}

/// After a successful collection mint, whatever operations follow, no
/// transfer handed that token's record fails with `AlreadyTransferred`.
pub proof fn collection_never_blocked(
    l: LedgerModel,
    a: CreateToken,
    name: String,
    symbol: String,
    uri: String,
    steps: Seq<Step>,
)
    requires
        l.wf(),
        spec_mint_collection(l, a, name, symbol, uri).0 is Ok,
    ensures
        forall|t: TransferNft|
            t.metadata == a.mint_account ==> #[trigger] spec_transfer(
                run(spec_mint_collection(l, a, name, symbol, uri).1, steps),
                t,
            ).0 != Err::<(), ProgramError>(ProgramError::Custom(ErrorCode::AlreadyTransferred)),
{
    let l1 = spec_mint_collection(l, a, name, symbol, uri).1;
    lemma_apply_wf(l, Step::Mint(a, spec_collection_data(name, symbol, uri)));
    lemma_run_keeps_no_uses(l1, steps, a.mint_account);
}

/// Minting onto an existing token-unit fails and changes nothing; in
/// particular a second mint onto the address of a successful one fails.
pub proof fn no_double_mint(l: LedgerModel, a: CreateToken, first: MetadataRecord, second: MetadataRecord)
    ensures
        l.mints.contains_key(a.mint_account) ==> spec_mint(l, a, second) == (
            Err::<(), ProgramError>(ProgramError::AccountAlreadyInUse),
            l,
        ),
        spec_mint(l, a, first).0 is Ok ==> spec_mint(spec_mint(l, a, first).1, a, second) == (
            Err::<(), ProgramError>(ProgramError::AccountAlreadyInUse),
            spec_mint(l, a, first).1,
        ),
{
}

} // verus!
