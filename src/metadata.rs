use vstd::prelude::*;
use anchor_spl::metadata::mpl_token_metadata::accounts::Metadata;
use anchor_spl::metadata::mpl_token_metadata::types::UseMethod as MplUseMethod;

verus! {

/// Name, symbol and uri of a certification token, as its minter supplies them.
pub struct CertificationMetadata {
    pub name: String,
    pub symbol: String,
    pub uri: String,
}

/// How a token's uses are consumed.
#[derive(Clone, Copy, Debug, PartialEq, Eq, Structural)]
pub enum UseMethod {
    Burn,
    Multiple,
    Single,
}

/// A consumable usage budget on a token.
#[derive(Clone, Copy, Debug, PartialEq, Eq, Structural)]
pub struct Uses {
    pub use_method: UseMethod,
    pub remaining: u64,
    pub total: u64,
}

/// The descriptive record that the metadata store keeps for one token-unit.
/// Tokens minted here carry no creators and no collection link.
pub struct MetadataRecord {
    pub name: String,
    pub symbol: String,
    pub uri: String,
    pub seller_fee_basis_points: u16,
    pub uses: Option<Uses>,
}

/// The budget of a certification token: one single use.
pub open spec fn single_use() -> Uses {
    Uses { use_method: UseMethod::Single, remaining: 1, total: 1 }
}

/// The record created for a certification token.
pub open spec fn spec_certification_data(m: CertificationMetadata) -> MetadataRecord {
    MetadataRecord {
        name: m.name,
        symbol: m.symbol,
        uri: m.uri,
        seller_fee_basis_points: 0,
        uses: Some(single_use()),
    }
}

/// The record created for a collection token.
pub open spec fn spec_collection_data(name: String, symbol: String, uri: String) -> MetadataRecord {
    MetadataRecord { name, symbol, uri, seller_fee_basis_points: 0, uses: None }
}

/// The record for a certification token: the supplied texts, no royalty,
/// and a single-use budget.
pub fn certification_data(metadata: CertificationMetadata) -> (r: MetadataRecord)
    ensures
        r == spec_certification_data(metadata),
{
    MetadataRecord {
        name: metadata.name,
        symbol: metadata.symbol,
        uri: metadata.uri,
        seller_fee_basis_points: 0,
        uses: Some(Uses { use_method: UseMethod::Single, remaining: 1, total: 1 }),
    }
}

/// The record for a collection token: the supplied texts, no royalty, no
/// usage budget.
pub fn collection_data(name: String, symbol: String, uri: String) -> (r: MetadataRecord)
    ensures
        r == spec_collection_data(name, symbol, uri),
{
    MetadataRecord { name, symbol, uri, seller_fee_basis_points: 0, uses: None }
}

/// Whether records are created mutable.
pub const IS_MUTABLE: bool = false;

/// True when a usage budget exists and is spent.
pub open spec fn spent(u: Option<Uses>) -> bool {
    match u {
        Some(u) => u.remaining == 0,
        None => false,
    }
}

/// True when a record's usage budget exists and is spent.
pub open spec fn exhausted(r: MetadataRecord) -> bool {
    spent(r.uses)
}

/// The uses field that the metadata program's decoder reads out of a
/// metadata account's raw data; `None` where the data does not decode as a
/// metadata record.
pub uninterp spec fn decoded_uses(data: Seq<u8>) -> Option<Option<Uses>>;

/// Relies on mpl_token_metadata's `Metadata::safe_deserialize` to decode a
/// metadata account's data; it refuses data that is empty or does not start
/// with the metadata key (4), and otherwise returns an error or the record,
/// whose `uses` field is handed back.
#[verifier::external_body]
pub(crate) fn decode_uses(data: &[u8]) -> (r: Option<Option<Uses>>)
    ensures
        r == decoded_uses(data@),
        data@.len() == 0 || data@[0] != 4u8 ==> r is None,
{
    match Metadata::safe_deserialize(data) {
        Ok(m) => Some(match m.uses {
            Some(u) => Some(Uses {
                use_method: match u.use_method {
                    MplUseMethod::Burn => UseMethod::Burn,
                    MplUseMethod::Multiple => UseMethod::Multiple,
                    MplUseMethod::Single => UseMethod::Single,
                },
                remaining: u.remaining,
                total: u.total,
            }),
            None => None,
        }),
        Err(_) => None,
    }
}

/// Consumes one use of a record whose budget is not yet spent; other
/// records are returned unchanged.
pub open spec fn spec_consume_use(r: MetadataRecord) -> MetadataRecord {
    match r.uses {
        Some(u) => if u.remaining > 0 {
            MetadataRecord { uses: Some(Uses { remaining: (u.remaining - 1) as u64, ..u }), ..r }
        } else {
            r
        },
        None => r,
    }
}

/// Consumes one use of the record, as [`spec_consume_use`] says.
pub fn consume_use(r: MetadataRecord) -> (out: MetadataRecord)
    ensures
        out == spec_consume_use(r),
{
    match r.uses {
        Some(u) => if u.remaining > 0 {
            MetadataRecord {
                uses: Some(Uses { use_method: u.use_method, remaining: u.remaining - 1, total: u.total }),
                ..r
            }
        } else {
            r
        },
        None => r,
    }
}

} // verus!
