//! The client capability: connecting to the exchange and fetching the asset
//! and asset-pair catalogues. The verified core only consumes this interface;
//! the real REST client (and any test double) implements it outside the core,
//! converting wire types into the plain records declared here. Nothing is
//! assumed of a call's outcome: every caller states what holds for each
//! possible result.

use vstd::prelude::*;

verus! {

/// One asset of the exchange catalogue.
#[derive(Debug, Clone)]
pub struct AssetInfo {
    /// Alternative name for the asset.
    pub altname: String,
    /// The asset class.
    pub aclass: String,
    /// Scaling decimal places for record keeping.
    pub decimals: u32,
    /// Scaling decimal places for output display.
    pub display_decimals: u32,
}

/// Ghost image of an [`AssetInfo`].
#[verifier::ext_equal]
pub ghost struct AssetInfoV {
    pub altname: Seq<char>,
    pub aclass: Seq<char>,
    pub decimals: int,
    pub display_decimals: int,
}

impl DeepView for AssetInfo {
    type V = AssetInfoV;

    open spec fn deep_view(&self) -> AssetInfoV {
        AssetInfoV {
            altname: self.altname.deep_view(),
            aclass: self.aclass.deep_view(),
            decimals: self.decimals as int,
            display_decimals: self.display_decimals as int,
        }
    }
}

/// One entry of the asset catalogue: the asset key and its record.
#[derive(Debug, Clone)]
pub struct AssetEntry {
    pub key: String,
    pub info: AssetInfo,
}

/// Ghost image of an [`AssetEntry`].
#[verifier::ext_equal]
pub ghost struct AssetEntryV {
    pub key: Seq<char>,
    pub info: AssetInfoV,
}

impl DeepView for AssetEntry {
    type V = AssetEntryV;

    open spec fn deep_view(&self) -> AssetEntryV {
        AssetEntryV { key: self.key.deep_view(), info: self.info.deep_view() }
    }
}

/// One tradable asset pair of the exchange catalogue.
#[derive(Debug, Clone)]
pub struct AssetPair {
    /// Alternate pair name.
    pub alt_name: Option<String>,
    /// Web-sockets pair name, when available; the display name favorites
    /// refer to.
    pub wsname: Option<String>,
    /// Asset class of the base component.
    pub aclass_base: String,
    /// Asset id of the base component.
    pub base: String,
    /// Asset class of the quote component.
    pub aclass_quote: String,
    /// Asset id of the quote component.
    pub quote: String,
    /// Scaling decimal places for the pair.
    pub pair_decimals: u64,
    /// Scaling decimal places for volume.
    pub lot_decimals: u64,
    /// Amount to multiply lot volume by to get currency volume.
    pub lot_multiplier: u64,
    /// Fee schedule in `[volume, percent]` tuples, each number rendered as
    /// text.
    pub fees: Vec<Vec<String>>,
    /// Minimum order size in terms of the base currency, rendered as text.
    pub ordermin: Option<String>,
}

/// Ghost image of an [`AssetPair`].
#[verifier::ext_equal]
pub ghost struct AssetPairV {
    pub alt_name: Option<Seq<char>>,
    pub wsname: Option<Seq<char>>,
    pub aclass_base: Seq<char>,
    pub base: Seq<char>,
    pub aclass_quote: Seq<char>,
    pub quote: Seq<char>,
    pub pair_decimals: int,
    pub lot_decimals: int,
    pub lot_multiplier: int,
    pub fees: Seq<Seq<Seq<char>>>,
    pub ordermin: Option<Seq<char>>,
}

impl DeepView for AssetPair {
    type V = AssetPairV;

    open spec fn deep_view(&self) -> AssetPairV {
        AssetPairV {
            alt_name: self.alt_name.deep_view(),
            wsname: self.wsname.deep_view(),
            aclass_base: self.aclass_base.deep_view(),
            base: self.base.deep_view(),
            aclass_quote: self.aclass_quote.deep_view(),
            quote: self.quote.deep_view(),
            pair_decimals: self.pair_decimals as int,
            lot_decimals: self.lot_decimals as int,
            lot_multiplier: self.lot_multiplier as int,
            fees: self.fees.deep_view(),
            ordermin: self.ordermin.deep_view(),
        }
    }
}

/// One entry of the asset-pair catalogue: the pair key and its record.
#[derive(Debug, Clone)]
pub struct AssetPairEntry {
    pub key: String,
    pub pair: AssetPair,
}

/// Ghost image of an [`AssetPairEntry`].
#[verifier::ext_equal]
pub ghost struct AssetPairEntryV {
    pub key: Seq<char>,
    pub pair: AssetPairV,
}

impl DeepView for AssetPairEntry {
    type V = AssetPairEntryV;

    open spec fn deep_view(&self) -> AssetPairEntryV {
        AssetPairEntryV { key: self.key.deep_view(), pair: self.pair.deep_view() }
    }
}

/// The asset catalogue, in the order the client handed it over.
pub type AssetsResponse = Vec<AssetEntry>;

/// The asset-pair catalogue, in the order the client handed it over.
pub type AssetPairsResponse = Vec<AssetPairEntry>;

/// The first catalogue entry at or after position `i` whose pair carries
/// `fav` as its display name.
pub open spec fn find_pair_from(pairs: Seq<AssetPairEntryV>, fav: Seq<char>, i: int) -> Option<
    AssetPairV,
>
    decreases pairs.len() - i,
{
    if i < 0 || i >= pairs.len() {
        None
    } else if pairs[i].pair.wsname == Some(fav) {
        Some(pairs[i].pair)
    } else {
        find_pair_from(pairs, fav, i + 1)
    }
}

/// The first catalogue entry whose pair carries `fav` as its display name.
pub open spec fn find_pair(pairs: Seq<AssetPairEntryV>, fav: Seq<char>) -> Option<AssetPairV> {
    find_pair_from(pairs, fav, 0)
}

/// The index of the first catalogue entry whose pair carries `fav` as its
/// display name, if any pair does.
pub fn find_pair_index(pairs: &Vec<AssetPairEntry>, fav: &String) -> (r: Option<usize>)
    ensures
        match r {
            Some(i) => {
                &&& i < pairs@.len()
                &&& find_pair(crate::list::seq_deep(pairs@), fav@) == Some(
                    pairs@[i as int].pair.deep_view(),
                )
            },
            None => find_pair(crate::list::seq_deep(pairs@), fav@) is None,
        },
{
    let ghost pv = crate::list::seq_deep(pairs@);
    let mut i: usize = 0;
    while i < pairs.len()
        invariant
            i <= pairs@.len(),
            pv == crate::list::seq_deep(pairs@),
            find_pair(pv, fav@) == find_pair_from(pv, fav@, i as int),
        decreases pairs@.len() - i,
    {
        let found = match &pairs[i].pair.wsname {
            Some(w) => *w == *fav,
            None => false,
        };
        if found {
            return Some(i);
        }
        i = i + 1;
    }
    None
}

/// A failure reported by the exchange client; the core only logs it.
#[derive(Debug)]
pub struct ClientError {
    pub message: String,
}

/// Capability the dashboard consumes from the exchange client. All three
/// calls report failure by value rather than panicking; the core renders an
/// empty-but-valid state on any absence and stays fully navigable.
pub trait RestAPI {
    /// Establish the connection the two catalogue calls use.
    fn connect(&mut self) -> Result<(), ClientError>;

    /// Fetch the asset catalogue; `None` reports failure.
    fn list_assets(&self) -> Option<AssetsResponse>;

    /// Fetch the asset-pair catalogue; `None` reports failure.
    fn list_asset_pairs(&self) -> Option<AssetPairsResponse>;
}

} // verus!
