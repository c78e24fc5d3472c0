use vstd::prelude::*;
use switchboard_on_demand::on_demand::accounts::pull_feed::PullFeedAccountData;
use switchboard_on_demand::prelude::rust_decimal::prelude::ToPrimitive;
use switchboard_on_demand::prelude::rust_decimal::Decimal;
use switchboard_on_demand::OnDemandError;
use crate::address::Address;
use crate::error::VaultError;

verus! {

/// How long, in seconds, a cached feed value is served without a refresh.
pub const PRICE_TTL: u64 = 60;

/// Largest magnitude a fixed-point feed value may have to be a decimal number
/// (a 96-bit mantissa).
pub const FEED_MAX_MANTISSA: i128 = 0xFFFF_FFFF_FFFF_FFFF_FFFF_FFFF;

/// One unit of a feed value: feeds report fixed-point numbers with 18 decimals.
pub const FEED_UNIT: i128 = 1_000_000_000_000_000_000;

/// Number of assets the cache follows.
pub const ASSET_COUNT: usize = 7;

/// The error switchboard_on_demand reports when feed data does not parse;
/// it is only carried, never inspected.
#[verifier::external_type_specification]
#[verifier::external_body]
pub struct ExOnDemandError(OnDemandError);

/// An asset with an oracle feed.
#[derive(Clone, Copy, Debug, PartialEq, Eq, Structural)]
pub enum Asset {
    Sol,
    JupSol,
    VSol,
    BSol,
    MSol,
    HSol,
    JitoSol,
}

/// Which of an asset's feeds is read.
#[derive(Clone, Copy, Debug, PartialEq, Eq, Structural)]
pub enum DataKind {
    Price,
    Apy,
}

/// The current result of a pull feed: its value as an 18-decimal fixed-point
/// number and the slot it was produced at (0 while there is no result yet).
#[derive(Clone, Copy, Debug, PartialEq, Eq, Structural)]
pub struct FeedResult {
    pub value: i128,
    pub slot: u64,
}

/// Cached state of one asset: where its feeds live, the last price and APY
/// fetched, and when each was fetched (`None` until the first fetch). The price
/// and the APY age independently.
#[derive(Clone, Copy, Debug, PartialEq, Eq, Structural)]
pub struct AssetFeeds {
    pub price_feed: Address,
    pub apy_feed: Option<Address>,
    pub price: u64,
    pub price_updated: Option<u64>,
    /// Fixed-point with 18 decimals, as the feed reports it.
    pub apy: i128,
    pub apy_updated: Option<u64>,
}

/// What a read returns: a price, and the APY when the APY was read.
#[derive(Clone, Copy, Debug, PartialEq, Eq, Structural)]
pub struct Quote {
    pub price: u64,
    pub apy: Option<i128>,
}

/// The eight bytes every pull feed account starts with.
pub open spec fn pull_feed_discriminator() -> Seq<u8> {
    seq![196u8, 27u8, 108u8, 196u8, 10u8, 215u8, 219u8, 40u8]
}

/// Length of a pull feed account: the discriminator and the `repr(C)`
/// account body, whose padding is explicit.
pub const PULL_FEED_ACCOUNT_LEN: usize = 3208;

/// Where the current result's value (a little-endian `i128`) starts in a pull
/// feed account.
pub const FEED_RESULT_VALUE_AT: usize = 2264;

/// Where the current result's slot (a little-endian `u64`) starts in a pull
/// feed account.
pub const FEED_RESULT_SLOT_AT: usize = 2368;

/// The unsigned number whose little-endian bytes are `bytes`.
pub open spec fn le_value(bytes: Seq<u8>) -> nat
    decreases bytes.len(),
{
    if bytes.len() == 0 {
        0
    } else {
        bytes[0] as nat + 256 * le_value(bytes.subrange(1, bytes.len() as int))
    }
}

/// The `i128` whose little-endian two's-complement bytes are `bytes`.
pub open spec fn le_i128(bytes: Seq<u8>) -> i128 {
    let u = le_value(bytes);
    if u >= 0x8000_0000_0000_0000_0000_0000_0000_0000 {
        (u - 0x1_0000_0000_0000_0000_0000_0000_0000_0000) as i128
    } else {
        u as i128
    }
}

/// The current result a pull feed account holds, or `None` where `data` is
/// no pull feed account: too short, or not starting with the discriminator.
pub open spec fn pull_feed_result(data: Seq<u8>) -> Option<FeedResult> {
    if data.len() >= PULL_FEED_ACCOUNT_LEN && data.subrange(0, 8) == pull_feed_discriminator() {
        Some(
            FeedResult {
                value: le_i128(
                    data.subrange(FEED_RESULT_VALUE_AT as int, FEED_RESULT_VALUE_AT as int + 16),
                ),
                slot: le_value(data.subrange(FEED_RESULT_SLOT_AT as int, FEED_RESULT_SLOT_AT as int + 8))
                    as u64,
            },
        )
    } else {
        None
    }
}

/// Relies on switchboard_on_demand's `PullFeedAccountData::parse`: it accepts
/// data at least as long as the account that starts with the discriminator,
/// and reads the `repr(C)` body in place; the current result is
/// `result.value` and `result.slot` at fixed offsets. The parser also asks for
/// the body to be aligned, so the data is copied to a buffer backed by `u128`
/// words, eight bytes in, which puts the body after the discriminator on that
/// alignment; the buffer is a word per data byte, which holds the data past
/// those eight bytes.
#[verifier::external_body]
fn parse_pull_feed(data: &[u8]) -> (r: Result<FeedResult, OnDemandError>)
    requires
        data@.len() >= 8,
    ensures
        r matches Ok(f) ==> pull_feed_result(data@) == Some(f),
        r is Err ==> pull_feed_result(data@) is None,
{
    let mut words = vec![0u128; data.len()];
    let bytes: &mut [u8] = bytemuck::cast_slice_mut(&mut words);
    let view = &mut bytes[8..][..data.len()];
    view.copy_from_slice(data);
    let cell = std::cell::RefCell::new(view);
    let parsed = PullFeedAccountData::parse(cell.borrow());
    match parsed {
        Ok(feed) => Ok(FeedResult { value: feed.result.value, slot: feed.result.slot }),
        Err(e) => Err(e),
    }
}

/// Relies on rust_decimal's `Decimal::from_i128_with_scale` (which panics
/// beyond a 96-bit mantissa) and `ToPrimitive::to_u64` on it: a negative value
/// gives `None`, any other the integer part of `raw / 10^18`.
#[verifier::external_body]
fn feed_value_to_u64(raw: i128) -> (r: Option<u64>)
    requires
        -FEED_MAX_MANTISSA <= raw <= FEED_MAX_MANTISSA,
    ensures
        r == (if raw < 0 { None } else { Some((raw as int / (FEED_UNIT as int)) as u64) }),
{
    Decimal::from_i128_with_scale(raw, switchboard_on_demand::on_demand::accounts::pull_feed::PRECISION).to_u64()
}

/// Position of an asset in the cache.
pub open spec fn asset_index(asset: Asset) -> int {
    match asset {
        Asset::Sol => 0,
        Asset::JupSol => 1,
        Asset::VSol => 2,
        Asset::BSol => 3,
        Asset::MSol => 4,
        Asset::HSol => 5,
        Asset::JitoSol => 6,
    }
}

/// SOL has a price feed only; every other asset has a price and an APY feed.
pub open spec fn has_feed(asset: Asset, kind: DataKind) -> bool {
    !(asset == Asset::Sol && kind == DataKind::Apy)
}

/// A value fetched at `updated` is served until `PRICE_TTL` seconds later.
pub open spec fn is_fresh(updated: Option<u64>, now: u64) -> bool {
    match updated {
        Some(t) => now <= t + PRICE_TTL,
        None => false,
    }
}

pub open spec fn entry_fresh(e: AssetFeeds, kind: DataKind, now: u64) -> bool {
    match kind {
        DataKind::Price => is_fresh(e.price_updated, now),
        DataKind::Apy => is_fresh(e.apy_updated, now),
    }
}

pub open spec fn cached_quote(e: AssetFeeds, kind: DataKind) -> Quote {
    match kind {
        DataKind::Price => Quote { price: e.price, apy: None },
        DataKind::Apy => Quote { price: e.price, apy: Some(e.apy) },
    }
}

/// The price a fetched feed result stands for, or why there is none.
pub open spec fn feed_price(fetched: Option<FeedResult>) -> Result<u64, VaultError> {
    match fetched {
        None => Err(VaultError::FeedUnavailable),
        Some(f) => if f.slot == 0 {
            Err(VaultError::FeedUnavailable)
        } else if f.value < 0 || f.value > FEED_MAX_MANTISSA {
            Err(VaultError::PriceConversionFailed)
        } else if f.value as int / (FEED_UNIT as int) == 0 {
            Err(VaultError::ZeroPrice)
        } else {
            Ok((f.value as int / (FEED_UNIT as int)) as u64)
        },
    }
}

/// The APY a fetched feed result stands for, or why there is none.
pub open spec fn feed_apy(fetched: Option<FeedResult>) -> Result<i128, VaultError> {
    match fetched {
        None => Err(VaultError::FeedUnavailable),
        Some(f) => if f.slot == 0 {
            Err(VaultError::FeedUnavailable)
        } else if f.value < -FEED_MAX_MANTISSA || f.value > FEED_MAX_MANTISSA {
            Err(VaultError::PriceConversionFailed)
        } else {
            Ok(f.value)
        },
    }
}

/// An asset's entry after storing a fetched value of the given kind at `now`.
pub open spec fn refreshed(
    e: AssetFeeds,
    kind: DataKind,
    now: u64,
    fetched: Option<FeedResult>,
) -> Result<AssetFeeds, VaultError> {
    match kind {
        DataKind::Price => match feed_price(fetched) {
            Ok(p) => Ok(AssetFeeds { price: p, price_updated: Some(now), ..e }),
            Err(x) => Err(x),
        },
        DataKind::Apy => match feed_apy(fetched) {
            Ok(a) => Ok(AssetFeeds { apy: a, apy_updated: Some(now), ..e }),
            Err(x) => Err(x),
        },
    }
}

/// A read of `(asset, kind)` at `now` on cache contents `feeds`, where a fetch
/// from the feed, if one is made, yields `fetched`: the result and the cache
/// contents afterwards. A fresh entry is served as it is; a stale one is
/// replaced by the fetched value, and only that entry changes.
pub open spec fn read_outcome(
    feeds: Seq<AssetFeeds>,
    asset: Asset,
    kind: DataKind,
    now: u64,
    fetched: Option<FeedResult>,
) -> (Result<Quote, VaultError>, Seq<AssetFeeds>) {
    let i = asset_index(asset);
    if !has_feed(asset, kind) {
        (Err(VaultError::InvalidAsset), feeds)
    } else if entry_fresh(feeds[i], kind, now) {
        (Ok(cached_quote(feeds[i], kind)), feeds)
    } else {
        match refreshed(feeds[i], kind, now, fetched) {
            Ok(e) => (Ok(cached_quote(e, kind)), feeds.update(i, e)),
            Err(x) => (Err(x), feeds),
        }
    }
}

/// A price is held only once fetched, and a fetched price is positive.
pub open spec fn price_entry_ok(e: AssetFeeds) -> bool {
    e.price_updated is Some ==> e.price > 0
}

/// The entry of asset number `j` in a cache that has fetched nothing yet.
pub open spec fn unset_entry(price_feeds: Seq<Address>, apy_feeds: Seq<Address>, j: int) -> AssetFeeds {
    AssetFeeds {
        price_feed: price_feeds[j],
        apy_feed: if j == 0 { None } else { Some(apy_feeds[j - 1]) },
        price: 0,
        price_updated: None,
        apy: 0,
        apy_updated: None,
    }
}

/// The asset a feed request names: "SOL", "JupSOL", "vSOL", "bSOL", "mSOL",
/// "HSOL" or "JitoSOL".
pub open spec fn asset_named(name: Seq<char>) -> Option<Asset> {
    if name == "SOL"@ {
        Some(Asset::Sol)
    } else if name == "JupSOL"@ {
        Some(Asset::JupSol)
    } else if name == "vSOL"@ {
        Some(Asset::VSol)
    } else if name == "bSOL"@ {
        Some(Asset::BSol)
    } else if name == "mSOL"@ {
        Some(Asset::MSol)
    } else if name == "HSOL"@ {
        Some(Asset::HSol)
    } else if name == "JitoSOL"@ {
        Some(Asset::JitoSol)
    } else {
        None
    }
}

/// The data kind a feed request names: "price" or "apy".
pub open spec fn kind_named(name: Seq<char>) -> Option<DataKind> {
    if name == "price"@ {
        Some(DataKind::Price)
    } else if name == "apy"@ {
        Some(DataKind::Apy)
    } else {
        None
    }
}

fn is_named(s: &String, lit: &str) -> (r: bool)
    ensures
        r == (s@ == lit@),
{
    *s == lit.to_owned()
}

/// Resolves a feed request written as an asset name and a data kind name.
/// Unknown names, and SOL's APY (SOL has a price feed only), give
/// `InvalidAsset`.
pub fn feed_key(asset: &String, data_type: &String) -> (r: Result<(Asset, DataKind), VaultError>)
    ensures
        r == (match (asset_named(asset@), kind_named(data_type@)) {
            (Some(a), Some(k)) => if has_feed(a, k) {
                Ok((a, k))
            } else {
                Err(VaultError::InvalidAsset)
            },
            _ => Err(VaultError::InvalidAsset),
        }),
{
    let a = if is_named(asset, "SOL") {
        Asset::Sol
    } else if is_named(asset, "JupSOL") {
        Asset::JupSol
    } else if is_named(asset, "vSOL") {
        Asset::VSol
    } else if is_named(asset, "bSOL") {
        Asset::BSol
    } else if is_named(asset, "mSOL") {
        Asset::MSol
    } else if is_named(asset, "HSOL") {
        Asset::HSol
    } else if is_named(asset, "JitoSOL") {
        Asset::JitoSol
    } else {
        return Err(VaultError::InvalidAsset);
    };
    let k = if is_named(data_type, "price") {
        DataKind::Price
    } else if is_named(data_type, "apy") {
        DataKind::Apy
    } else {
        return Err(VaultError::InvalidAsset);
    };
    if a == Asset::Sol && k == DataKind::Apy {
        return Err(VaultError::InvalidAsset);
    }
    Ok((a, k))
}

/// The current result of the pull feed account data `feed_data`, or `None`
/// where it is no pull feed.
fn fetch_feed(feed_data: &[u8]) -> (r: Option<FeedResult>)
    ensures
        r == pull_feed_result(feed_data@),
{
    if feed_data.len() < 8 {
        return None;
    }
    match parse_pull_feed(feed_data) {
        Ok(res) => Some(res),
        Err(_) => None,
    }
}

fn index_of(asset: Asset) -> (i: usize)
    ensures
        i as int == asset_index(asset),
{
    match asset {
        Asset::Sol => 0,
        Asset::JupSol => 1,
        Asset::VSol => 2,
        Asset::BSol => 3,
        Asset::MSol => 4,
        Asset::HSol => 5,
        Asset::JitoSol => 6,
    }
}

fn fresh(updated: Option<u64>, now: u64) -> (r: bool)
    ensures
        r == is_fresh(updated, now),
{
    match updated {
        Some(t) => now <= t || now - t <= PRICE_TTL,
        None => false,
    }
}

/// Validates a fetched feed result as a price: it must exist, be a
/// non-negative decimal, and have a non-zero integer part.
pub fn price_from_feed(fetched: Option<FeedResult>) -> (r: Result<u64, VaultError>)
    ensures
        r == feed_price(fetched),
        r matches Ok(p) ==> p > 0,
{
    match fetched {
        None => Err(VaultError::FeedUnavailable),
        Some(f) => {
            if f.slot == 0 {
                return Err(VaultError::FeedUnavailable);
            }
            if f.value < 0 || f.value > FEED_MAX_MANTISSA {
                return Err(VaultError::PriceConversionFailed);
            }
            assert(f.value as int / (FEED_UNIT as int) <= u64::MAX) by (nonlinear_arith)
                requires
                    0 <= f.value <= FEED_MAX_MANTISSA,
            ;
            match feed_value_to_u64(f.value) {
                None => Err(VaultError::PriceConversionFailed),
                Some(p) => if p == 0 {
                    Err(VaultError::ZeroPrice)
                } else {
                    Ok(p)
                },
            }
        },
    }
}

/// Validates a fetched feed result as an APY: it must exist and be a decimal.
pub fn apy_from_feed(fetched: Option<FeedResult>) -> (r: Result<i128, VaultError>)
    ensures
        r == feed_apy(fetched),
{
    match fetched {
        None => Err(VaultError::FeedUnavailable),
        Some(f) => if f.slot == 0 {
            Err(VaultError::FeedUnavailable)
        } else if f.value < -FEED_MAX_MANTISSA || f.value > FEED_MAX_MANTISSA {
            Err(VaultError::PriceConversionFailed)
        } else {
            Ok(f.value)
        },
    }
}

/// A value fetched at `t1` is served unchanged to every later read of the same
/// feed before `t1 + PRICE_TTL`: the second read returns the same quote, leaves
/// the cache as it is, and does not depend on what the feed would yield.
pub proof fn lemma_read_within_ttl_is_cached(
    feeds: Seq<AssetFeeds>,
    asset: Asset,
    kind: DataKind,
    t1: u64,
    t2: u64,
    first: Option<FeedResult>,
    second: Option<FeedResult>,
)
    requires
        feeds.len() == ASSET_COUNT,
        !entry_fresh(feeds[asset_index(asset)], kind, t1),
        read_outcome(feeds, asset, kind, t1, first).0 is Ok,
        t1 <= t2 < t1 + PRICE_TTL,
    ensures
        read_outcome(read_outcome(feeds, asset, kind, t1, first).1, asset, kind, t2, second) == (
            read_outcome(feeds, asset, kind, t1, first).0,
            read_outcome(feeds, asset, kind, t1, first).1,
        ),
{
}

/// A read more than `PRICE_TTL` after a value was fetched at `t1` fetches
/// again: its outcome is that of storing what the feed yields at `t2`.
pub proof fn lemma_read_after_ttl_fetches(
    feeds: Seq<AssetFeeds>,
    asset: Asset,
    kind: DataKind,
    t1: u64,
    t2: u64,
    first: Option<FeedResult>,
    second: Option<FeedResult>,
)
    requires
        feeds.len() == ASSET_COUNT,
        !entry_fresh(feeds[asset_index(asset)], kind, t1),
        read_outcome(feeds, asset, kind, t1, first).0 is Ok,
        t2 > t1 + PRICE_TTL,
    ensures
        ({
            let after = read_outcome(feeds, asset, kind, t1, first).1;
            let i = asset_index(asset);
            read_outcome(after, asset, kind, t2, second) == match refreshed(after[i], kind, t2, second) {
                Ok(e) => (Ok(cached_quote(e, kind)), after.update(i, e)),
                Err(x) => (Err(x), after),
            }
        }),
{
}

/// A read changes at most the entry of the feed it reads: every other asset's
/// entry, and the other feed of the same asset, keep their values and times.
pub proof fn lemma_read_touches_one_feed(
    feeds: Seq<AssetFeeds>,
    asset: Asset,
    kind: DataKind,
    now: u64,
    fetched: Option<FeedResult>,
)
    requires
        feeds.len() == ASSET_COUNT,
    ensures
        ({
            let after = read_outcome(feeds, asset, kind, now, fetched).1;
            let i = asset_index(asset);
            &&& after.len() == feeds.len()
            &&& forall|j: int| 0 <= j < ASSET_COUNT && j != i ==> after[j] == feeds[j]
            &&& after[i].price_feed == feeds[i].price_feed
            &&& after[i].apy_feed == feeds[i].apy_feed
            &&& kind == DataKind::Price ==> after[i].apy == feeds[i].apy
                && after[i].apy_updated == feeds[i].apy_updated
            &&& kind == DataKind::Apy ==> after[i].price == feeds[i].price
                && after[i].price_updated == feeds[i].price_updated
        }),
{
}

/// The process-wide price cache: the identity allowed to configure it and one
/// entry per asset.
pub struct PriceCache {
    authority: Address,
    feeds: Vec<AssetFeeds>,
}

impl PriceCache {
    /// One entry per asset, and a price once fetched is positive.
    pub open spec fn wf(&self) -> bool {
        &&& self.entries().len() == ASSET_COUNT
        &&& forall|i: int| 0 <= i < ASSET_COUNT ==> #[trigger] price_entry_ok(self.entries()[i])
    }

    /// The identity allowed to configure the cache.
    pub closed spec fn spec_authority(&self) -> Address {
        self.authority
    }

    /// The cached entries, indexed by `asset_index`.
    pub closed spec fn entries(&self) -> Seq<AssetFeeds> {
        self.feeds@
    }

    /// A cache restored from stored entries, one per asset in the order of
    /// `Asset`. Any other count, or an entry holding a fetched price of zero,
    /// gives `InvalidFeedKey`.
    pub fn from_entries(authority: Address, entries: Vec<AssetFeeds>) -> (r: Result<PriceCache, VaultError>)
        ensures
            r is Ok <==> entries.len() == ASSET_COUNT && forall|i: int|
                0 <= i < ASSET_COUNT ==> #[trigger] price_entry_ok(entries@[i]),
            r matches Ok(c) ==> c.wf() && c.spec_authority() == authority && c.entries() == entries@,
            r matches Err(e) ==> e == VaultError::InvalidFeedKey,
    {
        if entries.len() != ASSET_COUNT {
            return Err(VaultError::InvalidFeedKey);
        }
        let mut i: usize = 0;
        while i < ASSET_COUNT
            invariant
                i <= ASSET_COUNT,
                entries.len() == ASSET_COUNT,
                forall|j: int| 0 <= j < i ==> #[trigger] price_entry_ok(entries@[j]),
            decreases ASSET_COUNT - i,
        {
            let e = entries[i];
            if e.price_updated.is_some() && e.price == 0 {
                assert(!price_entry_ok(entries@[i as int]));
                return Err(VaultError::InvalidFeedKey);
            }
            i += 1;
        }
        Ok(PriceCache { authority, feeds: entries })
    }

    /// The entries to store, one per asset in the order of `Asset`.
    pub fn to_entries(&self) -> (v: Vec<AssetFeeds>)
        requires
            self.wf(),
        ensures
            v@ == self.entries(),
    {
        let mut v: Vec<AssetFeeds> = Vec::new();
        let mut i: usize = 0;
        while i < ASSET_COUNT
            invariant
                i <= ASSET_COUNT,
                self.feeds.len() == ASSET_COUNT,
                v@ == self.feeds@.subrange(0, i as int),
            decreases ASSET_COUNT - i,
        {
            v.push(self.feeds[i]);
            i += 1;
            assert(v@ =~= self.feeds@.subrange(0, i as int));
        }
        assert(v@ =~= self.feeds@);
        v
    }

    /// A cache that has fetched nothing yet. `price_feeds` names each asset's
    /// price feed in the order of `Asset`; `apy_feeds` the APY feeds of every
    /// asset but SOL, in the same order. Other lengths give `InvalidFeedKey`.
    pub fn initialize(
        authority: Address,
        price_feeds: &Vec<Address>,
        apy_feeds: &Vec<Address>,
    ) -> (r: Result<PriceCache, VaultError>)
        ensures
            r is Ok <==> price_feeds.len() == ASSET_COUNT && apy_feeds.len() == ASSET_COUNT - 1,
            r matches Ok(c) ==> c.wf() && c.spec_authority() == authority && c.entries().len() == ASSET_COUNT
                && forall|j: int| 0 <= j < ASSET_COUNT ==> #[trigger] c.entries()[j] == unset_entry(
                    price_feeds@,
                    apy_feeds@,
                    j,
                ),
            r matches Err(e) ==> e == VaultError::InvalidFeedKey,
    {
        if price_feeds.len() != ASSET_COUNT || apy_feeds.len() != ASSET_COUNT - 1 {
            return Err(VaultError::InvalidFeedKey);
        }
        let mut feeds: Vec<AssetFeeds> = Vec::new();
        let mut i: usize = 0;
        while i < ASSET_COUNT
            invariant
                i <= ASSET_COUNT,
                price_feeds.len() == ASSET_COUNT,
                apy_feeds.len() == ASSET_COUNT - 1,
                feeds.len() == i,
                forall|j: int| 0 <= j < i ==> #[trigger] feeds@[j] == unset_entry(price_feeds@, apy_feeds@, j),
            decreases ASSET_COUNT - i,
        {
            let apy_feed = if i == 0 { None } else { Some(apy_feeds[i - 1]) };
            feeds.push(AssetFeeds {
                price_feed: price_feeds[i],
                apy_feed,
                price: 0,
                price_updated: None,
                apy: 0,
                apy_updated: None,
            });
            i += 1;
        }
        Ok(PriceCache { authority, feeds })
    }

    /// The identity allowed to configure the cache.
    pub fn authority(&self) -> (a: Address)
        ensures
            a == self.spec_authority(),
    {
        self.authority
    }

    /// The cached entry of `asset`.
    pub fn entry(&self, asset: Asset) -> (e: AssetFeeds)
        requires
            self.wf(),
        ensures
            e == self.entries()[asset_index(asset)],
    {
        self.feeds[index_of(asset)]
    }

    /// The cached value of `(asset, kind)` if it may still be served at `now`.
    pub fn cached(&self, asset: Asset, kind: DataKind, now: u64) -> (r: Option<Quote>)
        requires
            self.wf(),
        ensures
            r == (if has_feed(asset, kind) && entry_fresh(self.entries()[asset_index(asset)], kind, now) {
                Some(cached_quote(self.entries()[asset_index(asset)], kind))
            } else {
                None
            }),
    {
        if asset == Asset::Sol && kind == DataKind::Apy {
            return None;
        }
        let e = self.entry(asset);
        let is_fresh = match kind {
            DataKind::Price => fresh(e.price_updated, now),
            DataKind::Apy => fresh(e.apy_updated, now),
        };
        if is_fresh {
            Some(match kind {
                DataKind::Price => Quote { price: e.price, apy: None },
                DataKind::Apy => Quote { price: e.price, apy: Some(e.apy) },
            })
        } else {
            None
        }
    }

    /// Reads `(asset, kind)` at `now`, where `fetched` is what the feed yields
    /// if a fetch is needed. A fresh entry is returned as cached; a stale one
    /// is validated, stored with `now` as its update time, and returned.
    pub fn read(&mut self, asset: Asset, kind: DataKind, now: u64, fetched: Option<FeedResult>) -> (r:
        Result<Quote, VaultError>)
        requires
            old(self).wf(),
        ensures
            final(self).wf(),
            (r, final(self).entries()) == read_outcome(old(self).entries(), asset, kind, now, fetched),
            final(self).spec_authority() == old(self).spec_authority(),
    {
        if let Some(q) = self.cached(asset, kind, now) {
            return Ok(q);
        }
        if asset == Asset::Sol && kind == DataKind::Apy {
            return Err(VaultError::InvalidAsset);
        }
        let i = index_of(asset);
        let e = self.feeds[i];
        assert(price_entry_ok(self.entries()[i as int]));
        let updated = match kind {
            DataKind::Price => {
                let p = price_from_feed(fetched)?;
                AssetFeeds { price: p, price_updated: Some(now), ..e }
            },
            DataKind::Apy => {
                let a = apy_from_feed(fetched)?;
                AssetFeeds { apy: a, apy_updated: Some(now), ..e }
            },
        };
        assert(price_entry_ok(updated));
        self.feeds.set(i, updated);
        assert forall|j: int| 0 <= j < ASSET_COUNT implies #[trigger] price_entry_ok(self.entries()[j]) by {
            if j != i as int {
                assert(self.entries()[j] == old(self).entries()[j]);
            }
        }
        Ok(match kind {
            DataKind::Price => Quote { price: updated.price, apy: None },
            DataKind::Apy => Quote { price: updated.price, apy: Some(updated.apy) },
        })
    }

    /// What a `get_price` at `now` would return, without storing anything:
    /// the quote, and the feed result fetched from `feed_data` if the entry
    /// was stale (`None` when nothing was fetched or the data is no pull
    /// feed). Reading with that result gives the outcome of reading with the
    /// feed's current result, so storing it with `read` afterwards reproduces
    /// the quote.
    pub fn quote(&self, asset: Asset, kind: DataKind, now: u64, feed_data: &[u8]) -> (r: (
        Result<Quote, VaultError>,
        Option<FeedResult>,
    ))
        requires
            self.wf(),
        ensures
            r.0 == read_outcome(self.entries(), asset, kind, now, pull_feed_result(feed_data@)).0,
            read_outcome(self.entries(), asset, kind, now, r.1) == read_outcome(
                self.entries(),
                asset,
                kind,
                now,
                pull_feed_result(feed_data@),
            ),
            has_feed(asset, kind) && !entry_fresh(self.entries()[asset_index(asset)], kind, now) ==> r.1
                == pull_feed_result(feed_data@),
    {
        if let Some(q) = self.cached(asset, kind, now) {
            return (Ok(q), None);
        }
        if asset == Asset::Sol && kind == DataKind::Apy {
            return (Err(VaultError::InvalidAsset), None);
        }
        let fetched = fetch_feed(feed_data);
        let e = self.entry(asset);
        let q = match kind {
            DataKind::Price => match price_from_feed(fetched) {
                Ok(p) => Ok(Quote { price: p, apy: None }),
                Err(x) => Err(x),
            },
            DataKind::Apy => match apy_from_feed(fetched) {
                Ok(a) => Ok(Quote { price: e.price, apy: Some(a) }),
                Err(x) => Err(x),
            },
        };
        (q, fetched)
    }

    /// Reads `(asset, kind)` at `now`, fetching from the pull feed account
    /// data `feed_data` only when the cached entry is stale. A fresh entry is
    /// returned as cached; otherwise the outcome is that of `read` with the
    /// feed's current result.
    pub fn get_price(&mut self, asset: Asset, kind: DataKind, now: u64, feed_data: &[u8]) -> (r: Result<
        Quote,
        VaultError,
    >)
        requires
            old(self).wf(),
        ensures
            final(self).wf(),
            (r, final(self).entries()) == read_outcome(
                old(self).entries(),
                asset,
                kind,
                now,
                pull_feed_result(feed_data@),
            ),
            has_feed(asset, kind) && entry_fresh(old(self).entries()[asset_index(asset)], kind, now)
                ==> r == Ok::<Quote, VaultError>(cached_quote(old(self).entries()[asset_index(asset)], kind))
                && final(self).entries() == old(self).entries(),
            !has_feed(asset, kind) ==> r == Err::<Quote, VaultError>(VaultError::InvalidAsset)
                && final(self).entries() == old(self).entries(),
            final(self).spec_authority() == old(self).spec_authority(),
    {
        if let Some(q) = self.cached(asset, kind, now) {
            return Ok(q);
        }
        let fetched = fetch_feed(feed_data);
        let r = self.read(asset, kind, now, fetched);
        r
    }
}

} // verus!
