use flexxcash::access_control::SystemState;
use switchboard_on_demand::on_demand::accounts::pull_feed::PullFeedAccountData;
use flexxcash::address::Address;
use flexxcash::error::VaultError;
use flexxcash::price_oracle::{
    apy_from_feed, AssetFeeds, FEED_RESULT_SLOT_AT, FEED_RESULT_VALUE_AT, PULL_FEED_ACCOUNT_LEN, feed_key, price_from_feed, Asset, DataKind, FeedResult, PriceCache, Quote,
};

fn addr(n: u64) -> Address {
    Address { w0: n, w1: 0, w2: 0, w3: 0 }
}

const UNIT: i128 = 1_000_000_000_000_000_000;

fn cache() -> PriceCache {
    let prices: Vec<Address> = (10..17).map(addr).collect();
    let apys: Vec<Address> = (20..26).map(addr).collect();
    PriceCache::initialize(addr(1), &prices, &apys).unwrap()
}

fn pull_feed_data(value: i128, slot: u64) -> Vec<u8> {
    let mut feed: PullFeedAccountData = bytemuck::Zeroable::zeroed();
    feed.result.value = value;
    feed.result.slot = slot;
    let mut data = vec![196u8, 27, 108, 196, 10, 215, 219, 40];
    data.extend_from_slice(bytemuck::bytes_of(&feed));
    data
}

fn feed(value: i128) -> Option<FeedResult> {
    Some(FeedResult { value, slot: 5 })
}

#[test]
fn admin_pauses_and_resumes() {
    let mut gate = SystemState::initialize(addr(1));
    assert!(!gate.is_paused);
    assert_eq!(gate.require_active(), Ok(()));
    assert_eq!(gate.pause_system(addr(1)), Ok(()));
    assert!(gate.is_paused);
    assert_eq!(gate.require_active(), Err(VaultError::SystemPaused));
    assert_eq!(gate.unpause_system(addr(1)), Ok(()));
    assert!(!gate.is_paused);
}

#[test]
fn pause_rejects_strangers_and_repeats() {
    let mut gate = SystemState::initialize(addr(1));
    assert_eq!(gate.pause_system(addr(2)), Err(VaultError::Unauthorized));
    assert!(!gate.is_paused);
    assert_eq!(gate.unpause_system(addr(1)), Err(VaultError::NotPaused));
    assert_eq!(gate.pause_system(addr(1)), Ok(()));
    assert_eq!(gate.pause_system(addr(1)), Err(VaultError::AlreadyPaused));
    assert_eq!(gate.unpause_system(addr(2)), Err(VaultError::Unauthorized));
    assert!(gate.is_paused);
    assert_eq!(gate.require_admin(addr(1)), Ok(()));
    assert_eq!(gate.require_admin(addr(3)), Err(VaultError::Unauthorized));
}

#[test]
fn cache_needs_seven_price_and_six_apy_feeds() {
    let prices: Vec<Address> = (10..17).map(addr).collect();
    let apys: Vec<Address> = (20..26).map(addr).collect();
    assert!(PriceCache::initialize(addr(1), &prices, &apys).is_ok());
    assert_eq!(PriceCache::initialize(addr(1), &prices[..6].to_vec(), &apys).err(), Some(VaultError::InvalidFeedKey));
    assert_eq!(PriceCache::initialize(addr(1), &prices, &prices).err(), Some(VaultError::InvalidFeedKey));
    let c = cache();
    assert_eq!(c.authority(), addr(1));
    let sol = c.entry(Asset::Sol);
    assert_eq!(sol.price_feed, addr(10));
    assert_eq!(sol.apy_feed, None);
    let jito = c.entry(Asset::JitoSol);
    assert_eq!(jito.price_feed, addr(16));
    assert_eq!(jito.apy_feed, Some(addr(25)));
    assert_eq!(jito.price_updated, None);
}

#[test]
fn feed_value_is_truncated_to_whole_units() {
    assert_eq!(price_from_feed(feed(150 * UNIT + UNIT / 2)), Ok(150));
    assert_eq!(price_from_feed(feed(1_000_000 * UNIT)), Ok(1_000_000));
    assert_eq!(price_from_feed(feed(UNIT)), Ok(1));
}

#[test]
fn feed_price_errors() {
    assert_eq!(price_from_feed(None), Err(VaultError::FeedUnavailable));
    assert_eq!(price_from_feed(Some(FeedResult { value: 5 * UNIT, slot: 0 })), Err(VaultError::FeedUnavailable));
    assert_eq!(price_from_feed(feed(-UNIT)), Err(VaultError::PriceConversionFailed));
    assert_eq!(price_from_feed(feed(i128::MAX)), Err(VaultError::PriceConversionFailed));
    assert_eq!(price_from_feed(feed(UNIT - 1)), Err(VaultError::ZeroPrice));
    assert_eq!(price_from_feed(feed(0)), Err(VaultError::ZeroPrice));
}

#[test]
fn feed_apy_keeps_fixed_point() {
    assert_eq!(apy_from_feed(feed(UNIT / 20)), Ok(UNIT / 20));
    assert_eq!(apy_from_feed(feed(-3)), Ok(-3));
    assert_eq!(apy_from_feed(None), Err(VaultError::FeedUnavailable));
    assert_eq!(apy_from_feed(feed(i128::MIN)), Err(VaultError::PriceConversionFailed));
}

#[test]
fn read_within_ttl_serves_cache() {
    let mut c = cache();
    let first = c.read(Asset::JupSol, DataKind::Price, 1000, feed(180 * UNIT));
    assert_eq!(first, Ok(Quote { price: 180, apy: None }));
    // The feed moved, but the cached value is still fresh.
    let second = c.read(Asset::JupSol, DataKind::Price, 1059, feed(190 * UNIT));
    assert_eq!(second, Ok(Quote { price: 180, apy: None }));
    let at_ttl = c.read(Asset::JupSol, DataKind::Price, 1060, None);
    assert_eq!(at_ttl, Ok(Quote { price: 180, apy: None }));
    assert_eq!(c.entry(Asset::JupSol).price_updated, Some(1000));
}

#[test]
fn read_after_ttl_fetches_again() {
    let mut c = cache();
    assert_eq!(c.read(Asset::Sol, DataKind::Price, 1000, feed(150 * UNIT)), Ok(Quote { price: 150, apy: None }));
    assert_eq!(c.read(Asset::Sol, DataKind::Price, 1061, feed(155 * UNIT)), Ok(Quote { price: 155, apy: None }));
    assert_eq!(c.entry(Asset::Sol).price_updated, Some(1061));
    // A failed refresh keeps the old value.
    assert_eq!(c.read(Asset::Sol, DataKind::Price, 2000, None), Err(VaultError::FeedUnavailable));
    assert_eq!(c.entry(Asset::Sol).price, 155);
    assert_eq!(c.read(Asset::Sol, DataKind::Price, 2000, feed(0)), Err(VaultError::ZeroPrice));
}

#[test]
fn feeds_age_independently() {
    let mut c = cache();
    assert!(c.read(Asset::MSol, DataKind::Price, 1000, feed(170 * UNIT)).is_ok());
    assert_eq!(c.read(Asset::MSol, DataKind::Apy, 1030, feed(UNIT / 10)), Ok(Quote { price: 170, apy: Some(UNIT / 10) }));
    // The price went stale, the APY did not.
    assert_eq!(c.read(Asset::MSol, DataKind::Price, 1070, feed(171 * UNIT)), Ok(Quote { price: 171, apy: None }));
    assert_eq!(c.cached(Asset::MSol, DataKind::Apy, 1070), Some(Quote { price: 171, apy: Some(UNIT / 10) }));
    assert_eq!(c.cached(Asset::BSol, DataKind::Price, 1070), None);
    assert_eq!(c.entry(Asset::BSol).price_updated, None);
}

#[test]
fn sol_has_no_apy_feed() {
    let mut c = cache();
    assert_eq!(c.read(Asset::Sol, DataKind::Apy, 10, feed(UNIT)), Err(VaultError::InvalidAsset));
    assert_eq!(c.get_price(Asset::Sol, DataKind::Apy, 10, &[]), Err(VaultError::InvalidAsset));
}

#[test]
fn get_price_rejects_data_that_is_no_pull_feed() {
    let mut c = cache();
    assert_eq!(c.get_price(Asset::BSol, DataKind::Price, 500, &[1, 2, 3]), Err(VaultError::FeedUnavailable));
    assert_eq!(c.get_price(Asset::BSol, DataKind::Price, 500, &[0u8; 64]), Err(VaultError::FeedUnavailable));
    assert_eq!(c.entry(Asset::BSol).price_updated, None);
}

#[test]
fn get_price_serves_fresh_entry_without_feed_data() {
    let mut c = cache();
    assert!(c.read(Asset::HSol, DataKind::Price, 100, feed(42 * UNIT)).is_ok());
    assert_eq!(c.get_price(Asset::HSol, DataKind::Price, 130, &[]), Ok(Quote { price: 42, apy: None }));
}

#[test]
fn feed_names_resolve() {
    let s = |x: &str| x.to_string();
    assert_eq!(feed_key(&s("SOL"), &s("price")), Ok((Asset::Sol, DataKind::Price)));
    assert_eq!(feed_key(&s("JupSOL"), &s("apy")), Ok((Asset::JupSol, DataKind::Apy)));
    assert_eq!(feed_key(&s("JitoSOL"), &s("price")), Ok((Asset::JitoSol, DataKind::Price)));
    assert_eq!(feed_key(&s("SOL"), &s("apy")), Err(VaultError::InvalidAsset));
    assert_eq!(feed_key(&s("DOGE"), &s("price")), Err(VaultError::InvalidAsset));
    assert_eq!(feed_key(&s("vSOL"), &s("yield")), Err(VaultError::InvalidAsset));
}

#[test]
fn get_price_parses_a_pull_feed_account() {
    let mut c = cache();
    let data = pull_feed_data(123 * UNIT + 7, 42);
    assert_eq!(c.get_price(Asset::JupSol, DataKind::Price, 1000, &data), Ok(Quote { price: 123, apy: None }));
    assert_eq!(c.entry(Asset::JupSol).price_updated, Some(1000));
    let apy = pull_feed_data(UNIT / 16, 42);
    assert_eq!(c.get_price(Asset::JupSol, DataKind::Apy, 1000, &apy), Ok(Quote { price: 123, apy: Some(UNIT / 16) }));
    // A feed without a result yet, or with a wrong discriminator, gives nothing.
    assert_eq!(c.get_price(Asset::VSol, DataKind::Price, 1000, &pull_feed_data(5 * UNIT, 0)), Err(VaultError::FeedUnavailable));
    let mut wrong = pull_feed_data(5 * UNIT, 3);
    wrong[0] = 0;
    assert_eq!(c.get_price(Asset::VSol, DataKind::Price, 1000, &wrong), Err(VaultError::FeedUnavailable));
    assert_eq!(c.get_price(Asset::VSol, DataKind::Price, 1000, &pull_feed_data(-5 * UNIT, 3)), Err(VaultError::PriceConversionFailed));
}

#[test]
fn cache_round_trips_through_its_entries() {
    let mut c = cache();
    c.read(Asset::BSol, DataKind::Price, 77, feed(9 * UNIT)).unwrap();
    let stored: Vec<AssetFeeds> = c.to_entries();
    assert_eq!(stored.len(), 7);
    let back = PriceCache::from_entries(addr(1), stored.clone()).unwrap();
    assert_eq!(back.entry(Asset::BSol).price, 9);
    assert_eq!(back.to_entries(), stored);
    assert_eq!(PriceCache::from_entries(addr(1), stored[..3].to_vec()).err(), Some(VaultError::InvalidFeedKey));
}

#[test]
fn pull_feed_layout_matches_the_stated_offsets() {
    let value: i128 = -0x0102_0304_0506_0708_090a_0b0c_0d0e_0f10;
    let data = pull_feed_data(value, 0x1122_3344_5566_7788);
    assert_eq!(data.len(), PULL_FEED_ACCOUNT_LEN);
    assert_eq!(&data[FEED_RESULT_VALUE_AT..FEED_RESULT_VALUE_AT + 16], &value.to_le_bytes()[..]);
    assert_eq!(&data[FEED_RESULT_SLOT_AT..FEED_RESULT_SLOT_AT + 8], &0x1122_3344_5566_7788u64.to_le_bytes()[..]);
    // A truncated account is no pull feed.
    let mut c = cache();
    let short = &pull_feed_data(5 * UNIT, 3)[..PULL_FEED_ACCOUNT_LEN - 1];
    assert_eq!(c.get_price(Asset::VSol, DataKind::Price, 1000, short), Err(VaultError::FeedUnavailable));
    assert_eq!(c.get_price(Asset::VSol, DataKind::Price, 1000, &pull_feed_data(5 * UNIT, 3)), Ok(Quote { price: 5, apy: None }));
}

#[test]
fn restored_cache_refuses_a_fetched_zero_price() {
    let mut stored = cache().to_entries();
    stored[2].price_updated = Some(50);
    assert_eq!(PriceCache::from_entries(addr(1), stored.clone()).err(), Some(VaultError::InvalidFeedKey));
    stored[2].price = 12;
    assert_eq!(PriceCache::from_entries(addr(1), stored).unwrap().cached(Asset::VSol, DataKind::Price, 60), Some(Quote { price: 12, apy: None }));
}
