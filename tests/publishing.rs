use price_bot::assets::{channel_id_key, tracked_coins, webhook_key, Asset};
use price_bot::cycle::{plan_cycle, Schedule, Step, CYCLE_DELAY_SECS, STEP_DELAY_SECS};
use price_bot::fetch::{check_status, is_success_status, record_fetches, ticker_url, FetchError};

fn assets() -> Vec<Asset> {
    tracked_coins()
        .iter()
        .enumerate()
        .map(|(i, c)| Asset::new(c, format!("https://hooks.example/{}", c.symbol), 100 + i as u64))
        .collect()
}

fn describe(s: &Step) -> String {
    match s {
        Step::Post { webhook_url, message } => format!("post {} {}", webhook_url, message),
        Step::Rename { channel_id, name } => format!("rename {} {}", channel_id, name),
        Step::Skip { symbol } => format!("skip {}", symbol),
        Step::Wait { secs } => format!("wait {}", secs),
    }
}

fn plan(quotes: Vec<Option<String>>) -> Vec<String> {
    plan_cycle(&assets(), &quotes, &Schedule::default()).iter().map(describe).collect()
}

fn all_prices() -> Vec<Option<String>> {
    ["43250.50", "5.10", "140.00", "600.25", "3000.99"].iter().map(|p| Some(p.to_string())).collect()
}

#[test]
fn tracked_coins_in_publishing_order() {
    let coins = tracked_coins();
    let symbols: Vec<&str> = coins.iter().map(|c| c.symbol.as_str()).collect();
    assert_eq!(symbols, vec!["BTC", "TON", "SOL", "BNB", "ETH"]);
    assert_eq!(coins[3].coin_id, "bnb-binance-coin");
    assert_eq!(coins[1].emoji, "💎");
}

#[test]
fn settings_keys() {
    assert_eq!(channel_id_key("BTC"), "BTC_CHANNEL_ID");
    assert_eq!(webhook_key("ETH"), "ETH_WEBHOOK");
}

#[test]
fn default_schedule() {
    let s = Schedule::default();
    assert_eq!(s.step_delay_secs, STEP_DELAY_SECS);
    assert_eq!(s.cycle_delay_secs, CYCLE_DELAY_SECS);
    assert_eq!((s.step_delay_secs, s.cycle_delay_secs), (5, 300));
}

#[test]
fn all_fetched_posts_and_renames_in_order() {
    let steps = plan(all_prices());
    assert_eq!(steps.len(), 16);
    assert_eq!(steps[0], "post https://hooks.example/BTC 📈 BTC: $43250.50");
    assert_eq!(steps[1], "rename 100 📈btc４３２５０．５０");
    assert_eq!(steps[2], "wait 5");
    assert_eq!(steps[3], "post https://hooks.example/TON 💎 TON: $5.10");
    assert_eq!(steps[4], "rename 101 💎ton５．１０");
    assert_eq!(steps[6], "post https://hooks.example/SOL 🌞 SOL: $140.00");
    assert_eq!(steps[9], "post https://hooks.example/BNB 🟡 BNB: $600.25");
    assert_eq!(steps[12], "post https://hooks.example/ETH 🟣 ETH: $3000.99");
    assert_eq!(steps[13], "rename 104 🟣eth３０００．９９");
    assert_eq!(steps[14], "wait 5");
    assert_eq!(steps[15], "wait 300");
    assert_eq!(steps.iter().filter(|s| s.starts_with("post")).count(), 5);
    assert_eq!(steps.iter().filter(|s| s.starts_with("rename")).count(), 5);
}

#[test]
fn failed_fetch_skips_only_that_asset() {
    let mut quotes = all_prices();
    quotes[2] = None;
    let steps = plan(quotes);
    assert_eq!(steps.len(), 14);
    assert_eq!(steps[6], "skip SOL");
    assert_eq!(steps[7], "post https://hooks.example/BNB 🟡 BNB: $600.25");
    assert!(!steps.iter().any(|s| s.contains("SOL") && !s.starts_with("skip")));
    assert_eq!(steps.iter().filter(|s| s.starts_with("post")).count(), 4);
    assert_eq!(steps.iter().filter(|s| s.starts_with("rename")).count(), 4);
    assert_eq!(steps[13], "wait 300");
}

#[test]
fn all_failed_only_skips_then_waits() {
    let steps = plan(vec![None, None, None, None, None]);
    assert_eq!(steps, vec!["skip BTC", "skip TON", "skip SOL", "skip BNB", "skip ETH", "wait 300"]);
}

#[test]
fn status_failure_treated_as_network_failure() {
    let ok = |p: &str| Ok::<String, FetchError>(p.to_string());
    let by_status = vec![ok("1.00"), check_status(503).map(|_| String::new()), ok("2.00"), ok("3.00"), ok("4.00")];
    let by_network = vec![ok("1.00"), Err(FetchError::Network), ok("2.00"), ok("3.00"), ok("4.00")];
    let a = record_fetches(&by_status);
    let b = record_fetches(&by_network);
    assert_eq!(a, b);
    assert_eq!(a[1], None);
    let pa: Vec<String> = plan_cycle(&assets(), &a, &Schedule::default()).iter().map(describe).collect();
    let pb: Vec<String> = plan_cycle(&assets(), &b, &Schedule::default()).iter().map(describe).collect();
    assert_eq!(pa, pb);
    assert_eq!(pa[3], "skip TON");
}

#[test]
fn status_classes() {
    assert!(!is_success_status(199));
    assert!(is_success_status(200));
    assert!(is_success_status(299));
    assert!(!is_success_status(300));
    assert_eq!(check_status(200), Ok(()));
    assert_eq!(check_status(404), Err(FetchError::Status(404)));
    assert_eq!(check_status(500), Err(FetchError::Status(500)));
}

#[test]
fn snapshot_keeps_prices_and_marks_failures() {
    let results = vec![Ok("9.99".to_string()), Err(FetchError::Body), Err(FetchError::Status(404))];
    assert_eq!(record_fetches(&results), vec![Some("9.99".to_string()), None, None]);
}

#[test]
fn ticker_url_for_coin() {
    assert_eq!(ticker_url("btc-bitcoin"), "https://api.coinpaprika.com/v1/tickers/btc-bitcoin");
}

#[test]
fn custom_schedule_delays() {
    let s = Schedule { step_delay_secs: 1, cycle_delay_secs: 60 };
    let steps: Vec<String> = plan_cycle(&assets(), &all_prices(), &s).iter().map(describe).collect();
    assert_eq!(steps[2], "wait 1");
    assert_eq!(steps[15], "wait 60");
}
