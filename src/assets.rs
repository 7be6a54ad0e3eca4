//! The tracked coins and where each one's price is published.

use vstd::prelude::*;
use vstd::string::*;

verus! {

/// A tracked coin: its ticker symbol, its id at the price source and the
/// emoji shown with it.
#[derive(Debug)]
pub struct Coin {
    pub symbol: String,
    pub coin_id: String,
    pub emoji: String,
}

/// A tracked coin with the webhook its message goes to and the channel that
/// is renamed to show its price.
#[derive(Debug)]
pub struct Asset {
    pub symbol: String,
    pub coin_id: String,
    pub emoji: String,
    pub webhook_url: String,
    pub channel_id: u64,
}

/// Whether `c` is the coin with that symbol, price-source id and emoji.
pub open spec fn coin_is(c: Coin, symbol: Seq<char>, coin_id: Seq<char>, emoji: Seq<char>) -> bool {
    c.symbol@ == symbol && c.coin_id@ == coin_id && c.emoji@ == emoji
}

/// The coin with that symbol, price-source id and emoji.
pub fn coin(symbol: &str, coin_id: &str, emoji: &str) -> (r: Coin)
    ensures
        coin_is(r, symbol@, coin_id@, emoji@),
{
    Coin {
        symbol: String::from_str(symbol),
        coin_id: String::from_str(coin_id),
        emoji: String::from_str(emoji),
    }
}

/// The tracked coins, in the order in which they are published.
pub fn tracked_coins() -> (r: Vec<Coin>)
    ensures
        r@.len() == 5,
        coin_is(r@[0], "BTC"@, "btc-bitcoin"@, "📈"@),
        coin_is(r@[1], "TON"@, "ton-toncoin"@, "💎"@),
        coin_is(r@[2], "SOL"@, "sol-solana"@, "🌞"@),
        coin_is(r@[3], "BNB"@, "bnb-binance-coin"@, "🟡"@),
        coin_is(r@[4], "ETH"@, "eth-ethereum"@, "🟣"@),
{
    let mut r: Vec<Coin> = Vec::new();
    r.push(coin("BTC", "btc-bitcoin", "📈"));
    r.push(coin("TON", "ton-toncoin", "💎"));
    r.push(coin("SOL", "sol-solana", "🌞"));
    r.push(coin("BNB", "bnb-binance-coin", "🟡"));
    r.push(coin("ETH", "eth-ethereum", "🟣"));
    r
}

/// The name of the setting that holds a coin's channel id.
pub fn channel_id_key(symbol: &str) -> (r: String)
    ensures
        r@ == symbol@ + "_CHANNEL_ID"@,
{
    let mut k = String::from_str(symbol);
    k.append("_CHANNEL_ID");
    k
}

/// The name of the setting that holds a coin's webhook URL.
pub fn webhook_key(symbol: &str) -> (r: String)
    ensures
        r@ == symbol@ + "_WEBHOOK"@,
{
    let mut k = String::from_str(symbol);
    k.append("_WEBHOOK");
    k
}

impl Asset {
    /// A coin together with where its price is published.
    pub fn new(coin: &Coin, webhook_url: String, channel_id: u64) -> (r: Asset)
        ensures
            r.symbol@ == coin.symbol@,
            r.coin_id@ == coin.coin_id@,
            r.emoji@ == coin.emoji@,
            r.webhook_url@ == webhook_url@,
            r.channel_id == channel_id,
    {
        Asset {
            symbol: coin.symbol.clone(),
            coin_id: coin.coin_id.clone(),
            emoji: coin.emoji.clone(),
            webhook_url,
            channel_id,
        }
    }
}

} // verus!
