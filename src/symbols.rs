//! How each price provider names an asset.
use vstd::prelude::*;
use vstd::string::StringExecFns;

verus! {

/// Upper-case form of `s`.
pub uninterp spec fn upper_of(s: Seq<char>) -> Seq<char>;

/// Lower-case form of `s`.
pub uninterp spec fn lower_of(s: Seq<char>) -> Seq<char>;

/// Relies on `str::to_uppercase`: the result depends on the characters alone.
#[verifier::external_body]
fn uppercase(s: &str) -> (r: String)
    ensures
        r@ == upper_of(s@),
{
    s.to_uppercase()
}

/// Relies on `str::to_lowercase`: the result depends on the characters alone.
#[verifier::external_body]
fn lowercase(s: &str) -> (r: String)
    ensures
        r@ == lower_of(s@),
{
    s.to_lowercase()
}

/// CoinGecko's id of the asset with upper-case symbol `upper`; for an
/// unlisted asset, its lower-case symbol `lower`.
pub open spec fn coin_id_for(upper: Seq<char>, lower: Seq<char>) -> Seq<char> {
    if upper == "BTC"@ {
        "bitcoin"@
    } else if upper == "ETH"@ {
        "ethereum"@
    } else if upper == "SOL"@ {
        "solana"@
    } else if upper == "ADA"@ {
        "cardano"@
    } else if upper == "DOT"@ {
        "polkadot"@
    } else if upper == "MATIC"@ {
        "matic-network"@
    } else if upper == "AVAX"@ {
        "avalanche-2"@
    } else if upper == "LINK"@ {
        "chainlink"@
    } else if upper == "UNI"@ {
        "uniswap"@
    } else if upper == "AAVE"@ {
        "aave"@
    } else {
        lower
    }
}

/// The assets the providers list by symbol.
pub open spec fn is_listed(upper: Seq<char>) -> bool {
    upper == "BTC"@ || upper == "ETH"@ || upper == "SOL"@ || upper == "ADA"@ || upper == "DOT"@
        || upper == "MATIC"@ || upper == "AVAX"@ || upper == "LINK"@ || upper == "UNI"@ || upper
        == "AAVE"@
}

/// CoinGecko's id for an asset given its upper-case and lower-case symbols.
pub fn coin_id_for_symbol(upper: &String, lower: &String) -> (r: String)
    ensures
        r@ == coin_id_for(upper@, lower@),
{
    if upper.eq(&String::from_str("BTC")) {
        String::from_str("bitcoin")
    } else if upper.eq(&String::from_str("ETH")) {
        String::from_str("ethereum")
    } else if upper.eq(&String::from_str("SOL")) {
        String::from_str("solana")
    } else if upper.eq(&String::from_str("ADA")) {
        String::from_str("cardano")
    } else if upper.eq(&String::from_str("DOT")) {
        String::from_str("polkadot")
    } else if upper.eq(&String::from_str("MATIC")) {
        String::from_str("matic-network")
    } else if upper.eq(&String::from_str("AVAX")) {
        String::from_str("avalanche-2")
    } else if upper.eq(&String::from_str("LINK")) {
        String::from_str("chainlink")
    } else if upper.eq(&String::from_str("UNI")) {
        String::from_str("uniswap")
    } else if upper.eq(&String::from_str("AAVE")) {
        String::from_str("aave")
    } else {
        lower.clone()
    }
}

/// CoinGecko's id for `asset`.
pub fn coingecko_coin_id(asset: &str) -> (r: String)
    ensures
        r@ == coin_id_for(upper_of(asset@), lower_of(asset@)),
{
    let upper = uppercase(asset);
    let lower = lowercase(asset);
    coin_id_for_symbol(&upper, &lower)
}

/// CoinMarketCap's symbol given the asset's upper-case symbol: that symbol
/// for a listed asset, the asset as given otherwise.
pub fn listed_symbol_or(upper: String, asset: &str) -> (r: String)
    ensures
        r@ == if is_listed(upper@) {
            upper@
        } else {
            asset@
        },
{
    let listed = upper.eq(&String::from_str("BTC")) || upper.eq(&String::from_str("ETH"))
        || upper.eq(&String::from_str("SOL")) || upper.eq(&String::from_str("ADA")) || upper.eq(
        &String::from_str("DOT"),
    ) || upper.eq(&String::from_str("MATIC")) || upper.eq(&String::from_str("AVAX")) || upper.eq(
        &String::from_str("LINK"),
    ) || upper.eq(&String::from_str("UNI")) || upper.eq(&String::from_str("AAVE"));
    if listed {
        upper
    } else {
        String::from_str(asset)
    }
}

/// CoinMarketCap's symbol for `asset`.
pub fn coinmarketcap_symbol(asset: &str) -> (r: String)
    ensures
        r@ == if is_listed(upper_of(asset@)) {
            upper_of(asset@)
        } else {
            asset@
        },
{
    listed_symbol_or(uppercase(asset), asset)
}

/// Binance's trading pair of `asset` against USDT.
pub fn binance_symbol(asset: &str) -> (r: String)
    ensures
        r@ == upper_of(asset@) + "USDT"@,
{
    uppercase(asset).concat("USDT")
}

} // verus!
