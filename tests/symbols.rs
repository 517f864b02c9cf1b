use price_oracle::symbols::{
    binance_symbol, coin_id_for_symbol, coingecko_coin_id, coinmarketcap_symbol, listed_symbol_or,
};

#[test]
fn coingecko_ids() {
    assert_eq!(coingecko_coin_id("btc"), "bitcoin");
    assert_eq!(coingecko_coin_id("Matic"), "matic-network");
    assert_eq!(coingecko_coin_id("AVAX"), "avalanche-2");
    assert_eq!(coingecko_coin_id("PEPE"), "pepe");
    assert_eq!(coin_id_for_symbol(&"LINK".to_string(), &"link".to_string()), "chainlink");
    assert_eq!(coin_id_for_symbol(&"XYZ".to_string(), &"xyz".to_string()), "xyz");
}

#[test]
fn coinmarketcap_symbols() {
    assert_eq!(coinmarketcap_symbol("eth"), "ETH");
    assert_eq!(coinmarketcap_symbol("doge"), "doge");
    assert_eq!(listed_symbol_or("UNI".to_string(), "uni"), "UNI");
    assert_eq!(listed_symbol_or("FOO".to_string(), "foo"), "foo");
}

#[test]
fn binance_pairs() {
    assert_eq!(binance_symbol("sol"), "SOLUSDT");
    assert_eq!(binance_symbol(""), "USDT");
}
