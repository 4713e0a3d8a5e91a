use arbscan::basic::{
    arb_id_from_text, epoch_reading, lower_hex_string, micros_from_parts, micros_since_epoch,
    millis_from_parts, millis_since_epoch, time_now_mcs, time_now_ms,
};
use arbscan::stream::Market;
use arbscan::symbols::{
    init_trading_parameters, pair_names, try_init_trading_parameters, MissingPair, SymbolPrecision,
};
use arbscan::text::{ends_with, same_text, split_on_char};
use arbscan::StringHashMap;

#[test]
fn split_keeps_empty_pieces() {
    assert_eq!(split_on_char("a\"b\"\"c", '"'), vec!["a", "b", "", "c"]);
    assert_eq!(split_on_char("", '"'), vec![""]);
    assert_eq!(split_on_char("\"", '"'), vec!["", ""]);
    assert_eq!(split_on_char("héllo", 'l'), vec!["hé", "", "o"]);
    let text = "{\"s\":\"ADAUSDT\"}";
    let ours: Vec<String> = split_on_char(text, '"');
    let std_parts: Vec<&str> = text.split('"').collect();
    assert_eq!(ours, std_parts);
    assert_eq!(ours.join("\""), text);
}

#[test]
fn suffix_and_equality() {
    assert!(ends_with("ADAUSDT", "USDT"));
    assert!(ends_with("USDT", "USDT"));
    assert!(ends_with("abc", ""));
    assert!(!ends_with("SDT", "USDT"));
    assert!(!ends_with("ADABTC", "USDT"));
    assert!(same_text("BTCUSDT", "BTCUSDT"));
    assert!(!same_text("BTCUSDT", "BTCUSD"));
    assert!(!same_text("BTCUSDT", "BTCUSDX"));
}

#[test]
fn pair_names_upper_case_token() {
    assert_eq!(pair_names("ada"), vec!["ADAUSDT", "ADABTC", "BTCUSDT"]);
    assert_eq!(pair_names("Sol"), vec!["SOLUSDT", "SOLBTC", "BTCUSDT"]);
}

fn precision(a: u32, b: u32, q: u32) -> SymbolPrecision {
    SymbolPrecision { amount_precision: a, base_asset_precision: b, quote_asset_precision: q }
}

#[test]
fn trading_parameters_from_three_pairs() {
    let mut table = StringHashMap::new();
    table.insert("ADAUSDT".to_string(), precision(1, 8, 6));
    table.insert("ADABTC".to_string(), precision(0, 7, 5));
    table.insert("BTCUSDT".to_string(), precision(5, 4, 3));
    let p = init_trading_parameters("ada", &table);
    assert_eq!(try_init_trading_parameters("ada", &table), Ok(p));
    assert_eq!(p.token_usdt_amount_precision, 1);
    assert_eq!(p.token_btc_amount_precision, 0);
    assert_eq!(p.btc_usdt_amount_precision, 5);
    assert_eq!(p.token_usdt_base_asset_precision, 8);
    assert_eq!(p.token_btc_base_asset_precision, 7);
    assert_eq!(p.token_usdt_quote_asset_precision, 6);
    assert_eq!(p.btc_usdt_quote_asset_precision, 3);
}

#[test]
fn missing_pair_is_named_in_field_order() {
    let mut table = StringHashMap::new();
    assert_eq!(try_init_trading_parameters("ada", &table), Err(MissingPair { market: Market::TokenUsdt }));
    table.insert("BTCUSDT".to_string(), precision(5, 4, 3));
    assert_eq!(try_init_trading_parameters("ada", &table), Err(MissingPair { market: Market::TokenUsdt }));
    table.insert("ADAUSDT".to_string(), precision(1, 8, 6));
    assert_eq!(try_init_trading_parameters("ada", &table), Err(MissingPair { market: Market::TokenBtc }));
    table.insert("ADABTC".to_string(), precision(0, 7, 5));
    let mut only_two = StringHashMap::new();
    only_two.insert("ADAUSDT".to_string(), precision(1, 8, 6));
    only_two.insert("ADABTC".to_string(), precision(0, 7, 5));
    assert_eq!(try_init_trading_parameters("ada", &only_two), Err(MissingPair { market: Market::BtcUsdt }));
    assert!(try_init_trading_parameters("ada", &table).is_ok());
}

#[test]
fn token_case_does_not_change_parameters() {
    let mut table = StringHashMap::new();
    table.insert("ADAUSDT".to_string(), precision(1, 8, 6));
    table.insert("ADABTC".to_string(), precision(0, 7, 5));
    table.insert("BTCUSDT".to_string(), precision(5, 4, 3));
    let lower = init_trading_parameters("ada", &table);
    assert_eq!(init_trading_parameters("ADA", &table), lower);
    assert_eq!(init_trading_parameters("AdA", &table), lower);
    assert_eq!(try_init_trading_parameters("aDa", &table), Ok(lower));
}

#[test]
fn hex_writes_two_lower_digits_per_byte() {
    assert_eq!(lower_hex_string(&[0x00, 0xab, 0x0f, 0xf0, 0x9a]), "00ab0ff09a");
    assert_eq!(lower_hex_string(&[]), "");
}

#[test]
fn arb_id_is_md5_hex() {
    assert_eq!(arb_id_from_text(""), "d41d8cd98f00b204e9800998ecf8427e");
    assert_eq!(arb_id_from_text("abc"), "900150983cd24fb0d6963f7d28e17f72");
    let id = arb_id_from_text("0.350.36");
    assert_eq!(id.len(), 32);
    assert_eq!(id, format!("{:x}", md5::compute("0.350.36".as_bytes())));
    assert_eq!(id, arb_id_from_text("0.350.36"));
}

#[test]
fn duration_parts_to_micros_and_millis() {
    assert_eq!(micros_from_parts(2, 1_500_999), 2_001_500);
    assert_eq!(millis_from_parts(2, 1_500_999), 2_001);
    assert_eq!(micros_from_parts(0, 999_999_999), 999_999);
    assert_eq!(millis_from_parts(0, 999_999_999), 999);
    assert_eq!(micros_from_parts(u64::MAX, 999_999_999), u64::MAX as u128 * 1_000_000 + 999_999);
    let d = std::time::Duration::new(1_700_000_000, 123_456_789);
    assert_eq!(micros_from_parts(d.as_secs(), d.subsec_nanos()), d.as_micros());
    assert_eq!(millis_from_parts(d.as_secs(), d.subsec_nanos()), d.as_millis());
    assert_eq!(micros_from_parts(1, 999_999) / 1000, millis_from_parts(1, 999_999));
}

#[test]
fn clock_readings_agree() {
    let ms_before = time_now_ms().unwrap();
    let us = time_now_mcs().unwrap();
    let ms_after = time_now_ms().unwrap();
    assert!(ms_before <= us / 1000);
    assert!(us / 1000 <= ms_after);
    assert!(us > 1_600_000_000_000_000);
}

#[test]
fn readings_convert_exactly() {
    assert_eq!(micros_since_epoch(None), None);
    assert_eq!(millis_since_epoch(None), None);
    assert_eq!(micros_since_epoch(Some((3, 2_500_000))), Some(3_002_500));
    assert_eq!(millis_since_epoch(Some((3, 2_500_000))), Some(3_002));
    let (secs, nanos) = epoch_reading().unwrap();
    assert!(nanos < 1_000_000_000);
    assert!(secs > 1_600_000_000);
}
