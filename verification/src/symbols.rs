//! Trading pairs of the triple and the precisions that orders on them use.

use vstd::prelude::*;
use vstd::hash_map::StringHashMap;

use crate::stream::Market;
use crate::text::{ascii_lower, ascii_text, ascii_upper, lemma_ascii_case_folding, to_uppercase, uppercase_of};

verus! {

/// The integer settings of one trading pair that the arbitrage arithmetic
/// reads: how many decimals an order amount may have, and the precision of
/// the base and of the quote asset.
#[derive(Clone, Copy, Debug, PartialEq, Eq, Structural)]
pub struct SymbolPrecision {
    pub amount_precision: u32,
    pub base_asset_precision: u32,
    pub quote_asset_precision: u32,
}

/// Precisions of the three pairs of the triple, as the calculations use them.
#[derive(Clone, Copy, Debug, PartialEq, Eq, Structural)]
pub struct TradingParameters {
    pub token_usdt_amount_precision: u32,
    pub token_btc_amount_precision: u32,
    pub btc_usdt_amount_precision: u32,
    pub token_usdt_base_asset_precision: u32,
    pub token_btc_base_asset_precision: u32,
    pub token_usdt_quote_asset_precision: u32,
    pub btc_usdt_quote_asset_precision: u32,
}

/// The pair whose settings were not found.
#[derive(Clone, Copy, Debug, PartialEq, Eq, Structural)]
pub struct MissingPair {
    pub market: Market,
}

/// The exchange symbol of `market` for a token whose upper-case name is `upper`.
pub open spec fn pair_name(upper: Seq<char>, market: Market) -> Seq<char> {
    match market {
        Market::TokenUsdt => upper + "USDT"@,
        Market::TokenBtc => upper + "BTC"@,
        Market::BtcUsdt => "BTCUSDT"@,
    }
}

/// The symbols of the triple for `token`: TOKEN/USDT, TOKEN/BTC and BTC/USDT,
/// in that order, with the token's name in upper case.
pub fn pair_names(token: &str) -> (names: Vec<String>)
    ensures
        names@.len() == 3,
        names@[0]@ == pair_name(uppercase_of(token@), Market::TokenUsdt),
        names@[1]@ == pair_name(uppercase_of(token@), Market::TokenBtc),
        names@[2]@ == pair_name(uppercase_of(token@), Market::BtcUsdt),
        ascii_text(token@) ==> names@[0]@ == pair_name(ascii_upper(token@), Market::TokenUsdt),
        ascii_text(token@) ==> names@[1]@ == pair_name(ascii_upper(token@), Market::TokenBtc),
{
    let upper = to_uppercase(token);
    let usdt = upper.clone().concat("USDT");
    let btc = upper.concat("BTC");
    let btc_usdt = String::from_str("BTCUSDT");
    let mut names: Vec<String> = Vec::new();
    names.push(usdt);
    names.push(btc);
    names.push(btc_usdt);
    names
}

/// The parameters read from the settings of TOKEN/USDT (`u`), TOKEN/BTC (`b`)
/// and BTC/USDT (`bu`).
pub open spec fn parameters_from(
    u: SymbolPrecision,
    b: SymbolPrecision,
    bu: SymbolPrecision,
) -> TradingParameters {
    TradingParameters {
        token_usdt_amount_precision: u.amount_precision,
        token_btc_amount_precision: b.amount_precision,
        btc_usdt_amount_precision: bu.amount_precision,
        token_usdt_base_asset_precision: u.base_asset_precision,
        token_btc_base_asset_precision: b.base_asset_precision,
        token_usdt_quote_asset_precision: u.quote_asset_precision,
        btc_usdt_quote_asset_precision: bu.quote_asset_precision,
    }
}

/// The settings of all three pairs of the token whose upper-case name is
/// `upper` are in `m`.
pub open spec fn pairs_present(upper: Seq<char>, m: Map<Seq<char>, SymbolPrecision>) -> bool {
    &&& m.contains_key(pair_name(upper, Market::TokenUsdt))
    &&& m.contains_key(pair_name(upper, Market::TokenBtc))
    &&& m.contains_key(pair_name(upper, Market::BtcUsdt))
}

/// The parameters of the token whose upper-case name is `upper`, from the
/// settings of its three pairs in `m`.
pub open spec fn parameters_for(upper: Seq<char>, m: Map<Seq<char>, SymbolPrecision>) -> TradingParameters {
    parameters_from(
        m[pair_name(upper, Market::TokenUsdt)],
        m[pair_name(upper, Market::TokenBtc)],
        m[pair_name(upper, Market::BtcUsdt)],
    )
}

/// The parameters, or the first pair in the order TOKEN/USDT, TOKEN/BTC,
/// BTC/USDT whose settings are missing from `m`.
pub open spec fn parameters_result(upper: Seq<char>, m: Map<Seq<char>, SymbolPrecision>) -> Result<
    TradingParameters,
    MissingPair,
> {
    if !m.contains_key(pair_name(upper, Market::TokenUsdt)) {
        Err(MissingPair { market: Market::TokenUsdt })
    } else if !m.contains_key(pair_name(upper, Market::TokenBtc)) {
        Err(MissingPair { market: Market::TokenBtc })
    } else if !m.contains_key(pair_name(upper, Market::BtcUsdt)) {
        Err(MissingPair { market: Market::BtcUsdt })
    } else {
        Ok(parameters_for(upper, m))
    }
}

/// Collects the trading parameters of the triple for `token` from the
/// settings of each symbol, which must all be present.
pub fn init_trading_parameters(
    token: &str,
    symbols_info: &StringHashMap<SymbolPrecision>,
) -> (params: TradingParameters)
    requires
        pairs_present(uppercase_of(token@), symbols_info@),
    ensures
        params == parameters_for(uppercase_of(token@), symbols_info@),
        ascii_text(token@) ==> params == parameters_for(ascii_upper(token@), symbols_info@),
{
    let names = pair_names(token);
    let u = *symbols_info.get(names[0].as_str()).unwrap();
    let b = *symbols_info.get(names[1].as_str()).unwrap();
    let bu = *symbols_info.get(names[2].as_str()).unwrap();
    TradingParameters {
        token_usdt_amount_precision: u.amount_precision,
        token_btc_amount_precision: b.amount_precision,
        btc_usdt_amount_precision: bu.amount_precision,
        token_usdt_base_asset_precision: u.base_asset_precision,
        token_btc_base_asset_precision: b.base_asset_precision,
        token_usdt_quote_asset_precision: u.quote_asset_precision,
        btc_usdt_quote_asset_precision: bu.quote_asset_precision,
    }
}

/// Collects the trading parameters of the triple for `token` when the
/// settings of all three symbols are present, and otherwise names the first
/// missing pair in the order TOKEN/USDT, TOKEN/BTC, BTC/USDT.
pub fn try_init_trading_parameters(
    token: &str,
    symbols_info: &StringHashMap<SymbolPrecision>,
) -> (res: Result<TradingParameters, MissingPair>)
    ensures
        res == parameters_result(uppercase_of(token@), symbols_info@),
        ascii_text(token@) ==> res == parameters_result(ascii_upper(token@), symbols_info@),
{
    let names = pair_names(token);
    if !symbols_info.contains_key(names[0].as_str()) {
        return Err(MissingPair { market: Market::TokenUsdt });
    }
    if !symbols_info.contains_key(names[1].as_str()) {
        return Err(MissingPair { market: Market::TokenBtc });
    }
    if !symbols_info.contains_key(names[2].as_str()) {
        return Err(MissingPair { market: Market::BtcUsdt });
    }
    Ok(init_trading_parameters(token, symbols_info))
}

/// For an ASCII token, the case of its letters does not change the trading
/// parameters: the token as given, in lower case and in upper case lead to
/// the same outcome from the same settings.
pub proof fn lemma_token_case_does_not_matter(
    token: Seq<char>,
    m: Map<Seq<char>, SymbolPrecision>,
)
    requires
        ascii_text(token),
    ensures
        ascii_text(ascii_lower(token)),
        ascii_text(ascii_upper(token)),
        parameters_result(ascii_upper(ascii_lower(token)), m) == parameters_result(
            ascii_upper(token),
            m,
        ),
        parameters_result(ascii_upper(ascii_upper(token)), m) == parameters_result(
            ascii_upper(token),
            m,
        ),
{
    lemma_ascii_case_folding(token);
}

/// Each trading parameter is the matching setting of the matching pair:
/// TOKEN/USDT (`upper` + `USDT`), TOKEN/BTC (`upper` + `BTC`) or BTC/USDT.
pub proof fn lemma_parameters_read_matching_settings(
    upper: Seq<char>,
    m: Map<Seq<char>, SymbolPrecision>,
)
    ensures
        ({
            let p = parameters_for(upper, m);
            let u = m[upper + "USDT"@];
            let b = m[upper + "BTC"@];
            let bu = m["BTCUSDT"@];
            &&& p.token_usdt_amount_precision == u.amount_precision
            &&& p.token_usdt_base_asset_precision == u.base_asset_precision
            &&& p.token_usdt_quote_asset_precision == u.quote_asset_precision
            &&& p.token_btc_amount_precision == b.amount_precision
            &&& p.token_btc_base_asset_precision == b.base_asset_precision
            &&& p.btc_usdt_amount_precision == bu.amount_precision
            &&& p.btc_usdt_quote_asset_precision == bu.quote_asset_precision
        }),
{
}

/// Each parameter depends on its own pair's settings only: settings that
/// agree on a pair give the same parameters of that pair, whatever the other
/// pairs hold.
pub proof fn lemma_parameters_of_a_pair_ignore_the_others(
    upper: Seq<char>,
    m1: Map<Seq<char>, SymbolPrecision>,
    m2: Map<Seq<char>, SymbolPrecision>,
)
    ensures
        m1["BTCUSDT"@] == m2["BTCUSDT"@] ==> {
            &&& parameters_for(upper, m1).btc_usdt_amount_precision == parameters_for(
                upper,
                m2,
            ).btc_usdt_amount_precision
            &&& parameters_for(upper, m1).btc_usdt_quote_asset_precision == parameters_for(
                upper,
                m2,
            ).btc_usdt_quote_asset_precision
        },
        m1[upper + "USDT"@] == m2[upper + "USDT"@] ==> {
            &&& parameters_for(upper, m1).token_usdt_amount_precision == parameters_for(
                upper,
                m2,
            ).token_usdt_amount_precision
            &&& parameters_for(upper, m1).token_usdt_base_asset_precision == parameters_for(
                upper,
                m2,
            ).token_usdt_base_asset_precision
            &&& parameters_for(upper, m1).token_usdt_quote_asset_precision == parameters_for(
                upper,
                m2,
            ).token_usdt_quote_asset_precision
        },
        m1[upper + "BTC"@] == m2[upper + "BTC"@] ==> {
            &&& parameters_for(upper, m1).token_btc_amount_precision == parameters_for(
                upper,
                m2,
            ).token_btc_amount_precision
            &&& parameters_for(upper, m1).token_btc_base_asset_precision == parameters_for(
                upper,
                m2,
            ).token_btc_base_asset_precision
        },
{
}

} // verus!
