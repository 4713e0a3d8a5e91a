//! Routing of best-bid/best-ask ticker messages from the exchange stream to
//! the three order books of the market triple, and the decision of when the
//! arbitrage calculation runs.

use vstd::prelude::*;

use crate::text::{ends_with, has_suffix, same_text, split_on, split_on_char};

verus! {

/// The three markets of the triple.
#[derive(Clone, Copy, Debug, PartialEq, Eq, Structural)]
pub enum Market {
    /// BTC/USDT.
    BtcUsdt,
    /// TOKEN/USDT.
    TokenUsdt,
    /// TOKEN/BTC.
    TokenBtc,
}

/// Which market a ticker symbol belongs to: exactly `BTCUSDT` is BTC/USDT,
/// any other symbol that ends in `USDT` is TOKEN/USDT, one that ends in `BTC`
/// is TOKEN/BTC, and any other symbol belongs to none.
pub open spec fn market_of(symbol: Seq<char>) -> Option<Market> {
    if symbol == "BTCUSDT"@ {
        Some(Market::BtcUsdt)
    } else if has_suffix(symbol, "USDT"@) {
        Some(Market::TokenUsdt)
    } else if has_suffix(symbol, "BTC"@) {
        Some(Market::TokenBtc)
    } else {
        None
    }
}

/// Classifies a ticker symbol by the market it belongs to.
pub fn classify_symbol(symbol: &str) -> (res: Option<Market>)
    ensures
        res == market_of(symbol@),
{
    if same_text(symbol, "BTCUSDT") {
        Some(Market::BtcUsdt)
    } else if ends_with(symbol, "USDT") {
        Some(Market::TokenUsdt)
    } else if ends_with(symbol, "BTC") {
        Some(Market::TokenBtc)
    } else {
        None
    }
}

/// Which of the three order books have received at least one ticker update.
#[derive(Clone, Copy, Debug, PartialEq, Eq, Structural)]
pub struct BookActivity {
    pub btc_usdt: bool,
    pub token_usdt: bool,
    pub token_btc: bool,
}

impl BookActivity {
    /// The state with the book of `market` marked active.
    pub open spec fn activated(self, market: Market) -> BookActivity {
        match market {
            Market::BtcUsdt => BookActivity { btc_usdt: true, ..self },
            Market::TokenUsdt => BookActivity { token_usdt: true, ..self },
            Market::TokenBtc => BookActivity { token_btc: true, ..self },
        }
    }

    /// Whether the book of `market` is active.
    pub open spec fn is_active(self, market: Market) -> bool {
        match market {
            Market::BtcUsdt => self.btc_usdt,
            Market::TokenUsdt => self.token_usdt,
            Market::TokenBtc => self.token_btc,
        }
    }

    /// All three books are active.
    pub open spec fn all_active(self) -> bool {
        self.btc_usdt && self.token_usdt && self.token_btc
    }

    /// No book has been updated yet.
    pub fn new() -> (res: BookActivity)
        ensures
            !res.btc_usdt && !res.token_usdt && !res.token_btc,
    {
        BookActivity { btc_usdt: false, token_usdt: false, token_btc: false }
    }

    /// Whether all three books are active.
    pub fn ready(&self) -> (res: bool)
        ensures
            res == self.all_active(),
    {
        self.btc_usdt && self.token_usdt && self.token_btc
    }
}

/// The text fields of one ticker update, as the message carries them.
#[derive(Clone, Debug)]
pub struct TickerUpdate {
    pub market: Market,
    pub symbol: String,
    pub bid_price: String,
    pub bid_amount: String,
    pub ask_price: String,
    pub ask_amount: String,
}

/// What to do with one text message of the stream that can be routed.
#[derive(Clone, Debug)]
pub enum MessageAction {
    /// Too few fields for a ticker: show the raw text.
    Unrecognized,
    /// A ticker for one of the markets; `calculate` tells whether all three
    /// books are active once it is applied.
    Update { update: TickerUpdate, calculate: bool },
}

/// Why a text message that looks like a ticker cannot be routed.
#[derive(Clone, Debug)]
pub enum MessageFault {
    /// Enough fields for the symbol and the bid, but not for the ask fields
    /// that a ticker holds further on.
    Truncated,
    /// A ticker whose symbol belongs to none of the three markets.
    UnknownSymbol(String),
}

/// Index of the symbol among the quote-separated pieces of a ticker message.
pub const SYMBOL_FIELD: usize = 11;

/// Index of the best bid price.
pub const BID_PRICE_FIELD: usize = 15;

/// Index of the best bid amount.
pub const BID_AMOUNT_FIELD: usize = 19;

/// Index of the best ask price.
pub const ASK_PRICE_FIELD: usize = 23;

/// Index of the best ask amount.
pub const ASK_AMOUNT_FIELD: usize = 27;

/// A message is read as a ticker only when it splits into more than this
/// many pieces.
pub const MIN_TICKER_PIECES: usize = 21;

/// The update that a message carries, read from its quote-separated pieces.
pub open spec fn update_matches(u: TickerUpdate, parts: Seq<Seq<char>>, market: Market) -> bool {
    &&& u.market == market
    &&& u.symbol@ == parts[SYMBOL_FIELD as int]
    &&& u.bid_price@ == parts[BID_PRICE_FIELD as int]
    &&& u.bid_amount@ == parts[BID_AMOUNT_FIELD as int]
    &&& u.ask_price@ == parts[ASK_PRICE_FIELD as int]
    &&& u.ask_amount@ == parts[ASK_AMOUNT_FIELD as int]
}

/// A message can be routed: it is too short to be a ticker, or it holds all
/// ticker fields and a symbol of one of the three markets. Any other message
/// makes the stream stop.
pub open spec fn message_routable(text: Seq<char>) -> bool {
    let parts = split_on(text, '"');
    parts.len() <= MIN_TICKER_PIECES || (parts.len() > ASK_AMOUNT_FIELD && market_of(
        parts[SYMBOL_FIELD as int],
    ) is Some)
}

/// Tells why a message cannot be routed, or `None` when it can.
///
/// With 22 to 27 pieces the ask fields are missing; with more, a symbol of
/// none of the three markets is unknown.
pub fn message_fault(text: &str) -> (fault: Option<MessageFault>)
    ensures
        ({
            let parts = split_on(text@, '"');
            match fault {
                None => message_routable(text@),
                Some(MessageFault::Truncated) => MIN_TICKER_PIECES < parts.len()
                    <= ASK_AMOUNT_FIELD,
                Some(MessageFault::UnknownSymbol(s)) => parts.len() > ASK_AMOUNT_FIELD && market_of(
                    parts[SYMBOL_FIELD as int],
                ) is None && s@ == parts[SYMBOL_FIELD as int],
            }
        }),
{
    let parts = split_on_char(text, '"');
    let ghost pv = parts@.map_values(|p: String| p@);
    assert(pv.len() == parts@.len());
    if parts.len() <= MIN_TICKER_PIECES {
        return None;
    }
    if parts.len() <= ASK_AMOUNT_FIELD {
        return Some(MessageFault::Truncated);
    }
    let symbol = parts[SYMBOL_FIELD].clone();
    assert(symbol@ == pv[SYMBOL_FIELD as int]);
    match classify_symbol(symbol.as_str()) {
        None => Some(MessageFault::UnknownSymbol(symbol)),
        Some(_) => None,
    }
}

/// What one routable text message does: the action it calls for, and the
/// books before (`pre`) and after (`post`) it.
pub open spec fn message_effect(
    pre: BookActivity,
    post: BookActivity,
    text: Seq<char>,
    action: MessageAction,
) -> bool {
    let parts = split_on(text, '"');
    if parts.len() <= MIN_TICKER_PIECES {
        action is Unrecognized && post == pre
    } else {
        let m = market_of(parts[SYMBOL_FIELD as int])->0;
        &&& action matches MessageAction::Update { update, calculate }
        &&& update_matches(update, parts, m)
        &&& calculate == post.all_active()
        &&& post == pre.activated(m)
    }
}

/// The books after one text message: unchanged by a message too short to
/// be a ticker, otherwise with the book of the ticker's market active.
pub open spec fn message_books(pre: BookActivity, text: Seq<char>) -> BookActivity {
    let parts = split_on(text, '"');
    if parts.len() <= MIN_TICKER_PIECES {
        pre
    } else {
        pre.activated(market_of(parts[SYMBOL_FIELD as int])->0)
    }
}

impl BookActivity {
    /// Decides what a routable text message of the stream means and records
    /// which book it updates.
    ///
    /// The message is split on `"`. With at most 21 pieces it is not a
    /// ticker; otherwise piece 11 is the symbol and pieces 15, 19, 23 and 27
    /// the bid price, bid amount, ask price and ask amount. The symbol's
    /// market has its book marked active, and the calculation is due once
    /// all three books are active.
    pub fn on_message(&mut self, text: &str) -> (action: MessageAction)
        requires
            message_routable(text@),
        ensures
            message_effect(*old(self), *final(self), text@, action),
            *final(self) == message_books(*old(self), text@),
    {
        let parts = split_on_char(text, '"');
        let ghost pv = parts@.map_values(|p: String| p@);
        assert(pv.len() == parts@.len());
        if parts.len() <= MIN_TICKER_PIECES {
            return MessageAction::Unrecognized;
        }
        let symbol = parts[SYMBOL_FIELD].clone();
        assert(symbol@ == pv[SYMBOL_FIELD as int]);
        let market = classify_symbol(symbol.as_str()).unwrap();
        match market {
            Market::BtcUsdt => { self.btc_usdt = true; },
            Market::TokenUsdt => { self.token_usdt = true; },
            Market::TokenBtc => { self.token_btc = true; },
        }
        let update = TickerUpdate {
            market,
            symbol,
            bid_price: parts[BID_PRICE_FIELD].clone(),
            bid_amount: parts[BID_AMOUNT_FIELD].clone(),
            ask_price: parts[ASK_PRICE_FIELD].clone(),
            ask_amount: parts[ASK_AMOUNT_FIELD].clone(),
        };
        assert(update_matches(update, pv, market));
        let calculate = self.ready();
        MessageAction::Update { update, calculate }
    }
}

/// One event of the stream connection, as read from the socket.
#[derive(Clone, Debug)]
pub enum StreamEvent {
    /// A text frame.
    Text(String),
    /// A binary frame of the given length.
    Binary(usize),
    /// A ping frame.
    Ping,
    /// Any other frame.
    Other,
    /// Reading from the connection failed.
    Failed,
    /// Opening the connection failed.
    ConnectFailed,
}

/// What the stream loop does after an event.
#[derive(Clone, Debug)]
pub enum StreamAction {
    /// Act on a text message as its action says.
    Message(MessageAction),
    /// Report a binary frame of the given length.
    ReportBinary(usize),
    /// Nothing to do.
    Ignore,
    /// Report a frame of another kind.
    ReportOther,
    /// Give up this connection and connect again.
    Reconnect,
    /// Try to connect again after a pause.
    RetryConnect,
}

/// The books after one event of the stream: only text frames change them.
pub open spec fn event_books(pre: BookActivity, event: StreamEvent) -> BookActivity {
    match event {
        StreamEvent::Text(t) => message_books(pre, t@),
        _ => pre,
    }
}

impl BookActivity {
    /// Decides what the stream loop does with one event: text frames go to
    /// `on_message`, binary and other frames are reported, pings are
    /// ignored, and a failed read ends the connection so that it is opened
    /// again, as does a failed attempt to connect. Only text frames change
    /// the books.
    pub fn on_event(&mut self, event: StreamEvent) -> (action: StreamAction)
        requires
            event matches StreamEvent::Text(t) ==> message_routable(t@),
        ensures
            match event {
                StreamEvent::Text(t) => action matches StreamAction::Message(a) && message_effect(
                    *old(self),
                    *final(self),
                    t@,
                    a,
                ),
                StreamEvent::Binary(n) => action == StreamAction::ReportBinary(n) && *final(self)
                    == *old(self),
                StreamEvent::Ping => action is Ignore && *final(self) == *old(self),
                StreamEvent::Other => action is ReportOther && *final(self) == *old(self),
                StreamEvent::Failed => action is Reconnect && *final(self) == *old(self),
                StreamEvent::ConnectFailed => action is RetryConnect && *final(self) == *old(
                    self,
                ),
            },
            *final(self) == event_books(*old(self), event),
    {
        match event {
            StreamEvent::Text(t) => StreamAction::Message(self.on_message(t.as_str())),
            StreamEvent::Binary(n) => StreamAction::ReportBinary(n),
            StreamEvent::Ping => StreamAction::Ignore,
            StreamEvent::Other => StreamAction::ReportOther,
            StreamEvent::Failed => StreamAction::Reconnect,
            StreamEvent::ConnectFailed => StreamAction::RetryConnect,
        }
    }
}

} // verus!

verus! {

/// A book, once active, stays active whatever market is updated next; the
/// updated market's book is active afterwards.
pub proof fn lemma_activity_only_grows(s: BookActivity, updated: Market, other: Market)
    ensures
        s.activated(updated).is_active(updated),
        s.is_active(other) ==> s.activated(updated).is_active(other),
        s.all_active() ==> s.activated(updated).all_active(),
{
}

/// Once one update of each of the three markets has been seen, in any order
/// and from any starting state, all three books are active.
pub proof fn lemma_three_markets_make_ready(s: BookActivity, a: Market, b: Market, c: Market)
    requires
        a != b,
        b != c,
        a != c,
    ensures
        s.activated(a).activated(b).activated(c).all_active(),
{
}

/// Applying the same market's update twice leaves the books as one update
/// does.
pub proof fn lemma_repeat_update_idempotent(s: BookActivity, m: Market)
    ensures
        s.activated(m).activated(m) == s.activated(m),
{
}

/// Until every one of the three markets has been updated, the calculation is
/// not due: after updates of two markets only, from the initial state, some
/// book is still inactive.
pub proof fn lemma_two_markets_not_ready(a: Market, b: Market)
    ensures
        !(BookActivity { btc_usdt: false, token_usdt: false, token_btc: false }).activated(a).activated(
            b,
        ).all_active(),
{
}

} // verus!

verus! {

/// The combined-stream address that carries the book tickers of
/// TOKEN/USDT, TOKEN/BTC and BTC/USDT for `token` (as given, in lower case).
pub open spec fn endpoint_of(token: Seq<char>) -> Seq<char> {
    "wss://stream.binance.com:9443/stream?streams="@ + token + "usdt@bookTicker/"@ + token
        + "btc@bookTicker/btcusdt@bookTicker"@
}

/// Builds the combined-stream address for `token`.
pub fn stream_endpoint(token: &str) -> (url: String)
    ensures
        url@ == endpoint_of(token@),
{
    let mut url = String::from_str("wss://stream.binance.com:9443/stream?streams=");
    url.append(token);
    url.append("usdt@bookTicker/");
    url.append(token);
    url.append("btc@bookTicker/btcusdt@bookTicker");
    url
}

/// The books after a run of stream events, applied in order.
pub open spec fn events_books(pre: BookActivity, events: Seq<StreamEvent>) -> BookActivity
    decreases events.len(),
{
    if events.len() == 0 {
        pre
    } else {
        event_books(events_books(pre, events.drop_last()), events.last())
    }
}

/// The texts of the text frames among `events`, in arrival order.
pub open spec fn text_frames(events: Seq<StreamEvent>) -> Seq<Seq<char>>
    decreases events.len(),
{
    if events.len() == 0 {
        Seq::<Seq<char>>::empty()
    } else {
        let prev = text_frames(events.drop_last());
        match events.last() {
            StreamEvent::Text(t) => prev.push(t@),
            _ => prev,
        }
    }
}

/// The books after a run of text messages, applied in order.
pub open spec fn messages_books(pre: BookActivity, texts: Seq<Seq<char>>) -> BookActivity
    decreases texts.len(),
{
    if texts.len() == 0 {
        pre
    } else {
        message_books(messages_books(pre, texts.drop_last()), texts.last())
    }
}

/// A run of stream events leaves the books as its text frames alone do when
/// they are applied in arrival order: every other frame changes nothing.
pub proof fn lemma_events_act_as_their_texts(pre: BookActivity, events: Seq<StreamEvent>)
    ensures
        events_books(pre, events) == messages_books(pre, text_frames(events)),
    decreases events.len(),
{
    if events.len() > 0 {
        let prev = events.drop_last();
        lemma_events_act_as_their_texts(pre, prev);
        match events.last() {
            StreamEvent::Text(t) => {
                assert(text_frames(prev).push(t@).drop_last() =~= text_frames(prev));
            },
            _ => {},
        }
    }
}

/// Whatever its market, a ticker update carries the message's quote-separated
/// pieces 11, 15, 19, 23 and 27 as symbol, bid price, bid amount, ask price and
/// ask amount; its market is the symbol's, and that market's book is the one
/// marked active.
pub proof fn lemma_update_reads_fixed_pieces(
    pre: BookActivity,
    post: BookActivity,
    text: Seq<char>,
    action: MessageAction,
)
    requires
        message_routable(text),
        message_effect(pre, post, text, action),
        action is Update,
    ensures
        ({
            let parts = split_on(text, '"');
            &&& parts.len() > 21
            &&& action matches MessageAction::Update { update, calculate } && {
                &&& update.symbol@ == parts[11]
                &&& update.bid_price@ == parts[15]
                &&& update.bid_amount@ == parts[19]
                &&& update.ask_price@ == parts[23]
                &&& update.ask_amount@ == parts[27]
                &&& Some(update.market) == market_of(parts[11])
                &&& post.is_active(update.market)
                &&& calculate == (post.btc_usdt && post.token_usdt && post.token_btc)
            }
        }),
{
}

/// `s` followed by `suffix`, cut back to the length of `suffix`, is `suffix`.
proof fn lemma_concat_suffix(s: Seq<char>, suffix: Seq<char>)
    ensures
        (s + suffix).subrange(s.len() as int, (s + suffix).len() as int) == suffix,
{
    assert((s + suffix).subrange(s.len() as int, (s + suffix).len() as int) =~= suffix);
}

/// The market of a symbol is decided by its ending alone: any name followed by
/// `USDT` is TOKEN/USDT (unless the whole symbol is `BTCUSDT`, which is
/// BTC/USDT), and any name followed by `BTC` is TOKEN/BTC, whatever the
/// length of the name; a symbol that is empty, or ends in neither `T` nor
/// `C`, belongs to no market.
pub proof fn lemma_market_by_suffix(name: Seq<char>)
    ensures
        market_of("BTCUSDT"@) == Some(Market::BtcUsdt),
        name != "BTC"@ ==> market_of(name + "USDT"@) == Some(Market::TokenUsdt),
        market_of(name + "BTC"@) == Some(Market::TokenBtc),
        name.len() == 0 || (name.last() != 'T' && name.last() != 'C') ==> market_of(name) is None,
{
    reveal_strlit("BTCUSDT");
    reveal_strlit("USDT");
    reveal_strlit("BTC");
    lemma_concat_suffix(name, "USDT"@);
    lemma_concat_suffix(name, "BTC"@);
    let su = name + "USDT"@;
    let sb = name + "BTC"@;
    if name != "BTC"@ && su == "BTCUSDT"@ {
        assert(name =~= su.subrange(0, 3));
        assert(name =~= "BTC"@);
    }
    if name.len() > 0 && name.last() != 'T' && name.last() != 'C' {
        if name.len() >= 4 {
            assert(name.subrange(name.len() - 4, name.len() as int)[3] == name.last());
        }
        if name.len() >= 3 {
            assert(name.subrange(name.len() - 3, name.len() as int)[2] == name.last());
        }
        assert("BTC"@[2] == 'C');
        assert("BTCUSDT"@.last() == 'T');
    }
    assert(sb[sb.len() - 1] == 'C');
    assert("BTCUSDT"@[6] == 'T');
    if sb.len() >= 4 {
        assert(sb.subrange(sb.len() - 4, sb.len() as int)[3] == 'C');
        assert("USDT"@[3] == 'T');
    }
}

/// The stream address holds the whole token, verbatim, twice: right after the
/// 45-character prefix and after the `usdt@bookTicker/` that follows it; its
/// length grows by twice the token's length, and different tokens give
/// different addresses.
pub proof fn lemma_endpoint_holds_token(t: Seq<char>, u: Seq<char>)
    ensures
        endpoint_of(t).len() == 94 + 2 * t.len(),
        endpoint_of(t).subrange(45, 45 + t.len() as int) == t,
        endpoint_of(t).subrange(61 + t.len() as int, 61 + 2 * t.len() as int) == t,
        endpoint_of(t) == endpoint_of(u) ==> t == u,
{
    reveal_strlit("wss://stream.binance.com:9443/stream?streams=");
    reveal_strlit("usdt@bookTicker/");
    reveal_strlit("btc@bookTicker/btcusdt@bookTicker");
    let e = endpoint_of(t);
    assert(e.subrange(45, 45 + t.len() as int) =~= t);
    assert(e.subrange(61 + t.len() as int, 61 + 2 * t.len() as int) =~= t);
    let f = endpoint_of(u);
    assert(f.subrange(45, 45 + u.len() as int) =~= u);
}

} // verus!
