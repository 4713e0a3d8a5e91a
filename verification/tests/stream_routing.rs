use arbscan::stream::{
    classify_symbol, message_fault, stream_endpoint, BookActivity, Market, MessageAction,
    MessageFault, StreamAction, StreamEvent,
};

fn ticker(symbol: &str, bid: &str, bid_qty: &str, ask: &str, ask_qty: &str) -> String {
    format!(
        "{{\"stream\":\"x@bookTicker\",\"data\":{{\"u\":123,\"s\":\"{}\",\"b\":\"{}\",\"B\":\"{}\",\"a\":\"{}\",\"A\":\"{}\"}}}}",
        symbol, bid, bid_qty, ask, ask_qty
    )
}

#[test]
fn classify_symbol_by_suffix() {
    assert_eq!(classify_symbol("BTCUSDT"), Some(Market::BtcUsdt));
    assert_eq!(classify_symbol("ADAUSDT"), Some(Market::TokenUsdt));
    assert_eq!(classify_symbol("USDT"), Some(Market::TokenUsdt));
    assert_eq!(classify_symbol("ADABTC"), Some(Market::TokenBtc));
    assert_eq!(classify_symbol("BTC"), Some(Market::TokenBtc));
    assert_eq!(classify_symbol("ETHEUR"), None);
    assert_eq!(classify_symbol(""), None);
    assert_eq!(classify_symbol("btcusdt"), None);
}

#[test]
fn ticker_update_reads_quoted_fields() {
    let mut books = BookActivity::new();
    let msg = ticker("ADAUSDT", "0.35", "100.0", "0.36", "200.0");
    match books.on_message(&msg) {
        MessageAction::Update { update, calculate } => {
            assert_eq!(update.market, Market::TokenUsdt);
            assert_eq!(update.symbol, "ADAUSDT");
            assert_eq!(update.bid_price, "0.35");
            assert_eq!(update.bid_amount, "100.0");
            assert_eq!(update.ask_price, "0.36");
            assert_eq!(update.ask_amount, "200.0");
            assert!(!calculate);
        }
        other => panic!("unexpected action {:?}", other),
    }
    assert!(books.token_usdt);
    assert!(!books.btc_usdt);
    assert!(!books.token_btc);
}

#[test]
fn calculation_due_once_all_three_books_active() {
    let mut books = BookActivity::new();
    let first = books.on_message(&ticker("BTCUSDT", "60000", "1", "60001", "2"));
    assert!(matches!(first, MessageAction::Update { calculate: false, .. }));
    let second = books.on_message(&ticker("ADABTC", "0.0000058", "10", "0.0000059", "20"));
    assert!(matches!(second, MessageAction::Update { calculate: false, .. }));
    let third = books.on_message(&ticker("ADAUSDT", "0.35", "100", "0.36", "200"));
    assert!(matches!(third, MessageAction::Update { calculate: true, .. }));
    let again = books.on_message(&ticker("BTCUSDT", "60002", "1", "60003", "2"));
    assert!(matches!(again, MessageAction::Update { calculate: true, .. }));
    assert!(books.ready());
}

#[test]
fn repeated_market_does_not_make_ready() {
    let mut books = BookActivity::new();
    for _ in 0..3 {
        let a = books.on_message(&ticker("ADAUSDT", "1", "1", "1", "1"));
        assert!(matches!(a, MessageAction::Update { calculate: false, .. }));
    }
    let b = books.on_message(&ticker("ADABTC", "1", "1", "1", "1"));
    assert!(matches!(b, MessageAction::Update { calculate: false, .. }));
    assert!(!books.ready());
}

#[test]
fn short_message_is_unrecognized() {
    let mut books = BookActivity::new();
    let before = books;
    assert!(matches!(books.on_message("{\"result\":null,\"id\":1}"), MessageAction::Unrecognized));
    assert!(matches!(books.on_message(""), MessageAction::Unrecognized));
    // exactly 21 separators give 22 pieces; 20 give 21 pieces
    let twenty = "\"".repeat(20);
    assert!(matches!(books.on_message(&twenty), MessageAction::Unrecognized));
    assert_eq!(books, before);
}

#[test]
fn message_without_ask_fields_is_truncated() {
    let twenty_one = "\"".repeat(21);
    assert!(matches!(message_fault(&twenty_one), Some(MessageFault::Truncated)));
    let twenty_six = "\"".repeat(26);
    assert!(matches!(message_fault(&twenty_six), Some(MessageFault::Truncated)));
    let twenty_seven = "\"".repeat(27);
    assert!(matches!(message_fault(&twenty_seven), Some(MessageFault::UnknownSymbol(_))));
}

#[test]
fn unknown_symbol_is_reported() {
    match message_fault(&ticker("ETHEUR", "1", "1", "1", "1")) {
        Some(MessageFault::UnknownSymbol(s)) => assert_eq!(s, "ETHEUR"),
        other => panic!("unexpected fault {:?}", other),
    }
}

#[test]
fn routable_messages_have_no_fault() {
    assert!(message_fault(&ticker("ADAUSDT", "1", "1", "1", "1")).is_none());
    assert!(message_fault(&ticker("ADABTC", "1", "1", "1", "1")).is_none());
    assert!(message_fault(&ticker("BTCUSDT", "1", "1", "1", "1")).is_none());
    assert!(message_fault("{\"result\":null,\"id\":1}").is_none());
    assert!(message_fault(&"\"".repeat(20)).is_none());
}

#[test]
fn stream_events_route_to_actions() {
    let mut books = BookActivity::new();
    assert!(matches!(books.on_event(StreamEvent::Ping), StreamAction::Ignore));
    assert!(matches!(books.on_event(StreamEvent::Binary(7)), StreamAction::ReportBinary(7)));
    assert!(matches!(books.on_event(StreamEvent::Other), StreamAction::ReportOther));
    assert!(matches!(books.on_event(StreamEvent::Failed), StreamAction::Reconnect));
    assert!(matches!(books.on_event(StreamEvent::ConnectFailed), StreamAction::RetryConnect));
    assert_eq!(books, BookActivity::new());
    let text = ticker("ADABTC", "1", "2", "3", "4");
    match books.on_event(StreamEvent::Text(text)) {
        StreamAction::Message(MessageAction::Update { update, calculate }) => {
            assert_eq!(update.market, Market::TokenBtc);
            assert_eq!(update.ask_amount, "4");
            assert!(!calculate);
        }
        other => panic!("unexpected action {:?}", other),
    }
    assert!(books.token_btc);
}

#[test]
fn endpoint_names_token_streams() {
    assert_eq!(
        stream_endpoint("ada"),
        "wss://stream.binance.com:9443/stream?streams=adausdt@bookTicker/adabtc@bookTicker/btcusdt@bookTicker"
    );
}

#[test]
fn run_of_frames_acts_as_its_text_frames() {
    let texts = [
        ticker("ADABTC", "1", "2", "3", "4"),
        "{\"result\":null}".to_string(),
        ticker("BTCUSDT", "5", "6", "7", "8"),
    ];
    let mut by_events = BookActivity::new();
    let events = vec![
        StreamEvent::Ping,
        StreamEvent::Text(texts[0].clone()),
        StreamEvent::Binary(3),
        StreamEvent::Text(texts[1].clone()),
        StreamEvent::Other,
        StreamEvent::Text(texts[2].clone()),
        StreamEvent::Failed,
    ];
    for e in events {
        by_events.on_event(e);
    }
    let mut by_texts = BookActivity::new();
    for t in texts.iter() {
        by_texts.on_message(t);
    }
    assert_eq!(by_events, by_texts);
    assert!(by_events.btc_usdt && by_events.token_btc && !by_events.token_usdt);
}
