use price_feed::ingest::{apply_tick, ingest_all, ingest_message, is_stop, Flow, Inbound};
use price_feed::report::{render_report, subscribe_message, REPORT_INTERVAL_SECS};
use price_feed::store::PriceStore;
use price_feed::symbols::{symbols_from_csv, symbols_from_fields};
use price_feed::tick::{applicable, decode_tick, tick_from_members, JsonMember, TickEvent};

fn s(x: &str) -> String {
    x.to_string()
}

fn price_of(store: &PriceStore, symbol: &str) -> Option<String> {
    store
        .snapshot()
        .into_iter()
        .find(|(k, _)| k == symbol)
        .map(|(_, v)| v)
}

fn text(kind: &str, symbol: &str, price: &str) -> Inbound {
    Inbound::Text(format!(
        "{{\"type\":\"{}\",\"product_id\":\"{}\",\"price\":{}}}",
        kind, symbol, price
    ))
}

fn tick(kind: &str, symbol: &str, price: Option<&str>) -> TickEvent {
    TickEvent { event_kind: s(kind), symbol: s(symbol), price: price.map(s) }
}

#[test]
fn new_store_is_empty() {
    assert!(PriceStore::new().snapshot().is_empty());
}

#[test]
fn latest_write_wins() {
    let mut store = PriceStore::new();
    store.update(s("BTC-USD"), s("3"));
    store.update(s("ETH-USD"), s("7"));
    store.update(s("BTC-USD"), s("1"));
    store.update(s("BTC-USD"), s("2"));
    let snap = store.snapshot();
    assert_eq!(snap.len(), 2);
    assert_eq!(price_of(&store, "BTC-USD"), Some(s("2")));
    assert_eq!(price_of(&store, "ETH-USD"), Some(s("7")));
}

#[test]
fn update_of_other_symbol_keeps_entry() {
    let mut store = PriceStore::new();
    store.update(s("BTC-USD"), s("50000.00"));
    store.update(s("ETH-USD"), s("3000"));
    store.update(s("SOL-USD"), s("150"));
    assert_eq!(price_of(&store, "BTC-USD"), Some(s("50000.00")));
}

#[test]
fn other_kind_ignored() {
    let mut store = PriceStore::new();
    store.update(s("BTC-USD"), s("5"));
    assert!(!apply_tick(&mut store, tick("heartbeat", "BTC-USD", Some("1"))));
    assert!(!apply_tick(&mut store, tick("heartbeat", "ETH-USD", Some("1"))));
    assert_eq!(store.snapshot(), vec![(s("BTC-USD"), s("5"))]);
}

#[test]
fn missing_price_ignored() {
    let mut store = PriceStore::new();
    assert!(!apply_tick(&mut store, tick("ticker", "ETH-USD", None)));
    assert!(store.snapshot().is_empty());
}

#[test]
fn applicable_event_applied() {
    let mut store = PriceStore::new();
    let e = tick("ticker", "ETH-USD", Some("3000.5"));
    assert!(applicable(&e));
    assert!(apply_tick(&mut store, e));
    assert_eq!(store.snapshot(), vec![(s("ETH-USD"), s("3000.5"))]);
}

#[test]
fn malformed_message_ignored() {
    let mut store = PriceStore::new();
    store.update(s("BTC-USD"), s("5"));
    for m in [
        Inbound::Text(s("not json")),
        Inbound::Text(s("[1,2,3]")),
        Inbound::Text(s("{\"type\":\"ticker\",\"product_id\":\"BTC-USD\",\"price\":12}")),
        Inbound::Text(s("{\"type\":\"ticker\",\"price\":\"12\"}")),
        Inbound::Text(s("{\"type\":7,\"product_id\":\"BTC-USD\",\"price\":\"12\"}")),
        Inbound::NonText,
    ] {
        assert_eq!(ingest_message(&mut store, &m), Flow::Continue);
    }
    assert_eq!(store.snapshot(), vec![(s("BTC-USD"), s("5"))]);
}

#[test]
fn malformed_message_does_not_end_batch() {
    let mut store = PriceStore::new();
    let msgs = vec![
        Inbound::Text(s("{oops")),
        text("ticker", "BTC-USD", "\"42\""),
    ];
    assert_eq!(ingest_all(&mut store, &msgs), Flow::Continue);
    assert_eq!(price_of(&store, "BTC-USD"), Some(s("42")));
}

#[test]
fn scenario_latest_ticker_price() {
    let mut store = PriceStore::new();
    let msgs = vec![
        text("ticker", "BTC-USD", "\"50000.00\""),
        text("ticker", "BTC-USD", "\"50010.50\""),
        text("heartbeat", "BTC-USD", "\"1\""),
    ];
    assert_eq!(ingest_all(&mut store, &msgs), Flow::Continue);
    assert_eq!(price_of(&store, "BTC-USD"), Some(s("50010.50")));
    assert_eq!(price_of(&store, "ETH-USD"), None);
    assert_eq!(store.snapshot().len(), 1);
}

#[test]
fn scenario_null_price() {
    let mut store = PriceStore::new();
    store.update(s("BTC-USD"), s("5"));
    let m = text("ticker", "ETH-USD", "null");
    assert_eq!(ingest_message(&mut store, &m), Flow::Continue);
    assert_eq!(store.snapshot(), vec![(s("BTC-USD"), s("5"))]);
}

#[test]
fn scenario_read_error_stops() {
    let mut store = PriceStore::new();
    let msgs = vec![
        text("ticker", "BTC-USD", "\"1\""),
        text("ticker", "ETH-USD", "\"2\""),
        Inbound::Failed,
        text("ticker", "BTC-USD", "\"3\""),
    ];
    assert_eq!(ingest_all(&mut store, &msgs), Flow::Stop);
    assert_eq!(price_of(&store, "BTC-USD"), Some(s("1")));
    assert_eq!(price_of(&store, "ETH-USD"), Some(s("2")));
    assert_eq!(store.snapshot().len(), 2);
}

#[test]
fn end_of_stream_stops() {
    let mut store = PriceStore::new();
    assert_eq!(ingest_message(&mut store, &Inbound::Closed), Flow::Stop);
    assert_eq!(ingest_message(&mut store, &Inbound::Failed), Flow::Stop);
    assert!(is_stop(&Inbound::Closed));
    assert!(!is_stop(&Inbound::NonText));
}

#[test]
fn decode_reads_members() {
    let e = decode_tick("{\"type\":\"ticker\",\"sequence\":9,\"product_id\":\"BTC-USD\",\"price\":\"50000.00\"}")
        .unwrap();
    assert_eq!(e.event_kind, "ticker");
    assert_eq!(e.symbol, "BTC-USD");
    assert_eq!(e.price, Some(s("50000.00")));
    let e = decode_tick("{\"type\":\"subscriptions\",\"product_id\":\"ETH-USD\"}").unwrap();
    assert_eq!(e.event_kind, "subscriptions");
    assert_eq!(e.price, None);
    assert!(decode_tick("\"ticker\"").is_none());
}

#[test]
fn members_make_event() {
    let e = tick_from_members(
        JsonMember::Text(s("ticker")),
        JsonMember::Text(s("BTC-USD")),
        JsonMember::Null,
    )
    .unwrap();
    assert_eq!(e.price, None);
    let e = tick_from_members(
        JsonMember::Text(s("ticker")),
        JsonMember::Text(s("BTC-USD")),
        JsonMember::Text(s("9")),
    )
    .unwrap();
    assert_eq!(e.price, Some(s("9")));
    assert!(tick_from_members(JsonMember::Absent, JsonMember::Text(s("X")), JsonMember::Null)
        .is_none());
    assert!(tick_from_members(JsonMember::Text(s("t")), JsonMember::Other, JsonMember::Null)
        .is_none());
    assert!(tick_from_members(
        JsonMember::Text(s("t")),
        JsonMember::Text(s("X")),
        JsonMember::Other
    )
    .is_none());
    assert!(tick_from_members(
        JsonMember::Malformed,
        JsonMember::Malformed,
        JsonMember::Malformed
    )
    .is_none());
}

#[test]
fn report_text_exact() {
    let snap = vec![(s("BTC-USD"), s("50010.50")), (s("ETH-USD"), s("3000"))];
    assert_eq!(
        render_report(&snap),
        "\n==== Latest Prices (every 30 seconds) ====\nBTC-USD: $50010.50\nETH-USD: $3000\n===========================================\n\n"
    );
    assert_eq!(
        render_report(&vec![]),
        "\n==== Latest Prices (every 30 seconds) ====\n===========================================\n\n"
    );
    assert_eq!(REPORT_INTERVAL_SECS, 30);
}

#[test]
fn subscribe_message_exact() {
    let msg = subscribe_message(&vec![s("BTC-USD"), s("ETH-USD")]);
    assert_eq!(
        msg,
        "{\"type\": \"subscribe\", \"channels\": [{ \"name\": \"ticker\", \"product_ids\": [\"BTC-USD\", \"ETH-USD\"] }]}"
    );
    let v: serde_json::Value = serde_json::from_str(&msg).unwrap();
    assert_eq!(v["channels"][0]["product_ids"][1], "ETH-USD");
    assert_eq!(
        subscribe_message(&vec![s("BTC-USD")]),
        "{\"type\": \"subscribe\", \"channels\": [{ \"name\": \"ticker\", \"product_ids\": [\"BTC-USD\"] }]}"
    );
}

#[test]
fn symbols_read_from_csv() {
    let syms = symbols_from_csv("symbol\n BTC-USD \nETH-USD\n").unwrap();
    assert_eq!(syms, vec![s("BTC-USD"), s("ETH-USD")]);
    assert_eq!(symbols_from_csv("symbol\n").unwrap(), Vec::<String>::new());
    assert!(symbols_from_csv("a,b\n1,2\n3\n").is_none());
}

#[test]
fn symbols_from_fields_trims_and_skips() {
    let fields = vec![Some(s("  A ")), None, Some(s("B"))];
    assert_eq!(symbols_from_fields(&fields), vec![s("A"), s("B")]);
}
