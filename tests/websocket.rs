use ccx_gate::json::Json;
use ccx_gate::order_book::{find_gap, is_next_update, decode_level, Dec, OrderBookSnapshot, PriceLevel};
use ccx_gate::websocket::{
    WsDecodeError, WsErr, WsErrCode, WsField, WsResponse, WsResponseEvent, WsResponseInner, WsResult,
};
use std::str::FromStr;

fn frame(text: &str) -> Json {
    tree(&serde_json::from_str::<serde_json::Value>(text).unwrap())
}

fn tree(v: &serde_json::Value) -> Json {
    match v {
        serde_json::Value::Null => Json::Null,
        serde_json::Value::Bool(b) => Json::Bool(*b),
        serde_json::Value::Number(n) => match (n.as_i64(), n.as_u64()) {
            (Some(i), _) => Json::Int(i as i128),
            (None, Some(u)) => Json::Int(u as i128),
            (None, None) => Json::NonInteger,
        },
        serde_json::Value::String(s) => Json::Str(s.clone()),
        serde_json::Value::Array(a) => Json::Array(a.iter().map(tree).collect()),
        serde_json::Value::Object(o) => Json::Object(o.iter().map(|(k, v)| (k.clone(), tree(v))).collect()),
    }
}

fn dec(text: &str) -> Dec {
    let d = rust_decimal::Decimal::from_str(text).unwrap();
    Dec::new(d.mantissa(), d.scale())
}

fn level(price: &str, amount: &str) -> PriceLevel {
    PriceLevel::new(dec(price), dec(amount))
}

fn pong(time: i64) -> WsResponse {
    WsResponse { time, id: None, inner: WsResponseInner::Pong }
}

#[test]
fn deserialize_pong() {
    let json = r#"{
  "time": 1545404023,
  "channel": "spot.pong",
  "event": "",
  "error": null,
  "result": null
}"#;
    let expected = pong(1545404023);
    assert_eq!(expected, WsResponse::decode(&frame(json)).unwrap())
}

#[test]
fn deserialize_order_book() {
    let json = r#"{
  "time": 1606295412,
  "time_ms": 1606295412213,
  "channel": "spot.order_book",
  "event": "update",
  "result": {
    "t": 1606295412123,
    "lastUpdateId": 48791820,
    "s": "BTC_USDT",
    "bids": [
      ["19079.55", "0.0195"],
      ["19079.07", "0.7341"],
      ["19076.23", "0.00011808"],
      ["19073.9", "0.105"],
      ["19068.83", "0.1009"]
    ],
    "asks": [
      ["19080.24", "0.1638"],
      ["19080.91", "0.1366"],
      ["19080.92", "0.01"],
      ["19081.29", "0.01"],
      ["19083.8", "0.097"]
    ]
  }
}"#;
    let expected = WsResponse {
        time: 1606295412,
        id: None,
        inner: WsResponseInner::OrderBook(WsResponseEvent::Update(WsResult::Success(OrderBookSnapshot {
            update_time_ms: 1606295412123,
            last_update_id: 48791820,
            currency_pair: "BTC_USDT".into(),
            bids: vec![
                level("19079.55", "0.0195"),
                level("19079.07", "0.7341"),
                level("19076.23", "0.00011808"),
                level("19073.9", "0.105"),
                level("19068.83", "0.1009"),
            ],
            asks: vec![
                level("19080.24", "0.1638"),
                level("19080.91", "0.1366"),
                level("19080.92", "0.01"),
                level("19081.29", "0.01"),
                level("19083.8", "0.097"),
            ],
        }))),
    };
    assert_eq!(expected, WsResponse::decode(&frame(json)).unwrap());
}

#[test]
fn order_book_update_frame_decodes_to_snapshot() {
    let json = r#"{"time":1606295412,"channel":"spot.order_book","event":"update",
      "result":{"t":1606295412213,"lastUpdateId":48791820,"s":"BTC_USDT",
      "bids":[["19079.55","0.0195"]],"asks":[["19080.24","0.1638"]]}}"#;
    let got = WsResponse::decode(&frame(json)).unwrap();
    assert_eq!(got.time, 1606295412);
    assert_eq!(got.id, None);
    match got.inner {
        WsResponseInner::OrderBook(WsResponseEvent::Update(WsResult::Success(s))) => {
            assert_eq!(s.update_time_ms, 1606295412213);
            assert_eq!(s.last_update_id, 48791820);
            assert_eq!(s.currency_pair, "BTC_USDT");
            assert_eq!(s.bids, vec![PriceLevel::new(Dec::new(1907955, 2), Dec::new(195, 4))]);
            assert_eq!(s.asks, vec![PriceLevel::new(Dec::new(1908024, 2), Dec::new(1638, 4))]);
        },
        other => panic!("unexpected {:?}", other),
    }
}

#[test]
fn pong_decodes_for_any_time() {
    for time in [0i64, 1, -5, i64::MAX, i64::MIN] {
        let j = Json::Object(vec![
            ("time".to_string(), Json::Int(time as i128)),
            ("channel".to_string(), Json::Str("spot.pong".to_string())),
        ]);
        assert_eq!(WsResponse::decode(&j).unwrap(), pong(time));
    }
}

#[test]
fn id_is_echoed() {
    let j = frame(r#"{"time":7,"id":42,"channel":"spot.pong"}"#);
    assert_eq!(WsResponse::decode(&j).unwrap().id, Some(42));
}

#[test]
fn subscribe_ack_is_ignored_success() {
    let j = frame(r#"{"time":7,"id":1,"channel":"spot.order_book","event":"subscribe","error":null,"result":{"status":"success"}}"#);
    let got = WsResponse::decode(&j).unwrap();
    assert_eq!(
        got.inner,
        WsResponseInner::OrderBook(WsResponseEvent::Subscribe(WsResult::Success(ccx_gate::websocket::Ignored)))
    );
}

#[test]
fn unsubscribe_error_carries_code_and_message() {
    let j = frame(r#"{"time":7,"channel":"spot.order_book","event":"unsubscribe","error":{"code":2,"message":"bad pair"},"result":null}"#);
    let got = WsResponse::decode(&j).unwrap();
    assert_eq!(
        got.inner,
        WsResponseInner::OrderBook(WsResponseEvent::Unsubscribe(WsResult::Error(WsErr {
            code: WsErrCode::InvalidArgument,
            message: "bad pair".to_string(),
        })))
    );
    let e: Result<ccx_gate::websocket::Ignored, WsErr> = match got.inner {
        WsResponseInner::OrderBook(WsResponseEvent::Unsubscribe(r)) => Result::from(r),
        _ => unreachable!(),
    };
    assert_eq!(e.unwrap_err().code, WsErrCode::InvalidArgument);
}

#[test]
fn both_error_and_result_is_refused() {
    let j = frame(r#"{"time":7,"channel":"spot.order_book","event":"update","error":{"code":3,"message":"x"},"result":{}}"#);
    assert_eq!(WsResponse::decode(&j).unwrap_err(), WsDecodeError::ConflictingOutcome);
}

#[test]
fn neither_error_nor_result_is_refused() {
    let j = frame(r#"{"time":7,"channel":"spot.order_book","event":"subscribe","error":null}"#);
    assert_eq!(WsResponse::decode(&j).unwrap_err(), WsDecodeError::MissingOutcome);
}

#[test]
fn unknown_channel_is_reported() {
    let j = frame(r#"{"time":7,"channel":"spot.trades","event":"update","result":[]}"#);
    assert_eq!(WsResponse::decode(&j).unwrap_err(), WsDecodeError::UnknownChannel);
}

#[test]
fn unknown_event_is_reported() {
    let j = frame(r#"{"time":7,"channel":"spot.order_book","event":"all","result":{}}"#);
    assert_eq!(WsResponse::decode(&j).unwrap_err(), WsDecodeError::UnknownEvent);
}

#[test]
fn malformed_fields_are_named() {
    assert_eq!(WsResponse::decode(&Json::Null).unwrap_err(), WsDecodeError::Malformed(WsField::Frame));
    let no_time = frame(r#"{"channel":"spot.pong"}"#);
    assert_eq!(WsResponse::decode(&no_time).unwrap_err(), WsDecodeError::Malformed(WsField::Time));
    let bad_id = frame(r#"{"time":1,"id":"x","channel":"spot.pong"}"#);
    assert_eq!(WsResponse::decode(&bad_id).unwrap_err(), WsDecodeError::Malformed(WsField::Id));
    let bad_code = frame(r#"{"time":1,"channel":"spot.order_book","event":"update","error":{"code":9,"message":"x"}}"#);
    assert_eq!(WsResponse::decode(&bad_code).unwrap_err(), WsDecodeError::Malformed(WsField::Code));
    let bad_level = frame(r#"{"time":1,"channel":"spot.order_book","event":"update",
      "result":{"t":1,"lastUpdateId":2,"s":"A_B","bids":[["1.5","x"]],"asks":[]}}"#);
    assert_eq!(WsResponse::decode(&bad_level).unwrap_err(), WsDecodeError::Malformed(WsField::Bids));
    let bad_seq = frame(r#"{"time":1,"channel":"spot.order_book","event":"update",
      "result":{"t":1,"lastUpdateId":-2,"s":"A_B","bids":[],"asks":[]}}"#);
    assert_eq!(WsResponse::decode(&bad_seq).unwrap_err(), WsDecodeError::Malformed(WsField::LastUpdateId));
}

#[test]
fn decoding_twice_gives_equal_values() {
    let text = r#"{"time":1606295412,"channel":"spot.order_book","event":"update",
      "result":{"t":1,"lastUpdateId":5,"s":"ETH_USDT","bids":[["1.25","2"]],"asks":[]}}"#;
    let j = frame(text);
    assert_eq!(WsResponse::decode(&j).unwrap(), WsResponse::decode(&j).unwrap());
    assert_eq!(WsResponse::decode(&frame(text)).unwrap(), WsResponse::decode(&frame(text)).unwrap());
}

#[test]
fn level_parses_decimal_strings() {
    let j = Json::Array(vec![Json::Str("19079.55".to_string()), Json::Str("-0.5".to_string())]);
    assert_eq!(decode_level(&j), Some(PriceLevel::new(Dec::new(1907955, 2), Dec::new(-5, 1))));
    let short = Json::Array(vec![Json::Str("1".to_string())]);
    assert_eq!(decode_level(&short), None);
}

#[test]
fn gap_detection_flags_skipped_update() {
    let n: u64 = 48791820;
    assert_eq!(find_gap(&vec![n, n + 1, n + 3]), Some(2));
    assert_eq!(find_gap(&vec![n, n + 1, n + 2]), None);
    assert_eq!(find_gap(&vec![]), None);
    assert_eq!(find_gap(&vec![n]), None);
    assert_eq!(find_gap(&vec![n, n]), Some(1));
}

#[test]
fn next_update_at_the_largest_id() {
    assert!(is_next_update(4, 5));
    assert!(!is_next_update(5, 4));
    assert!(!is_next_update(u64::MAX, 0));
}

#[test]
fn outcome_converts_to_result() {
    let ok: Result<Dec, WsErr> = Result::from(WsResult::Success(Dec::new(1, 0)));
    assert_eq!(ok, Ok(Dec::new(1, 0)));
    let err = WsErr { code: WsErrCode::ServerError, message: "down".to_string() };
    let failed: Result<Dec, WsErr> = Result::from(WsResult::Error(err.clone()));
    assert_eq!(failed, Err(err));
}
