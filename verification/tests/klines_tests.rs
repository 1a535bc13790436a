use trendfollowing::common::{perpetual_symbols, Kline, Perpetual};
use trendfollowing::json::{JsonNumber, JsonValue};
use trendfollowing::klines::{
    klines_from_text, klines_to_insert, klines_url, opentimes_are_i64, parse_klines, KlineParseError,
};
use trendfollowing::json::read_json;
use trendfollowing::text::{i64_to_decimal, starts_with, str_equal};

fn s(text: &str) -> JsonValue {
    JsonValue::String(text.to_string())
}

fn candle(opentime: JsonNumber, open: &str) -> JsonValue {
    JsonValue::Array(vec![
        JsonValue::Number(opentime),
        s(open),
        s("2.5"),
        s("0.5"),
        s("1.5"),
        s("100"),
        JsonValue::Number(JsonNumber::PosInt(1700086399999)),
        s("150"),
    ])
}

fn kline(opentime: i64) -> Kline {
    Kline {
        opentime,
        open: format!("o{}", opentime),
        high: "h".to_string(),
        low: "l".to_string(),
        close: "c".to_string(),
        volume: "v".to_string(),
    }
}

#[test]
fn decimal_rendering_matches_format() {
    for n in [0i64, 7, 42, 1000, -7, -1000, 1700000000000, i64::MAX, i64::MIN] {
        assert_eq!(i64_to_decimal(n), format!("{}", n));
    }
}

#[test]
fn decimal_rendering_reads_back() {
    for n in [0i64, 9, 10, -10, 123456789, i64::MIN, i64::MAX] {
        assert_eq!(i64_to_decimal(n).parse::<i64>().unwrap(), n);
    }
}

#[test]
fn string_comparisons() {
    assert!(str_equal("--prod", "--prod"));
    assert!(!str_equal("--prod", "--pro"));
    assert!(!str_equal("abc", "abd"));
    assert!(starts_with("postgres://user@host/db", "postgres://"));
    assert!(!starts_with("postgresql://host", "postgres://"));
    assert!(!starts_with("post", "postgres://"));
    assert!(starts_with("anything", ""));
}

#[test]
fn url_for_symbol_and_start() {
    assert_eq!(
        klines_url("BTCUSDT", 1700000000000),
        "https://fapi.binance.com/fapi/v1/klines?symbol=BTCUSDT&interval=1d&startTime=1700000000000"
    );
    assert_eq!(
        klines_url("ETHUSDT", -5),
        "https://fapi.binance.com/fapi/v1/klines?symbol=ETHUSDT&interval=1d&startTime=-5"
    );
}

#[test]
fn parse_keeps_candles_in_order_and_skips_others() {
    let doc = JsonValue::Array(vec![
        candle(JsonNumber::PosInt(1700000000000), "1.0"),
        JsonValue::Null,
        JsonValue::Array(vec![JsonValue::Number(JsonNumber::PosInt(1)), s("1")]),
        JsonValue::Array(vec![s("1700000000000"), s("1"), s("2"), s("3"), s("4"), s("5")]),
        candle(JsonNumber::NegInt(-3), "2.0"),
        JsonValue::Object(vec![("0".to_string(), JsonValue::Bool(true))]),
    ]);
    let klines = parse_klines(&doc).unwrap();
    assert_eq!(klines.len(), 2);
    assert_eq!(klines[0].opentime, 1700000000000);
    assert_eq!(klines[0].open, "1.0");
    assert_eq!(klines[0].high, "2.5");
    assert_eq!(klines[0].low, "0.5");
    assert_eq!(klines[0].close, "1.5");
    assert_eq!(klines[0].volume, "100");
    assert_eq!(klines[1].opentime, -3);
    assert_eq!(klines[1].open, "2.0");
}

#[test]
fn parse_accepts_exactly_six_fields() {
    let doc = JsonValue::Array(vec![JsonValue::Array(vec![
        JsonValue::Number(JsonNumber::PosInt(5)),
        s("a"),
        s("b"),
        s("c"),
        s("d"),
        s("e"),
    ])]);
    let klines = parse_klines(&doc).unwrap();
    assert_eq!(klines.len(), 1);
    assert_eq!(klines[0].volume, "e");
}

#[test]
fn parse_of_empty_array_is_empty() {
    assert_eq!(parse_klines(&JsonValue::Array(vec![])).unwrap().len(), 0);
}

#[test]
fn parse_rejects_non_array() {
    assert_eq!(parse_klines(&JsonValue::Null).unwrap_err(), KlineParseError::NotAnArray);
    assert_eq!(parse_klines(&s("[]")).unwrap_err(), KlineParseError::NotAnArray);
    assert_eq!(
        parse_klines(&JsonValue::Object(vec![])).unwrap_err(),
        KlineParseError::NotAnArray
    );
}

#[test]
fn opentime_test_finds_out_of_range() {
    let doc = JsonValue::Array(vec![
        candle(JsonNumber::PosInt(1), "1"),
        candle(JsonNumber::Float, "1"),
    ]);
    assert!(!opentimes_are_i64(&doc));
    let doc = JsonValue::Array(vec![candle(JsonNumber::PosInt(u64::MAX), "1")]);
    assert!(!opentimes_are_i64(&doc));
    let doc = JsonValue::Array(vec![
        candle(JsonNumber::PosInt(i64::MAX as u64), "1"),
        JsonValue::Array(vec![JsonValue::Number(JsonNumber::Float)]),
    ]);
    assert!(opentimes_are_i64(&doc));
    assert_eq!(parse_klines(&doc).unwrap()[0].opentime, i64::MAX);
    assert!(opentimes_are_i64(&JsonValue::Null));
}

#[test]
fn candles_from_answer_text() {
    let text = r#"[[1700000000000,"1.0","2.5","0.5","1.5","100",1700086399999,"150",7,"1","2","0"],
                   [1700086400000,"1.5","3.0","1.0","2.0","200",1700172799999,"300",9,"1","2","0"],
                   "noise", [1, 2]]"#;
    let klines = klines_from_text(text).unwrap().unwrap();
    assert_eq!(klines.len(), 2);
    assert_eq!(klines[0].opentime, 1700000000000);
    assert_eq!(klines[0].open, "1.0");
    assert_eq!(klines[0].volume, "100");
    assert_eq!(klines[1].opentime, 1700086400000);
    assert_eq!(klines[1].close, "2.0");
}

#[test]
fn candles_from_bad_texts() {
    assert!(klines_from_text("").is_none());
    assert!(klines_from_text("<html>busy</html>").is_none());
    assert_eq!(klines_from_text(r#"{"code":-1121}"#).unwrap().unwrap_err(), KlineParseError::NotAnArray);
    assert_eq!(
        klines_from_text(r#"[[1.5,"1","2","3","4","5"]]"#).unwrap().unwrap_err(),
        KlineParseError::OpenTimeNotI64
    );
    assert_eq!(
        klines_from_text(r#"[[9223372036854775808,"1","2","3","4","5"]]"#).unwrap().unwrap_err(),
        KlineParseError::OpenTimeNotI64
    );
    assert_eq!(
        klines_from_text(r#"[[-5,"1","2","3","4","5"]]"#).unwrap().unwrap()[0].opentime,
        -5
    );
}

#[test]
fn reading_json_numbers_and_members() {
    match read_json(r#"[18446744073709551615, -3, 2.0, {"b": 1, "a": null}]"#) {
        Some(JsonValue::Array(items)) => {
            assert!(matches!(items[0], JsonValue::Number(JsonNumber::PosInt(u64::MAX))));
            assert!(matches!(items[1], JsonValue::Number(JsonNumber::NegInt(-3))));
            assert!(matches!(items[2], JsonValue::Number(JsonNumber::Float)));
            match &items[3] {
                JsonValue::Object(members) => {
                    assert_eq!(members.len(), 2);
                    assert_eq!(members[0].0, "a");
                    assert!(matches!(members[0].1, JsonValue::Null));
                }
                other => panic!("unexpected {:?}", other),
            }
        }
        other => panic!("unexpected {:?}", other),
    }
    assert!(read_json("[1,").is_none());
}

#[test]
fn non_candles_change_nothing() {
    let plain = JsonValue::Array(vec![
        candle(JsonNumber::PosInt(1), "a"),
        candle(JsonNumber::PosInt(2), "b"),
    ]);
    let noisy = JsonValue::Array(vec![
        JsonValue::Bool(true),
        candle(JsonNumber::PosInt(1), "a"),
        JsonValue::Array(vec![JsonValue::Number(JsonNumber::Float), s("x")]),
        candle(JsonNumber::PosInt(2), "b"),
        s("tail"),
    ]);
    let a = parse_klines(&plain).unwrap();
    let b = parse_klines(&noisy).unwrap();
    assert_eq!(a.len(), b.len());
    for (x, y) in a.iter().zip(b.iter()) {
        assert_eq!(x.opentime, y.opentime);
        assert_eq!(x.open, y.open);
    }
}

#[test]
fn number_as_i64() {
    assert_eq!(JsonNumber::PosInt(9).as_i64(), Some(9));
    assert_eq!(JsonNumber::PosInt(1 << 63).as_i64(), None);
    assert_eq!(JsonNumber::NegInt(i64::MIN).as_i64(), Some(i64::MIN));
    assert_eq!(JsonNumber::Float.as_i64(), None);
}

#[test]
fn json_get_reads_arrays_only() {
    let doc = JsonValue::Array(vec![s("x"), JsonValue::Bool(false)]);
    assert!(matches!(doc.get(1), Some(JsonValue::Bool(false))));
    assert!(doc.get(2).is_none());
    assert!(s("x").get(0).is_none());
}

#[test]
fn stored_candles_leave_out_first_and_last_two() {
    let fetched: Vec<Kline> = (0..6).map(kline).collect();
    let stored = klines_to_insert(fetched);
    let times: Vec<i64> = stored.iter().map(|k| k.opentime).collect();
    assert_eq!(times, vec![1, 2, 3]);
    assert_eq!(stored[0].open, "o1");
}

#[test]
fn stored_candles_of_short_answers() {
    assert_eq!(klines_to_insert(vec![kline(0), kline(1)]).len(), 0);
    assert_eq!(klines_to_insert(vec![kline(0), kline(1), kline(2)]).len(), 0);
    let stored = klines_to_insert(vec![kline(0), kline(1), kline(2), kline(3)]);
    assert_eq!(stored.len(), 1);
    assert_eq!(stored[0].opentime, 1);
}

#[test]
fn symbols_of_perpetuals() {
    let perps = vec![
        Perpetual { symbol: "BTCUSDT".to_string() },
        Perpetual { symbol: "ETHUSDT".to_string() },
    ];
    assert_eq!(perpetual_symbols(&perps), vec!["BTCUSDT".to_string(), "ETHUSDT".to_string()]);
    assert!(perpetual_symbols(&vec![]).is_empty());
}
