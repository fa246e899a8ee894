//! Rendering tests: the encoder's exact output, escaping, determinism, and
//! the all-or-nothing rendering of optional monetary pairs.

use external_api::json::JsonValue;
use external_api::json::to_json_text;
use external_api::model::{Holding, Instrument, MoneyValue};
use external_api::project::holdings_to_json;
use external_api::time::{Date, DateTime};

fn sample_holding() -> Holding {
    Holding {
        id: "h1".to_string(),
        account_id: "a1".to_string(),
        holding_type: "SECURITY".to_string(),
        instrument: None,
        quantity: "10".to_string(),
        open_date: None,
        local_currency: "USD".to_string(),
        base_currency: "USD".to_string(),
        fx_rate: "1".to_string(),
        market_value: MoneyValue { local: "100".to_string(), base: "100".to_string() },
        cost_basis: None,
        price: "10".to_string(),
        unrealized_gain: None,
        unrealized_gain_pct: None,
        realized_gain: None,
        realized_gain_pct: None,
        total_gain: None,
        total_gain_pct: None,
        day_change: None,
        day_change_pct: None,
        weight: "1".to_string(),
        as_of_date: Date { year: 2024, month: 1, day: 15 },
    }
}

#[test]
fn renders_scalars() {
    assert_eq!(to_json_text(&JsonValue::Null), "null");
    assert_eq!(to_json_text(&JsonValue::Bool(true)), "true");
    assert_eq!(to_json_text(&JsonValue::Bool(false)), "false");
    assert_eq!(to_json_text(&JsonValue::Int(0)), "0");
    assert_eq!(to_json_text(&JsonValue::Int(3333)), "3333");
    assert_eq!(to_json_text(&JsonValue::Int(-7)), "-7");
    assert_eq!(
        to_json_text(&JsonValue::Int(i64::MIN)),
        "-9223372036854775808"
    );
    assert_eq!(to_json_text(&JsonValue::Int(i64::MAX)), "9223372036854775807");
    assert_eq!(to_json_text(&JsonValue::Str("plain".to_string())), "\"plain\"");
}

#[test]
fn escapes_strings() {
    assert_eq!(
        to_json_text(&JsonValue::Str("a\"b\\c".to_string())),
        "\"a\\\"b\\\\c\""
    );
    assert_eq!(
        to_json_text(&JsonValue::Str("line\nbreak\ttab\rcr".to_string())),
        "\"line\\nbreak\\ttab\\rcr\""
    );
    assert_eq!(
        to_json_text(&JsonValue::Str("\u{8}\u{c}".to_string())),
        "\"\\b\\f\""
    );
    assert_eq!(
        to_json_text(&JsonValue::Str("\u{1}\u{1f}".to_string())),
        "\"\\u0001\\u001f\""
    );
    assert_eq!(
        to_json_text(&JsonValue::Str("caf\u{e9} \u{20ac}".to_string())),
        "\"caf\u{e9} \u{20ac}\""
    );
}

#[test]
fn renders_arrays_and_objects() {
    assert_eq!(to_json_text(&JsonValue::Arr(vec![])), "[]");
    assert_eq!(
        to_json_text(&JsonValue::Arr(vec![
            JsonValue::Int(1),
            JsonValue::Int(2),
            JsonValue::Int(3),
        ])),
        "[1,2,3]"
    );
    assert_eq!(to_json_text(&JsonValue::Obj(vec![])), "{}");
    let v = JsonValue::Obj(vec![
        ("a".to_string(), JsonValue::Int(1)),
        (
            "b".to_string(),
            JsonValue::Arr(vec![JsonValue::Bool(true), JsonValue::Null]),
        ),
    ]);
    assert_eq!(to_json_text(&v), "{\"a\":1,\"b\":[true,null]}");
}

#[test]
fn object_key_order_is_insertion_order() {
    let v = JsonValue::Obj(vec![
        ("zebra".to_string(), JsonValue::Int(1)),
        ("alpha".to_string(), JsonValue::Int(2)),
    ]);
    assert_eq!(to_json_text(&v), "{\"zebra\":1,\"alpha\":2}");
}

#[test]
fn projection_is_deterministic() {
    let first = holdings_to_json(vec![sample_holding()]);
    let second = holdings_to_json(vec![sample_holding()]);
    let a = to_json_text(&JsonValue::Arr(first));
    let b = to_json_text(&JsonValue::Arr(second));
    assert_eq!(a, b);
    let again = to_json_text(&JsonValue::Arr(holdings_to_json(vec![sample_holding()])));
    assert_eq!(a, again);
}

#[test]
fn absent_monetary_pair_renders_null() {
    let rendered = to_json_text(&JsonValue::Arr(holdings_to_json(vec![sample_holding()])));
    assert_eq!(
        rendered,
        "[{\"id\":\"h1\",\"accountId\":\"a1\",\"holdingType\":\"SECURITY\",\
         \"instrument\":null,\"quantity\":\"10\",\"openDate\":null,\
         \"localCurrency\":\"USD\",\"baseCurrency\":\"USD\",\"fxRate\":\"1\",\
         \"marketValue\":{\"local\":\"100\",\"base\":\"100\"},\"costBasis\":null,\
         \"price\":\"10\",\"unrealizedGain\":null,\"unrealizedGainPct\":null,\
         \"realizedGain\":null,\"realizedGainPct\":null,\"totalGain\":null,\
         \"totalGainPct\":null,\"dayChange\":null,\"dayChangePct\":null,\
         \"weight\":\"1\",\"asOfDate\":\"2024-01-15\"}]"
    );
}

#[test]
fn present_monetary_pair_renders_both_keys() {
    let mut h = sample_holding();
    h.cost_basis = Some(MoneyValue { local: "90".to_string(), base: "95".to_string() });
    h.unrealized_gain = Some(MoneyValue { local: "10".to_string(), base: "5".to_string() });
    h.unrealized_gain_pct = Some("11.1".to_string());
    let rendered = to_json_text(&JsonValue::Arr(holdings_to_json(vec![h])));
    assert!(rendered.contains("\"costBasis\":{\"local\":\"90\",\"base\":\"95\"}"));
    assert!(rendered.contains("\"unrealizedGain\":{\"local\":\"10\",\"base\":\"5\"}"));
    assert!(rendered.contains("\"unrealizedGainPct\":\"11.1\""));
    assert!(!rendered.contains("\"costBasis\":null"));
}

#[test]
fn instrument_renders_whole_object() {
    let mut h = sample_holding();
    h.instrument = Some(Instrument {
        id: "i1".to_string(),
        symbol: "AAPL".to_string(),
        name: "Apple Inc.".to_string(),
        currency: "USD".to_string(),
        asset_class: "EQUITY".to_string(),
        asset_subclass: "STOCK".to_string(),
        countries: vec!["US".to_string()],
        sectors: vec!["Technology".to_string(), "Consumer".to_string()],
    });
    let rendered = to_json_text(&JsonValue::Arr(holdings_to_json(vec![h])));
    assert!(rendered.contains(
        "\"instrument\":{\"id\":\"i1\",\"symbol\":\"AAPL\",\"name\":\"Apple Inc.\",\
         \"currency\":\"USD\",\"assetClass\":\"EQUITY\",\"assetSubclass\":\"STOCK\",\
         \"countries\":[\"US\"],\"sectors\":[\"Technology\",\"Consumer\"]}"
    ));
}

#[test]
fn dates_render_iso_and_rfc3339() {
    let d = Date { year: 987, month: 3, day: 7 };
    assert_eq!(d.to_iso8601(), "0987-03-07");
    let t = DateTime { year: 2024, month: 12, day: 31, hour: 23, minute: 5, second: 9 };
    assert_eq!(t.to_rfc3339(), "2024-12-31T23:05:09+00:00");
    let mut h = sample_holding();
    h.open_date = Some(t);
    let rendered = to_json_text(&JsonValue::Arr(holdings_to_json(vec![h])));
    assert!(rendered.contains("\"openDate\":\"2024-12-31T23:05:09+00:00\""));
}
