//! Handler functions, one per route.  Each extracts plain parameters,
//! invokes the aggregation service, and wraps a service-level failure in
//! the route's `{"error": ...}` object; no domain decision is made here.
//! Every handler returns a whole JSON document, never a transport error.

use vstd::prelude::*;
use vstd::string::StringExecFns;

use chrono::{Datelike, Timelike};

use crate::json::{field_views_of, lemma_field_views_of_index, view_of, JsonValue, JsonView};
use crate::providers::{
    AccountServiceTrait, ActivityServiceTrait, FxServiceTrait, HoldingsServiceTrait,
    MarketDataServiceTrait, PerformanceServiceTrait, SettingsServiceTrait,
};
use crate::service::{
    account_performance_shape, accounts_shape, activities_shape, base_currency_shape, error_shape,
    error_response, error_view, exchange_rates_shape, historical_shape, holdings_success_shape,
    performances_shape, quote_shape, search_shape, ExternalApiService,
};
use crate::time::{rfc3339_text, DateTime};

verus! {

/// Where the external API listens.
pub struct ExternalApiConfig {
    pub port: u16,
    pub host: String,
}

/// Query string of the holdings route.
#[derive(Debug, Clone)]
pub struct HoldingsQuery {
    pub account_id: Option<String>,
}

/// Query string of the market-data search route.
#[derive(Debug, Clone)]
pub struct MarketDataSearchQuery {
    pub q: String,
}

/// Path parameter of the quote routes.
#[derive(Debug, Clone)]
pub struct QuoteSymbolParam {
    pub symbol: String,
}

/// Path parameter of the account-performance route.
#[derive(Debug, Clone)]
pub struct PerformanceAccountParam {
    pub account_id: String,
}

/// Query string of the activities route.
#[derive(Debug, Clone)]
pub struct ActivitiesQuery {
    pub account_id: Option<String>,
}

/// The health response `{"status":"ok", "timestamp":ts, "port":p}`.
pub open spec fn health_response_view(ts: Seq<char>, port: int) -> JsonView {
    JsonView::Obj(
        seq![
            ("status"@, JsonView::Str("ok"@)),
            ("timestamp"@, JsonView::Str(ts)),
            ("port"@, JsonView::Int(port)),
        ],
    )
}

/// The root response `{"message":..., "status":"running", "port":p}`.
pub open spec fn root_response_view(port: int) -> JsonView {
    JsonView::Obj(
        seq![
            ("message"@, JsonView::Str("Wealthfolio External API"@)),
            ("status"@, JsonView::Str("running"@)),
            ("port"@, JsonView::Int(port)),
        ],
    )
}

/// Relies on chrono's `Utc::now` for the current wall-clock instant, read
/// out component by component through `Datelike` and `Timelike`.  Nothing
/// is assumed of which instant comes back, only the ranges chrono
/// documents for the components: month 1 to 12, day 1 to 31, hour below
/// 24, minute and second below 60.
#[verifier::external_body]
fn now_utc() -> (t: DateTime)
    ensures
        1 <= t.month <= 12,
        1 <= t.day <= 31,
        t.hour < 24,
        t.minute < 60,
        t.second < 60,
{
    let now = chrono::Utc::now();
    DateTime {
        year: now.year() as u16,
        month: now.month() as u8,
        day: now.day() as u8,
        hour: now.hour() as u8,
        minute: now.minute() as u8,
        second: now.second() as u8,
    }
}

fn message_with(prefix: &str, detail: &str) -> (r: String)
    ensures
        r@ == prefix@ + detail@,
{
    let mut s = prefix.to_owned();
    s.append(detail);
    s
}

fn message_about(prefix: &str, subject: &str, mid: &str, detail: &str) -> (r: String)
    ensures
        r@ == prefix@ + subject@ + mid@ + detail@,
{
    let mut s = prefix.to_owned();
    s.append(subject);
    s.append(mid);
    s.append(detail);
    proof {
        assert(((prefix@ + subject@) + mid@) + detail@ =~= prefix@ + subject@ + mid@ + detail@);
    }
    s
}

/// Builds the health response around the current wall-clock instant,
/// rendered RFC 3339.  Only which instant it is stays open: the timestamp
/// in the response is the exact `rfc3339_text` of some plausible calendar
/// instant.
pub fn create_health_response(port: u16) -> (r: JsonValue)
    ensures
        exists|t: DateTime|
            (1 <= t.month <= 12 && 1 <= t.day <= 31 && t.hour < 24 && t.minute < 60 && t.second
                < 60) && view_of(r) == health_response_view(rfc3339_text(t), port as int),
{
    let now = now_utc();
    let timestamp = now.to_rfc3339();
    let ghost ts = timestamp@;
    let fields: Vec<(String, JsonValue)> = vec![
        ("status".to_owned(), JsonValue::Str("ok".to_owned())),
        ("timestamp".to_owned(), JsonValue::Str(timestamp)),
        ("port".to_owned(), JsonValue::Int(port as i64)),
    ];
    let r = JsonValue::Obj(fields);
    proof {
        lemma_field_views_of_index(r->Obj_0@);
        assert(field_views_of(r->Obj_0@) =~= health_response_view(ts, port as int)->Obj_0);
        assert(view_of(r) == health_response_view(rfc3339_text(now), port as int));
    }
    r
}

/// Builds the root response.
pub fn create_root_response(port: u16) -> (r: JsonValue)
    ensures
        view_of(r) == root_response_view(port as int),
{
    let fields: Vec<(String, JsonValue)> = vec![
        ("message".to_owned(), JsonValue::Str("Wealthfolio External API".to_owned())),
        ("status".to_owned(), JsonValue::Str("running".to_owned())),
        ("port".to_owned(), JsonValue::Int(port as i64)),
    ];
    let r = JsonValue::Obj(fields);
    proof {
        lemma_field_views_of_index(r->Obj_0@);
        assert(field_views_of(r->Obj_0@) =~= root_response_view(port as int)->Obj_0);
    }
    r
}

/// Health check handler.
pub fn health_handler(port: u16) -> (r: JsonValue)
    ensures
        exists|t: DateTime|
            (1 <= t.month <= 12 && 1 <= t.day <= 31 && t.hour < 24 && t.minute < 60 && t.second
                < 60) && view_of(r) == health_response_view(rfc3339_text(t), port as int),
{
    create_health_response(port)
}

/// Root handler.
pub fn root_handler(port: u16) -> (r: JsonValue)
    ensures
        view_of(r) == root_response_view(port as int),
{
    create_root_response(port)
}

/// Portfolio holdings handler.
pub fn portfolio_holdings_handler<
    A: AccountServiceTrait,
    H: HoldingsServiceTrait,
    F: FxServiceTrait,
    S: SettingsServiceTrait,
    M: MarketDataServiceTrait,
    P: PerformanceServiceTrait,
    V: ActivityServiceTrait,
>(service: &ExternalApiService<A, H, F, S, M, P, V>, query: HoldingsQuery) -> (r: JsonValue)
    ensures
        error_shape(view_of(r)) || holdings_success_shape(view_of(r)),
{
    match service.get_holdings(query.account_id) {
        Result::Ok(v) => v,
        Result::Err(e) => {
            let msg = message_with("Internal server error: ", e.as_str());
            let ghost m = msg@;
            let v = error_response(msg);
            proof {
                assert(view_of(v) == error_view(m));
            }
            v
        },
    }
}

/// Portfolio accounts handler.
pub fn portfolio_accounts_handler<
    A: AccountServiceTrait,
    H: HoldingsServiceTrait,
    F: FxServiceTrait,
    S: SettingsServiceTrait,
    M: MarketDataServiceTrait,
    P: PerformanceServiceTrait,
    V: ActivityServiceTrait,
>(service: &ExternalApiService<A, H, F, S, M, P, V>) -> (r: JsonValue)
    ensures
        accounts_shape(view_of(r)) || (exists|m: Seq<char>|
            view_of(r) == error_view("Failed to get accounts: "@ + m)),
{
    match service.get_accounts() {
        Result::Ok(v) => v,
        Result::Err(e) => {
            let ghost m = e@;
            let v = error_response(message_with("Failed to get accounts: ", e.as_str()));
            proof {
                assert(view_of(v) == error_view("Failed to get accounts: "@ + m));
            }
            v
        },
    }
}

/// Exchange rates handler.
pub fn exchange_rates_handler<
    A: AccountServiceTrait,
    H: HoldingsServiceTrait,
    F: FxServiceTrait,
    S: SettingsServiceTrait,
    M: MarketDataServiceTrait,
    P: PerformanceServiceTrait,
    V: ActivityServiceTrait,
>(service: &ExternalApiService<A, H, F, S, M, P, V>) -> (r: JsonValue)
    ensures
        exchange_rates_shape(view_of(r)) || (exists|m: Seq<char>|
            view_of(r) == error_view("Failed to get exchange rates: "@ + m)),
{
    match service.get_exchange_rates() {
        Result::Ok(v) => v,
        Result::Err(e) => {
            let ghost m = e@;
            let v = error_response(message_with("Failed to get exchange rates: ", e.as_str()));
            proof {
                assert(view_of(v) == error_view("Failed to get exchange rates: "@ + m));
            }
            v
        },
    }
}

/// Base currency handler.
pub fn base_currency_handler<
    A: AccountServiceTrait,
    H: HoldingsServiceTrait,
    F: FxServiceTrait,
    S: SettingsServiceTrait,
    M: MarketDataServiceTrait,
    P: PerformanceServiceTrait,
    V: ActivityServiceTrait,
>(service: &ExternalApiService<A, H, F, S, M, P, V>) -> (r: JsonValue)
    ensures
        base_currency_shape(view_of(r)) || (exists|m: Seq<char>|
            view_of(r) == error_view("Failed to get base currency: "@ + m)),
{
    match service.get_base_currency() {
        Result::Ok(v) => v,
        Result::Err(e) => {
            let ghost m = e@;
            let v = error_response(message_with("Failed to get base currency: ", e.as_str()));
            proof {
                assert(view_of(v) == error_view("Failed to get base currency: "@ + m));
            }
            v
        },
    }
}

/// Market data search handler.
pub fn market_data_search_handler<
    A: AccountServiceTrait,
    H: HoldingsServiceTrait,
    F: FxServiceTrait,
    S: SettingsServiceTrait,
    M: MarketDataServiceTrait,
    P: PerformanceServiceTrait,
    V: ActivityServiceTrait,
>(service: &ExternalApiService<A, H, F, S, M, P, V>, query: MarketDataSearchQuery) -> (r:
    JsonValue)
    ensures
        search_shape(view_of(r)) || (exists|m: Seq<char>|
            view_of(r) == error_view("Failed to search market data: "@ + m)),
{
    match service.search_market_data(query.q.as_str()) {
        Result::Ok(v) => v,
        Result::Err(e) => {
            let ghost m = e@;
            let v = error_response(message_with("Failed to search market data: ", e.as_str()));
            proof {
                assert(view_of(v) == error_view("Failed to search market data: "@ + m));
            }
            v
        },
    }
}

/// Quote handler.
pub fn quote_handler<
    A: AccountServiceTrait,
    H: HoldingsServiceTrait,
    F: FxServiceTrait,
    S: SettingsServiceTrait,
    M: MarketDataServiceTrait,
    P: PerformanceServiceTrait,
    V: ActivityServiceTrait,
>(service: &ExternalApiService<A, H, F, S, M, P, V>, symbol: &str) -> (r: JsonValue)
    ensures
        quote_shape(view_of(r)) || (exists|m: Seq<char>|
            view_of(r) == error_view("Failed to get quote for "@ + symbol@ + ": "@ + m)),
{
    match service.get_quote(symbol) {
        Result::Ok(v) => v,
        Result::Err(e) => {
            let ghost m = e@;
            let v = error_response(
                message_about("Failed to get quote for ", symbol, ": ", e.as_str()),
            );
            proof {
                assert(view_of(v) == error_view("Failed to get quote for "@ + symbol@ + ": "@ + m));
            }
            v
        },
    }
}

/// Historical quotes handler.
pub fn historical_quotes_handler<
    A: AccountServiceTrait,
    H: HoldingsServiceTrait,
    F: FxServiceTrait,
    S: SettingsServiceTrait,
    M: MarketDataServiceTrait,
    P: PerformanceServiceTrait,
    V: ActivityServiceTrait,
>(service: &ExternalApiService<A, H, F, S, M, P, V>, symbol: &str) -> (r: JsonValue)
    ensures
        historical_shape(symbol@, view_of(r)) || (exists|m: Seq<char>|
            view_of(r) == error_view(
                "Failed to get historical quotes for "@ + symbol@ + ": "@ + m,
            )),
{
    match service.get_historical_quotes(symbol) {
        Result::Ok(v) => v,
        Result::Err(e) => {
            let ghost m = e@;
            let v = error_response(
                message_about("Failed to get historical quotes for ", symbol, ": ", e.as_str()),
            );
            proof {
                assert(view_of(v) == error_view(
                    "Failed to get historical quotes for "@ + symbol@ + ": "@ + m,
                ));
            }
            v
        },
    }
}

/// Account performance handler.
pub fn account_performance_handler<
    A: AccountServiceTrait,
    H: HoldingsServiceTrait,
    F: FxServiceTrait,
    S: SettingsServiceTrait,
    M: MarketDataServiceTrait,
    P: PerformanceServiceTrait,
    V: ActivityServiceTrait,
>(service: &ExternalApiService<A, H, F, S, M, P, V>, account_id: &str) -> (r: JsonValue)
    ensures
        account_performance_shape(account_id@, view_of(r)) || (exists|m: Seq<char>|
            view_of(r) == error_view(
                "Failed to get performance for account "@ + account_id@ + ": "@ + m,
            )),
{
    match service.get_account_performance(account_id) {
        Result::Ok(v) => v,
        Result::Err(e) => {
            let ghost m = e@;
            let v = error_response(
                message_about(
                    "Failed to get performance for account ",
                    account_id,
                    ": ",
                    e.as_str(),
                ),
            );
            proof {
                assert(view_of(v) == error_view(
                    "Failed to get performance for account "@ + account_id@ + ": "@ + m,
                ));
            }
            v
        },
    }
}

/// Portfolio performance summary handler.
pub fn portfolio_performance_summary_handler<
    A: AccountServiceTrait,
    H: HoldingsServiceTrait,
    F: FxServiceTrait,
    S: SettingsServiceTrait,
    M: MarketDataServiceTrait,
    P: PerformanceServiceTrait,
    V: ActivityServiceTrait,
>(service: &ExternalApiService<A, H, F, S, M, P, V>) -> (r: JsonValue)
    ensures
        performances_shape(view_of(r)) || (exists|m: Seq<char>|
            view_of(r) == error_view("Failed to get portfolio performance summary: "@ + m)),
{
    match service.get_portfolio_performance_summary() {
        Result::Ok(v) => v,
        Result::Err(e) => {
            let ghost m = e@;
            let v = error_response(
                message_with("Failed to get portfolio performance summary: ", e.as_str()),
            );
            proof {
                assert(view_of(v) == error_view(
                    "Failed to get portfolio performance summary: "@ + m,
                ));
            }
            v
        },
    }
}

/// Activities handler.
pub fn activities_handler<
    A: AccountServiceTrait,
    H: HoldingsServiceTrait,
    F: FxServiceTrait,
    S: SettingsServiceTrait,
    M: MarketDataServiceTrait,
    P: PerformanceServiceTrait,
    V: ActivityServiceTrait,
>(service: &ExternalApiService<A, H, F, S, M, P, V>, query: ActivitiesQuery) -> (r: JsonValue)
    ensures
        activities_shape(view_of(r)) || (exists|m: Seq<char>|
            view_of(r) == error_view("Failed to get activities: "@ + m)),
{
    match service.get_activities(query.account_id) {
        Result::Ok(v) => v,
        Result::Err(e) => {
            let ghost m = e@;
            let v = error_response(message_with("Failed to get activities: ", e.as_str()));
            proof {
                assert(view_of(v) == error_view("Failed to get activities: "@ + m));
            }
            v
        },
    }
}

} // verus!
