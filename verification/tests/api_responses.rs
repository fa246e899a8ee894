//! End-to-end behavior of the aggregation service and handlers, through the
//! in-memory providers: best-effort holdings aggregation, the base-currency
//! gate, and the exact response shape of every route.

use external_api::handlers::{
    account_performance_handler, activities_handler, base_currency_handler, create_root_response,
    exchange_rates_handler, health_handler, historical_quotes_handler, market_data_search_handler,
    portfolio_accounts_handler, portfolio_holdings_handler, portfolio_performance_summary_handler,
    quote_handler, ActivitiesQuery, HoldingsQuery, MarketDataSearchQuery,
};
use external_api::json::to_json_text;
use external_api::memory::{
    InMemoryAccountService, InMemoryActivityService, InMemoryFxService, InMemoryHoldingsService,
    InMemoryMarketDataService, InMemoryPerformanceService, InMemorySettingsService,
};
use external_api::model::{
    Account, Activity, ExchangeRate, Holding, MoneyValue, PerformanceMetrics, Quote, QuoteSummary,
    SimplePerformanceMetrics,
};
use external_api::providers::HoldingsServiceTrait;
use external_api::service::ExternalApiService;
use external_api::time::{Date, DateTime};

fn account(id: &str, name: &str) -> Account {
    Account {
        id: id.to_string(),
        name: name.to_string(),
        account_type: "SECURITIES".to_string(),
        currency: "USD".to_string(),
        is_active: true,
    }
}

fn holding(id: &str, account_id: &str) -> Holding {
    Holding {
        id: id.to_string(),
        account_id: account_id.to_string(),
        holding_type: "SECURITY".to_string(),
        instrument: None,
        quantity: "10".to_string(),
        open_date: None,
        local_currency: "USD".to_string(),
        base_currency: "USD".to_string(),
        fx_rate: "1".to_string(),
        market_value: MoneyValue { local: "100".to_string(), base: "100".to_string() },
        cost_basis: None,
        price: "10".to_string(),
        unrealized_gain: None,
        unrealized_gain_pct: None,
        realized_gain: None,
        realized_gain_pct: None,
        total_gain: None,
        total_gain_pct: None,
        day_change: None,
        day_change_pct: None,
        weight: "1".to_string(),
        as_of_date: Date { year: 2024, month: 1, day: 15 },
    }
}

fn holding_text(id: &str, account_id: &str) -> String {
    format!(
        "{{\"id\":\"{}\",\"accountId\":\"{}\",\"holdingType\":\"SECURITY\",\
         \"instrument\":null,\"quantity\":\"10\",\"openDate\":null,\
         \"localCurrency\":\"USD\",\"baseCurrency\":\"USD\",\"fxRate\":\"1\",\
         \"marketValue\":{{\"local\":\"100\",\"base\":\"100\"}},\"costBasis\":null,\
         \"price\":\"10\",\"unrealizedGain\":null,\"unrealizedGainPct\":null,\
         \"realizedGain\":null,\"realizedGainPct\":null,\"totalGain\":null,\
         \"totalGainPct\":null,\"dayChange\":null,\"dayChangePct\":null,\
         \"weight\":\"1\",\"asOfDate\":\"2024-01-15\"}}",
        id, account_id
    )
}

fn settings(base: Option<&str>) -> InMemorySettingsService {
    InMemorySettingsService { base_currency: base.map(|c| c.to_string()) }
}

fn no_market_data() -> InMemoryMarketDataService {
    InMemoryMarketDataService { summaries: vec![], quotes: vec![] }
}

fn no_performance() -> InMemoryPerformanceService {
    InMemoryPerformanceService { metrics: vec![], simple: vec![], failure: None }
}

type Service = ExternalApiService<
    InMemoryAccountService,
    InMemoryHoldingsService,
    InMemoryFxService,
    InMemorySettingsService,
    InMemoryMarketDataService,
    InMemoryPerformanceService,
    InMemoryActivityService,
>;

fn service(
    accounts: Vec<Account>,
    holdings_by_account: Vec<(String, Vec<Holding>)>,
    base: Option<&str>,
) -> Service {
    ExternalApiService::new(
        InMemoryAccountService { accounts },
        InMemoryHoldingsService { holdings_by_account },
        InMemoryFxService { rates: vec![] },
        settings(base),
        no_market_data(),
        no_performance(),
        InMemoryActivityService { activities: vec![] },
    )
}

#[test]
fn all_accounts_holdings_concatenate_in_account_order() {
    let svc = service(
        vec![account("a1", "First"), account("a2", "Broken"), account("a3", "Third")],
        vec![
            ("a1".to_string(), vec![holding("h1", "a1")]),
            ("a3".to_string(), vec![holding("h3", "a3")]),
        ],
        Some("USD"),
    );
    let all = portfolio_holdings_handler(&svc, HoldingsQuery { account_id: None });
    let expected = format!(
        "{{\"holdings\":[{},{}],\"baseCurrency\":\"USD\"}}",
        holding_text("h1", "a1"),
        holding_text("h3", "a3")
    );
    assert_eq!(to_json_text(&all), expected);

    // The same aggregate, account by account: a1 and a3 answer alone, the
    // broken a2 contributes nothing.
    let one = portfolio_holdings_handler(
        &svc,
        HoldingsQuery { account_id: Some("a1".to_string()) },
    );
    assert_eq!(
        to_json_text(&one),
        format!("{{\"holdings\":[{}],\"baseCurrency\":\"USD\"}}", holding_text("h1", "a1"))
    );
    let three = portfolio_holdings_handler(
        &svc,
        HoldingsQuery { account_id: Some("a3".to_string()) },
    );
    assert_eq!(
        to_json_text(&three),
        format!("{{\"holdings\":[{}],\"baseCurrency\":\"USD\"}}", holding_text("h3", "a3"))
    );
}

#[test]
fn failing_account_is_omitted_without_error_key() {
    let svc = service(
        vec![account("a1", "Healthy"), account("a2", "Broken")],
        vec![("a1".to_string(), vec![holding("h1", "a1")])],
        Some("USD"),
    );
    let body = to_json_text(&portfolio_holdings_handler(&svc, HoldingsQuery {
        account_id: None,
    }));
    assert_eq!(
        body,
        format!("{{\"holdings\":[{}],\"baseCurrency\":\"USD\"}}", holding_text("h1", "a1"))
    );
    assert!(!body.contains("error"));
}

#[test]
fn single_account_failure_returns_error_payload() {
    let svc = service(vec![account("a1", "First")], vec![], Some("USD"));
    let body = to_json_text(&portfolio_holdings_handler(&svc, HoldingsQuery {
        account_id: Some("missing".to_string()),
    }));
    assert_eq!(body, "{\"error\":\"No holdings for account missing\"}");
}

struct UnreachableHoldings;

impl HoldingsServiceTrait for UnreachableHoldings {
    fn get_holdings(&self, _account_id: &str, _base_currency: &str) -> Result<Vec<Holding>, String> {
        panic!("holdings were fetched although the base currency is unset");
    }
}

#[test]
fn unset_base_currency_fetches_no_holdings() {
    let svc = ExternalApiService::new(
        InMemoryAccountService { accounts: vec![account("a1", "First")] },
        UnreachableHoldings,
        InMemoryFxService { rates: vec![] },
        settings(None),
        no_market_data(),
        no_performance(),
        InMemoryActivityService { activities: vec![] },
    );
    let without = portfolio_holdings_handler(&svc, HoldingsQuery { account_id: None });
    assert_eq!(to_json_text(&without), "{\"error\":\"Base currency not set\"}");
    let with = portfolio_holdings_handler(&svc, HoldingsQuery {
        account_id: Some("a1".to_string()),
    });
    assert_eq!(to_json_text(&with), "{\"error\":\"Base currency not set\"}");
}

#[test]
fn empty_collections_render_empty_arrays() {
    let svc = service(vec![], vec![], Some("USD"));
    assert_eq!(
        to_json_text(&portfolio_holdings_handler(&svc, HoldingsQuery { account_id: None })),
        "{\"holdings\":[],\"baseCurrency\":\"USD\"}"
    );
    assert_eq!(to_json_text(&portfolio_accounts_handler(&svc)), "{\"accounts\":[]}");
    assert_eq!(to_json_text(&exchange_rates_handler(&svc)), "{\"exchangeRates\":[]}");
    assert_eq!(
        to_json_text(&market_data_search_handler(&svc, MarketDataSearchQuery {
            q: "x".to_string(),
        })),
        "{\"results\":[]}"
    );
    assert_eq!(
        to_json_text(&activities_handler(&svc, ActivitiesQuery { account_id: None })),
        "{\"activities\":[]}"
    );
    assert_eq!(
        to_json_text(&portfolio_performance_summary_handler(&svc)),
        "{\"performances\":[]}"
    );
}

#[test]
fn base_currency_route_reports_unset_and_set() {
    let unset = service(vec![], vec![], None);
    assert_eq!(
        to_json_text(&base_currency_handler(&unset)),
        "{\"error\":\"Base currency not set\"}"
    );
    let set = service(vec![], vec![], Some("EUR"));
    assert_eq!(to_json_text(&base_currency_handler(&set)), "{\"baseCurrency\":\"EUR\"}");
}

#[test]
fn accounts_route_lists_accounts() {
    let svc = service(vec![account("a1", "Main")], vec![], Some("USD"));
    assert_eq!(
        to_json_text(&portfolio_accounts_handler(&svc)),
        "{\"accounts\":[{\"id\":\"a1\",\"name\":\"Main\",\
         \"accountType\":\"SECURITIES\",\"currency\":\"USD\",\"isActive\":true}]}"
    );
}

#[test]
fn exchange_rates_route_lists_latest_rates() {
    let svc = ExternalApiService::new(
        InMemoryAccountService { accounts: vec![] },
        InMemoryHoldingsService { holdings_by_account: vec![] },
        InMemoryFxService {
            rates: vec![ExchangeRate {
                from_currency: "USD".to_string(),
                to_currency: "EUR".to_string(),
                rate: "0.92".to_string(),
                timestamp: DateTime { year: 2024, month: 1, day: 15, hour: 12, minute: 0, second: 0 },
            }],
        },
        settings(Some("USD")),
        no_market_data(),
        no_performance(),
        InMemoryActivityService { activities: vec![] },
    );
    assert_eq!(
        to_json_text(&exchange_rates_handler(&svc)),
        "{\"exchangeRates\":[{\"from\":\"USD\",\"to\":\"EUR\",\"rate\":\"0.92\",\
         \"timestamp\":\"2024-01-15T12:00:00+00:00\"}]}"
    );
}

fn quote(id: &str, symbol: &str) -> Quote {
    Quote {
        id: id.to_string(),
        symbol: symbol.to_string(),
        timestamp: DateTime { year: 2024, month: 1, day: 15, hour: 16, minute: 0, second: 0 },
        open: "185.1".to_string(),
        high: "187.2".to_string(),
        low: "184.5".to_string(),
        close: "186.3".to_string(),
        volume: "1000000".to_string(),
        currency: "USD".to_string(),
        data_source: "YAHOO".to_string(),
    }
}

fn market_data_service(md: InMemoryMarketDataService) -> Service {
    ExternalApiService::new(
        InMemoryAccountService { accounts: vec![] },
        InMemoryHoldingsService { holdings_by_account: vec![] },
        InMemoryFxService { rates: vec![] },
        settings(Some("USD")),
        md,
        no_performance(),
        InMemoryActivityService { activities: vec![] },
    )
}

#[test]
fn quote_route_returns_quote_with_rfc3339_timestamp() {
    let svc = market_data_service(InMemoryMarketDataService {
        summaries: vec![],
        quotes: vec![quote("q1", "AAPL")],
    });
    assert_eq!(
        to_json_text(&quote_handler(&svc, "AAPL")),
        "{\"quote\":{\"id\":\"q1\",\"symbol\":\"AAPL\",\
         \"timestamp\":\"2024-01-15T16:00:00+00:00\",\"open\":\"185.1\",\
         \"high\":\"187.2\",\"low\":\"184.5\",\"close\":\"186.3\",\
         \"volume\":\"1000000\",\"currency\":\"USD\",\"dataSource\":\"YAHOO\"}}"
    );
}

#[test]
fn quote_route_wraps_unknown_symbol_failure() {
    let svc = market_data_service(no_market_data());
    assert_eq!(
        to_json_text(&quote_handler(&svc, "MSFT")),
        "{\"error\":\"Failed to get quote for MSFT: No quote for symbol MSFT\"}"
    );
}

#[test]
fn historical_route_keeps_provider_order() {
    let mut early = quote("q1", "AAPL");
    early.close = "180.0".to_string();
    let late = quote("q2", "AAPL");
    let svc = market_data_service(InMemoryMarketDataService {
        summaries: vec![],
        quotes: vec![early, late, quote("q3", "MSFT")],
    });
    let body = to_json_text(&historical_quotes_handler(&svc, "AAPL"));
    assert!(body.starts_with("{\"symbol\":\"AAPL\",\"quotes\":["));
    let q1 = body.find("\"id\":\"q1\"").unwrap();
    let q2 = body.find("\"id\":\"q2\"").unwrap();
    assert!(q1 < q2);
    assert!(!body.contains("\"id\":\"q3\""));
}

#[test]
fn search_route_lists_results() {
    let svc = market_data_service(InMemoryMarketDataService {
        summaries: vec![QuoteSummary {
            symbol: "AAPL".to_string(),
            exchange: "NASDAQ".to_string(),
            short_name: "Apple Inc.".to_string(),
            quote_type: "EQUITY".to_string(),
        }],
        quotes: vec![],
    });
    assert_eq!(
        to_json_text(&market_data_search_handler(&svc, MarketDataSearchQuery {
            q: "apple".to_string(),
        })),
        "{\"results\":[{\"symbol\":\"AAPL\",\"exchange\":\"NASDAQ\",\
         \"name\":\"Apple Inc.\",\"type\":\"EQUITY\"}]}"
    );
}

fn performance_service(perf: InMemoryPerformanceService) -> Service {
    ExternalApiService::new(
        InMemoryAccountService { accounts: vec![account("a1", "Main")] },
        InMemoryHoldingsService { holdings_by_account: vec![] },
        InMemoryFxService { rates: vec![] },
        settings(Some("USD")),
        no_market_data(),
        perf,
        InMemoryActivityService { activities: vec![] },
    )
}

#[test]
fn account_performance_route_returns_metrics() {
    let svc = performance_service(InMemoryPerformanceService {
        metrics: vec![PerformanceMetrics {
            id: "a1".to_string(),
            currency: "USD".to_string(),
            period_start_date: Some(Date { year: 2024, month: 1, day: 1 }),
            period_end_date: None,
            cumulative_twr: "0.12".to_string(),
            gain_loss_amount: "1200".to_string(),
            annualized_twr: "0.11".to_string(),
            simple_return: "0.1".to_string(),
            annualized_simple_return: "0.09".to_string(),
            volatility: "0.2".to_string(),
            max_drawdown: "0.05".to_string(),
        }],
        simple: vec![],
        failure: None,
    });
    assert_eq!(
        to_json_text(&account_performance_handler(&svc, "a1")),
        "{\"accountId\":\"a1\",\"performance\":{\"id\":\"a1\",\"currency\":\"USD\",\
         \"periodStartDate\":\"2024-01-01\",\"periodEndDate\":null,\
         \"cumulativeTWR\":\"0.12\",\"gainLossAmount\":\"1200\",\
         \"annualizedTWR\":\"0.11\",\"simpleReturn\":\"0.1\",\
         \"annualizedSimpleReturn\":\"0.09\",\"volatility\":\"0.2\",\
         \"maxDrawdown\":\"0.05\"}}"
    );
}

#[test]
fn account_performance_route_wraps_failure() {
    let svc = performance_service(no_performance());
    assert_eq!(
        to_json_text(&account_performance_handler(&svc, "a9")),
        "{\"error\":\"Failed to get performance for account a9: No performance for a9\"}"
    );
}

#[test]
fn summary_route_returns_batched_performances() {
    let svc = performance_service(InMemoryPerformanceService {
        metrics: vec![],
        simple: vec![SimplePerformanceMetrics {
            account_id: "a1".to_string(),
            total_value: "1000".to_string(),
            account_currency: "USD".to_string(),
            base_currency: "USD".to_string(),
            fx_rate_to_base: "1".to_string(),
            total_gain_loss_amount: "100".to_string(),
            cumulative_return_percent: "10".to_string(),
            day_gain_loss_amount: "5".to_string(),
            day_return_percent_mod_dietz: "0.5".to_string(),
            portfolio_weight: "1".to_string(),
        }],
        failure: None,
    });
    assert_eq!(
        to_json_text(&portfolio_performance_summary_handler(&svc)),
        "{\"performances\":[{\"accountId\":\"a1\",\"totalValue\":\"1000\",\
         \"accountCurrency\":\"USD\",\"baseCurrency\":\"USD\",\"fxRateToBase\":\"1\",\
         \"totalGainLossAmount\":\"100\",\"cumulativeReturnPercent\":\"10\",\
         \"dayGainLossAmount\":\"5\",\"dayReturnPercentModDietz\":\"0.5\",\
         \"portfolioWeight\":\"1\"}]}"
    );
}

fn simple_metrics(account_id: &str) -> SimplePerformanceMetrics {
    SimplePerformanceMetrics {
        account_id: account_id.to_string(),
        total_value: "1000".to_string(),
        account_currency: "USD".to_string(),
        base_currency: "USD".to_string(),
        fx_rate_to_base: "1".to_string(),
        total_gain_loss_amount: "100".to_string(),
        cumulative_return_percent: "10".to_string(),
        day_gain_loss_amount: "5".to_string(),
        day_return_percent_mod_dietz: "0.5".to_string(),
        portfolio_weight: "1".to_string(),
    }
}

#[test]
fn summary_batch_carries_account_ids_in_account_order() {
    // Account names differ from their ids, and one summary on record
    // belongs to no listed account: the batch must be keyed by the ids,
    // in account order.
    let svc = ExternalApiService::new(
        InMemoryAccountService {
            accounts: vec![account("a2", "Zeta"), account("a1", "Alpha")],
        },
        InMemoryHoldingsService { holdings_by_account: vec![] },
        InMemoryFxService { rates: vec![] },
        settings(Some("USD")),
        no_market_data(),
        InMemoryPerformanceService {
            metrics: vec![],
            simple: vec![simple_metrics("a1"), simple_metrics("zz"), simple_metrics("a2")],
            failure: None,
        },
        InMemoryActivityService { activities: vec![] },
    );
    let body = to_json_text(&portfolio_performance_summary_handler(&svc));
    let a2 = body.find("\"accountId\":\"a2\"").unwrap();
    let a1 = body.find("\"accountId\":\"a1\"").unwrap();
    assert!(a2 < a1);
    assert!(!body.contains("\"accountId\":\"zz\""));
}

#[test]
fn summary_route_fails_whole_when_batch_fails() {
    let svc = performance_service(InMemoryPerformanceService {
        metrics: vec![],
        simple: vec![],
        failure: Some("calculation engine offline".to_string()),
    });
    let body = to_json_text(&portfolio_performance_summary_handler(&svc));
    assert_eq!(
        body,
        "{\"error\":\"Failed to get portfolio performance summary: \
         calculation engine offline\"}"
    );
    assert!(!body.contains("performances"));
}

fn activity(id: &str, account_id: &str) -> Activity {
    Activity {
        id: id.to_string(),
        account_id: account_id.to_string(),
        activity_type: "BUY".to_string(),
        activity_date: DateTime { year: 2024, month: 2, day: 1, hour: 9, minute: 30, second: 0 },
        asset_id: "AAPL".to_string(),
        quantity: "5".to_string(),
        unit_price: "180".to_string(),
        currency: "USD".to_string(),
        fee: "1".to_string(),
        amount: "901".to_string(),
    }
}

#[test]
fn activities_route_lists_all_or_one_account() {
    let svc = ExternalApiService::new(
        InMemoryAccountService { accounts: vec![] },
        InMemoryHoldingsService { holdings_by_account: vec![] },
        InMemoryFxService { rates: vec![] },
        settings(Some("USD")),
        no_market_data(),
        no_performance(),
        InMemoryActivityService {
            activities: vec![activity("t1", "a1"), activity("t2", "a2")],
        },
    );
    let all = to_json_text(&activities_handler(&svc, ActivitiesQuery { account_id: None }));
    assert!(all.contains("\"id\":\"t1\""));
    assert!(all.contains("\"id\":\"t2\""));
    assert!(all.starts_with("{\"activities\":["));
    let one = to_json_text(&activities_handler(&svc, ActivitiesQuery {
        account_id: Some("a1".to_string()),
    }));
    assert_eq!(
        one,
        "{\"activities\":[{\"id\":\"t1\",\"accountId\":\"a1\",\
         \"activityType\":\"BUY\",\"date\":\"2024-02-01T09:30:00+00:00\",\
         \"assetId\":\"AAPL\",\"quantity\":\"5\",\"price\":\"180\",\
         \"currency\":\"USD\",\"fee\":\"1\",\"totalAmount\":\"901\"}]}"
    );
}

#[test]
fn health_and_root_responses() {
    let health = to_json_text(&health_handler(3333));
    let prefix = "{\"status\":\"ok\",\"timestamp\":\"";
    let suffix = "\",\"port\":3333}";
    assert!(health.starts_with(prefix));
    assert!(health.ends_with(suffix));
    // The timestamp is a second-precision RFC 3339 UTC instant.
    let ts = &health[prefix.len()..health.len() - suffix.len()];
    assert_eq!(ts.len(), 25);
    let b = ts.as_bytes();
    assert_eq!((b[4], b[7], b[10], b[13], b[16]), (b'-', b'-', b'T', b':', b':'));
    assert!(ts.ends_with("+00:00"));
    let root = "{\"message\":\"Wealthfolio External API\",\"status\":\"running\",\"port\":3333}";
    assert_eq!(to_json_text(&create_root_response(3333)), root);
    assert_eq!(to_json_text(&external_api::handlers::root_handler(3333)), root);
}
