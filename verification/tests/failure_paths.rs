//! Every provider-failure path: each route wraps the failure message in its
//! own `{"error": ...}` prefix, always with HTTP-level success semantics
//! (the error is a value in the body, never a transport failure).

use external_api::handlers::{
    account_performance_handler, activities_handler, base_currency_handler,
    exchange_rates_handler, historical_quotes_handler, market_data_search_handler,
    portfolio_accounts_handler, portfolio_holdings_handler,
    portfolio_performance_summary_handler, quote_handler, ActivitiesQuery, HoldingsQuery,
    MarketDataSearchQuery,
};
use external_api::json::to_json_text;
use external_api::model::{
    Account, Activity, ExchangeRate, Holding, PerformanceMetrics, Quote, QuoteSummary,
    SimplePerformanceMetrics,
};
use external_api::providers::{
    AccountServiceTrait, ActivityServiceTrait, FxServiceTrait, HoldingsServiceTrait,
    MarketDataServiceTrait, PerformanceServiceTrait, SettingsServiceTrait,
};
use external_api::service::ExternalApiService;
use external_api::time::Date;

/// A backing stack whose every capability fails with the same message.
struct BrokenProviders;

impl AccountServiceTrait for BrokenProviders {
    fn get_all_accounts(&self) -> Result<Vec<Account>, String> {
        Err("db down".to_string())
    }
}

impl HoldingsServiceTrait for BrokenProviders {
    fn get_holdings(&self, _account_id: &str, _base_currency: &str) -> Result<Vec<Holding>, String> {
        Err("db down".to_string())
    }
}

impl FxServiceTrait for BrokenProviders {
    fn get_latest_exchange_rates(&self) -> Result<Vec<ExchangeRate>, String> {
        Err("db down".to_string())
    }
}

impl SettingsServiceTrait for BrokenProviders {
    fn get_base_currency(&self) -> Result<Option<String>, String> {
        Err("db down".to_string())
    }
}

impl MarketDataServiceTrait for BrokenProviders {
    fn search_symbol(&self, _query: &str) -> Result<Vec<QuoteSummary>, String> {
        Err("db down".to_string())
    }

    fn get_latest_quote_for_symbol(&self, _symbol: &str) -> Result<Quote, String> {
        Err("db down".to_string())
    }

    fn get_historical_quotes_for_symbol(&self, _symbol: &str) -> Result<Vec<Quote>, String> {
        Err("db down".to_string())
    }
}

impl PerformanceServiceTrait for BrokenProviders {
    fn calculate_performance_summary(
        &self,
        _item_type: &str,
        _item_id: &str,
        _start_date: Option<Date>,
        _end_date: Option<Date>,
    ) -> Result<PerformanceMetrics, String> {
        Err("db down".to_string())
    }

    fn calculate_accounts_simple_performance(
        &self,
        _account_ids: &Vec<String>,
    ) -> Result<Vec<SimplePerformanceMetrics>, String> {
        Err("db down".to_string())
    }
}

impl ActivityServiceTrait for BrokenProviders {
    fn get_activities(&self) -> Result<Vec<Activity>, String> {
        Err("db down".to_string())
    }

    fn get_activities_by_account_id(&self, _account_id: &str) -> Result<Vec<Activity>, String> {
        Err("db down".to_string())
    }
}

type Broken = ExternalApiService<
    BrokenProviders,
    BrokenProviders,
    BrokenProviders,
    BrokenProviders,
    BrokenProviders,
    BrokenProviders,
    BrokenProviders,
>;

fn broken() -> Broken {
    ExternalApiService::new(
        BrokenProviders,
        BrokenProviders,
        BrokenProviders,
        BrokenProviders,
        BrokenProviders,
        BrokenProviders,
        BrokenProviders,
    )
}

#[test]
fn holdings_route_wraps_settings_failure_as_internal_error() {
    let svc = broken();
    assert_eq!(
        to_json_text(&portfolio_holdings_handler(&svc, HoldingsQuery { account_id: None })),
        "{\"error\":\"Internal server error: db down\"}"
    );
}

#[test]
fn accounts_route_wraps_failure() {
    assert_eq!(
        to_json_text(&portfolio_accounts_handler(&broken())),
        "{\"error\":\"Failed to get accounts: db down\"}"
    );
}

#[test]
fn exchange_rates_route_wraps_failure() {
    assert_eq!(
        to_json_text(&exchange_rates_handler(&broken())),
        "{\"error\":\"Failed to get exchange rates: db down\"}"
    );
}

#[test]
fn base_currency_route_wraps_failure() {
    assert_eq!(
        to_json_text(&base_currency_handler(&broken())),
        "{\"error\":\"Failed to get base currency: db down\"}"
    );
}

#[test]
fn search_route_wraps_failure() {
    assert_eq!(
        to_json_text(&market_data_search_handler(&broken(), MarketDataSearchQuery {
            q: "apple".to_string(),
        })),
        "{\"error\":\"Failed to search market data: db down\"}"
    );
}

#[test]
fn quote_route_wraps_failure_with_symbol() {
    assert_eq!(
        to_json_text(&quote_handler(&broken(), "AAPL")),
        "{\"error\":\"Failed to get quote for AAPL: db down\"}"
    );
}

#[test]
fn historical_route_wraps_failure_with_symbol() {
    assert_eq!(
        to_json_text(&historical_quotes_handler(&broken(), "AAPL")),
        "{\"error\":\"Failed to get historical quotes for AAPL: db down\"}"
    );
}

#[test]
fn performance_route_wraps_failure_with_account() {
    assert_eq!(
        to_json_text(&account_performance_handler(&broken(), "a1")),
        "{\"error\":\"Failed to get performance for account a1: db down\"}"
    );
}

#[test]
fn summary_route_wraps_accounts_failure() {
    assert_eq!(
        to_json_text(&portfolio_performance_summary_handler(&broken())),
        "{\"error\":\"Failed to get portfolio performance summary: db down\"}"
    );
}

#[test]
fn activities_route_wraps_failure() {
    let svc = broken();
    assert_eq!(
        to_json_text(&activities_handler(&svc, ActivitiesQuery { account_id: None })),
        "{\"error\":\"Failed to get activities: db down\"}"
    );
    assert_eq!(
        to_json_text(&activities_handler(&svc, ActivitiesQuery {
            account_id: Some("a1".to_string()),
        })),
        "{\"error\":\"Failed to get activities: db down\"}"
    );
}
