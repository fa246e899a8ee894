//! The collaborator capabilities this layer consumes, one trait per
//! backing service.  Implementations live outside the core (a database, a
//! market-data feed, a fixture); nothing is assumed of them beyond their
//! signatures: every call may fail, and the error is carried as a
//! human-readable message.

use vstd::prelude::*;

use crate::model::{
    Account, Activity, ExchangeRate, Holding, PerformanceMetrics, Quote, QuoteSummary,
    SimplePerformanceMetrics,
};
use crate::time::Date;

verus! {

/// Account lookup and metadata.
pub trait AccountServiceTrait {
    fn get_all_accounts(&self) -> Result<Vec<Account>, String>;
}

/// The holdings valuation engine: positions of one account, valued in the
/// given base currency.
pub trait HoldingsServiceTrait {
    fn get_holdings(&self, account_id: &str, base_currency: &str) -> Result<Vec<Holding>, String>;
}

/// The currency-conversion rate provider.
pub trait FxServiceTrait {
    fn get_latest_exchange_rates(&self) -> Result<Vec<ExchangeRate>, String>;
}

/// The settings store; the base currency may be unset.
pub trait SettingsServiceTrait {
    fn get_base_currency(&self) -> Result<Option<String>, String>;
}

/// Symbol search and quote lookup.
pub trait MarketDataServiceTrait {
    fn search_symbol(&self, query: &str) -> Result<Vec<QuoteSummary>, String>;

    fn get_latest_quote_for_symbol(&self, symbol: &str) -> Result<Quote, String>;

    fn get_historical_quotes_for_symbol(&self, symbol: &str) -> Result<Vec<Quote>, String>;
}

/// The performance/returns calculation engine.
pub trait PerformanceServiceTrait {
    fn calculate_performance_summary(
        &self,
        item_type: &str,
        item_id: &str,
        start_date: Option<Date>,
        end_date: Option<Date>,
    ) -> Result<PerformanceMetrics, String>;

    fn calculate_accounts_simple_performance(&self, account_ids: &Vec<String>) -> Result<
        Vec<SimplePerformanceMetrics>,
        String,
    >;
}

/// The read-only activity ledger.
pub trait ActivityServiceTrait {
    fn get_activities(&self) -> Result<Vec<Activity>, String>;

    fn get_activities_by_account_id(&self, account_id: &str) -> Result<Vec<Activity>, String>;
}

} // verus!
