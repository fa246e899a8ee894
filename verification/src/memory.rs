//! In-memory providers: one small implementation of each collaborator
//! capability, backed by plain data handed in at construction.  They serve
//! wherever the real backing services are not wired in — fixtures in tests,
//! or a self-contained demo deployment.

use vstd::prelude::*;
use vstd::string::StringExecFns;

use crate::model::{
    Account, Activity, ExchangeRate, Holding, PerformanceMetrics, Quote, QuoteSummary,
    SimplePerformanceMetrics,
};
use crate::providers::{
    AccountServiceTrait, ActivityServiceTrait, FxServiceTrait, HoldingsServiceTrait,
    MarketDataServiceTrait, PerformanceServiceTrait, SettingsServiceTrait,
};
use crate::time::Date;

verus! {

/// Settings store holding an optional base currency.
pub struct InMemorySettingsService {
    pub base_currency: Option<String>,
}

impl SettingsServiceTrait for InMemorySettingsService {
    fn get_base_currency(&self) -> Result<Option<String>, String> {
        match &self.base_currency {
            Option::Some(c) => Result::Ok(Option::Some(c.clone())),
            Option::None => Result::Ok(Option::None),
        }
    }
}

/// Account list held in memory.
pub struct InMemoryAccountService {
    pub accounts: Vec<Account>,
}

impl AccountServiceTrait for InMemoryAccountService {
    fn get_all_accounts(&self) -> Result<Vec<Account>, String> {
        Result::Ok(self.accounts.clone())
    }
}

/// Holdings held in memory, keyed by account id.  Asking for an account
/// with no entry fails, as a backing engine would for an unknown account.
pub struct InMemoryHoldingsService {
    pub holdings_by_account: Vec<(String, Vec<Holding>)>,
}

impl HoldingsServiceTrait for InMemoryHoldingsService {
    fn get_holdings(&self, account_id: &str, _base_currency: &str) -> Result<Vec<Holding>, String> {
        let wanted = account_id.to_owned();
        let mut i: usize = 0;
        while i < self.holdings_by_account.len()
            invariant
                i <= self.holdings_by_account@.len(),
            decreases self.holdings_by_account@.len() - i,
        {
            if self.holdings_by_account[i].0 == wanted {
                return Result::Ok(self.holdings_by_account[i].1.clone());
            }
            i = i + 1;
        }
        let mut msg = "No holdings for account ".to_owned();
        msg.append(account_id);
        Result::Err(msg)
    }
}

/// Exchange rates held in memory.
pub struct InMemoryFxService {
    pub rates: Vec<ExchangeRate>,
}

impl FxServiceTrait for InMemoryFxService {
    fn get_latest_exchange_rates(&self) -> Result<Vec<ExchangeRate>, String> {
        Result::Ok(self.rates.clone())
    }
}

/// Market data held in memory: search results and quotes.  A quote lookup
/// fails for a symbol with no quote on record.
pub struct InMemoryMarketDataService {
    pub summaries: Vec<QuoteSummary>,
    pub quotes: Vec<Quote>,
}

impl MarketDataServiceTrait for InMemoryMarketDataService {
    fn search_symbol(&self, _query: &str) -> Result<Vec<QuoteSummary>, String> {
        Result::Ok(self.summaries.clone())
    }

    fn get_latest_quote_for_symbol(&self, symbol: &str) -> Result<Quote, String> {
        let wanted = symbol.to_owned();
        let mut i: usize = 0;
        while i < self.quotes.len()
            invariant
                i <= self.quotes@.len(),
            decreases self.quotes@.len() - i,
        {
            if self.quotes[i].symbol == wanted {
                return Result::Ok(self.quotes[i].clone());
            }
            i = i + 1;
        }
        let mut msg = "No quote for symbol ".to_owned();
        msg.append(symbol);
        Result::Err(msg)
    }

    fn get_historical_quotes_for_symbol(&self, symbol: &str) -> Result<Vec<Quote>, String> {
        let wanted = symbol.to_owned();
        let mut found: Vec<Quote> = Vec::new();
        let mut i: usize = 0;
        while i < self.quotes.len()
            invariant
                i <= self.quotes@.len(),
            decreases self.quotes@.len() - i,
        {
            if self.quotes[i].symbol == wanted {
                found.push(self.quotes[i].clone());
            }
            i = i + 1;
        }
        Result::Ok(found)
    }
}

/// Performance results held in memory: metrics keyed by subject id, and
/// simple per-account summaries keyed by account id.  A batched
/// computation returns, for each requested id in request order, the
/// summaries on record for that account.  When a failure message is set,
/// every calculation fails with it, standing in for a broken engine.
pub struct InMemoryPerformanceService {
    pub metrics: Vec<PerformanceMetrics>,
    pub simple: Vec<SimplePerformanceMetrics>,
    pub failure: Option<String>,
}

impl PerformanceServiceTrait for InMemoryPerformanceService {
    fn calculate_performance_summary(
        &self,
        _item_type: &str,
        item_id: &str,
        _start_date: Option<Date>,
        _end_date: Option<Date>,
    ) -> Result<PerformanceMetrics, String> {
        if let Option::Some(f) = &self.failure {
            return Result::Err(f.clone());
        }
        let wanted = item_id.to_owned();
        let mut i: usize = 0;
        while i < self.metrics.len()
            invariant
                i <= self.metrics@.len(),
            decreases self.metrics@.len() - i,
        {
            if self.metrics[i].id == wanted {
                return Result::Ok(self.metrics[i].clone());
            }
            i = i + 1;
        }
        let mut msg = "No performance for ".to_owned();
        msg.append(item_id);
        Result::Err(msg)
    }

    fn calculate_accounts_simple_performance(&self, account_ids: &Vec<String>) -> Result<
        Vec<SimplePerformanceMetrics>,
        String,
    > {
        if let Option::Some(f) = &self.failure {
            return Result::Err(f.clone());
        }
        let mut found: Vec<SimplePerformanceMetrics> = Vec::new();
        let mut i: usize = 0;
        while i < account_ids.len()
            invariant
                i <= account_ids@.len(),
            decreases account_ids@.len() - i,
        {
            let mut j: usize = 0;
            while j < self.simple.len()
                invariant
                    i < account_ids@.len(),
                    j <= self.simple@.len(),
                decreases self.simple@.len() - j,
            {
                if self.simple[j].account_id == account_ids[i] {
                    found.push(self.simple[j].clone());
                }
                j = j + 1;
            }
            i = i + 1;
        }
        Result::Ok(found)
    }
}

/// Activity ledger held in memory.
pub struct InMemoryActivityService {
    pub activities: Vec<Activity>,
}

impl ActivityServiceTrait for InMemoryActivityService {
    fn get_activities(&self) -> Result<Vec<Activity>, String> {
        Result::Ok(self.activities.clone())
    }

    fn get_activities_by_account_id(&self, account_id: &str) -> Result<Vec<Activity>, String> {
        let wanted = account_id.to_owned();
        let mut found: Vec<Activity> = Vec::new();
        let mut i: usize = 0;
        while i < self.activities.len()
            invariant
                i <= self.activities@.len(),
            decreases self.activities@.len() - i,
        {
            if self.activities[i].account_id == wanted {
                found.push(self.activities[i].clone());
            }
            i = i + 1;
        }
        Result::Ok(found)
    }
}

} // verus!
