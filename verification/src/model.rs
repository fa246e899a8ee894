//! The domain entities this API re-projects.  They are produced and owned by
//! the backing providers; this layer only reads them.
//!
//! Monetary amounts, rates and percentages are carried as decimal text,
//! exactly as the providers render them, and are embedded in JSON as
//! strings.  A [`MoneyValue`] is always fully populated: optional monetary
//! pairs appear as `Option<MoneyValue>`, so a pair is either wholly present
//! or wholly absent, never partial.

use vstd::prelude::*;

use crate::time::{Date, DateTime};

verus! {

/// An account as the accounts provider reports it.
#[derive(Debug, Clone, PartialEq)]
pub struct Account {
    pub id: String,
    pub name: String,
    pub account_type: String,
    pub currency: String,
    pub is_active: bool,
}

/// A monetary value in the holding's own currency and in the base currency.
#[derive(Debug, Clone, PartialEq)]
pub struct MoneyValue {
    pub local: String,
    pub base: String,
}

/// The instrument a holding is invested in, when one is resolved.
#[derive(Debug, Clone, PartialEq)]
pub struct Instrument {
    pub id: String,
    pub symbol: String,
    pub name: String,
    pub currency: String,
    pub asset_class: String,
    pub asset_subclass: String,
    pub countries: Vec<String>,
    pub sectors: Vec<String>,
}

/// One valued position in one account.
#[derive(Debug, Clone, PartialEq)]
pub struct Holding {
    pub id: String,
    pub account_id: String,
    pub holding_type: String,
    pub instrument: Option<Instrument>,
    pub quantity: String,
    pub open_date: Option<DateTime>,
    pub local_currency: String,
    pub base_currency: String,
    pub fx_rate: String,
    pub market_value: MoneyValue,
    pub cost_basis: Option<MoneyValue>,
    pub price: String,
    pub unrealized_gain: Option<MoneyValue>,
    pub unrealized_gain_pct: Option<String>,
    pub realized_gain: Option<MoneyValue>,
    pub realized_gain_pct: Option<String>,
    pub total_gain: Option<MoneyValue>,
    pub total_gain_pct: Option<String>,
    pub day_change: Option<MoneyValue>,
    pub day_change_pct: Option<String>,
    pub weight: String,
    pub as_of_date: Date,
}

/// The latest conversion rate for one currency pair.
#[derive(Debug, Clone, PartialEq)]
pub struct ExchangeRate {
    pub from_currency: String,
    pub to_currency: String,
    pub rate: String,
    pub timestamp: DateTime,
}

/// One market quote for a symbol.
#[derive(Debug, Clone, PartialEq)]
pub struct Quote {
    pub id: String,
    pub symbol: String,
    pub timestamp: DateTime,
    pub open: String,
    pub high: String,
    pub low: String,
    pub close: String,
    pub volume: String,
    pub currency: String,
    pub data_source: String,
}

/// A symbol-search result.
#[derive(Debug, Clone, PartialEq)]
pub struct QuoteSummary {
    pub symbol: String,
    pub exchange: String,
    pub short_name: String,
    pub quote_type: String,
}

/// Performance metrics computed for one subject over one period.
#[derive(Debug, Clone, PartialEq)]
pub struct PerformanceMetrics {
    pub id: String,
    pub currency: String,
    pub period_start_date: Option<Date>,
    pub period_end_date: Option<Date>,
    pub cumulative_twr: String,
    pub gain_loss_amount: String,
    pub annualized_twr: String,
    pub simple_return: String,
    pub annualized_simple_return: String,
    pub volatility: String,
    pub max_drawdown: String,
}

/// Lightweight per-account performance, used for multi-account overviews.
#[derive(Debug, Clone, PartialEq)]
pub struct SimplePerformanceMetrics {
    pub account_id: String,
    pub total_value: String,
    pub account_currency: String,
    pub base_currency: String,
    pub fx_rate_to_base: String,
    pub total_gain_loss_amount: String,
    pub cumulative_return_percent: String,
    pub day_gain_loss_amount: String,
    pub day_return_percent_mod_dietz: String,
    pub portfolio_weight: String,
}

/// One read-only ledger entry.
#[derive(Debug, Clone, PartialEq)]
pub struct Activity {
    pub id: String,
    pub account_id: String,
    pub activity_type: String,
    pub activity_date: DateTime,
    pub asset_id: String,
    pub quantity: String,
    pub unit_price: String,
    pub currency: String,
    pub fee: String,
    pub amount: String,
}

} // verus!
