//! Projection of domain entities into the external JSON shape.
//!
//! One spec function per entity pins the exact object: field names in
//! camelCase and in a fixed order, dates as ISO-8601 / RFC 3339 strings,
//! monetary pairs as two-key `{local, base}` objects, and absent optional
//! fields as `null` (the key is always present).

use vstd::prelude::*;

use crate::json::{
    field_views_of, lemma_field_views_of_index, lemma_views_of_index, view_of, views_of, JsonValue,
    JsonView,
};
use crate::model::{
    Account, Activity, ExchangeRate, Holding, Instrument, MoneyValue, PerformanceMetrics, Quote,
    QuoteSummary, SimplePerformanceMetrics,
};
use crate::time::{date_text, rfc3339_text, Date, DateTime};

verus! {

/// JSON object for a monetary pair: `{"local":..., "base":...}`.
pub open spec fn money_json(m: MoneyValue) -> JsonView {
    JsonView::Obj(seq![("local"@, JsonView::Str(m.local@)), ("base"@, JsonView::Str(m.base@))])
}

/// JSON for an optional monetary pair: the full pair object when present,
/// `null` when absent — never a partially populated object.
pub open spec fn opt_money_json(o: Option<MoneyValue>) -> JsonView {
    match o {
        Option::Some(m) => money_json(m),
        Option::None => JsonView::Null,
    }
}

/// JSON for an optional string: the string when present, `null` when absent.
pub open spec fn opt_str_json(o: Option<String>) -> JsonView {
    match o {
        Option::Some(s) => JsonView::Str(s@),
        Option::None => JsonView::Null,
    }
}

/// JSON for an optional date, rendered `YYYY-MM-DD` when present.
pub open spec fn opt_date_json(o: Option<Date>) -> JsonView {
    match o {
        Option::Some(d) => JsonView::Str(date_text(d)),
        Option::None => JsonView::Null,
    }
}

/// JSON for an optional instant, rendered RFC 3339 when present.
pub open spec fn opt_datetime_json(o: Option<DateTime>) -> JsonView {
    match o {
        Option::Some(t) => JsonView::Str(rfc3339_text(t)),
        Option::None => JsonView::Null,
    }
}

/// JSON strings for a sequence of strings, in order.
pub open spec fn string_views(ss: Seq<String>) -> Seq<JsonView> {
    Seq::new(ss.len(), |i: int| JsonView::Str(ss[i]@))
}

/// Law: an optional monetary field is all-or-nothing.  When the pair is
/// present its object carries both keys, `local` and `base`; when it is
/// absent the field is exactly `null`.
pub proof fn lemma_optional_money_all_or_nothing(o: Option<MoneyValue>)
    ensures
        o matches Option::Some(m) ==> opt_money_json(o) == JsonView::Obj(
            seq![("local"@, JsonView::Str(m.local@)), ("base"@, JsonView::Str(m.base@))],
        ),
        o is None ==> opt_money_json(o) == JsonView::Null,
{
}

/// JSON object for one account.
pub open spec fn account_json(a: Account) -> JsonView {
    JsonView::Obj(
        seq![
            ("id"@, JsonView::Str(a.id@)),
            ("name"@, JsonView::Str(a.name@)),
            ("accountType"@, JsonView::Str(a.account_type@)),
            ("currency"@, JsonView::Str(a.currency@)),
            ("isActive"@, JsonView::Bool(a.is_active)),
        ],
    )
}

/// JSON objects for a sequence of accounts, in order.
pub open spec fn accounts_json(accs: Seq<Account>) -> Seq<JsonView> {
    Seq::new(accs.len(), |i: int| account_json(accs[i]))
}

/// JSON object for a holding's instrument.
pub open spec fn instrument_json(inst: Instrument) -> JsonView {
    JsonView::Obj(
        seq![
            ("id"@, JsonView::Str(inst.id@)),
            ("symbol"@, JsonView::Str(inst.symbol@)),
            ("name"@, JsonView::Str(inst.name@)),
            ("currency"@, JsonView::Str(inst.currency@)),
            ("assetClass"@, JsonView::Str(inst.asset_class@)),
            ("assetSubclass"@, JsonView::Str(inst.asset_subclass@)),
            ("countries"@, JsonView::Arr(string_views(inst.countries@))),
            ("sectors"@, JsonView::Arr(string_views(inst.sectors@))),
        ],
    )
}

/// JSON for a holding's optional instrument.
pub open spec fn opt_instrument_json(o: Option<Instrument>) -> JsonView {
    match o {
        Option::Some(inst) => instrument_json(inst),
        Option::None => JsonView::Null,
    }
}

/// JSON object for one holding.
pub open spec fn holding_json(h: Holding) -> JsonView {
    JsonView::Obj(
        seq![
            ("id"@, JsonView::Str(h.id@)),
            ("accountId"@, JsonView::Str(h.account_id@)),
            ("holdingType"@, JsonView::Str(h.holding_type@)),
            ("instrument"@, opt_instrument_json(h.instrument)),
            ("quantity"@, JsonView::Str(h.quantity@)),
            ("openDate"@, opt_datetime_json(h.open_date)),
            ("localCurrency"@, JsonView::Str(h.local_currency@)),
            ("baseCurrency"@, JsonView::Str(h.base_currency@)),
            ("fxRate"@, JsonView::Str(h.fx_rate@)),
            ("marketValue"@, money_json(h.market_value)),
            ("costBasis"@, opt_money_json(h.cost_basis)),
            ("price"@, JsonView::Str(h.price@)),
            ("unrealizedGain"@, opt_money_json(h.unrealized_gain)),
            ("unrealizedGainPct"@, opt_str_json(h.unrealized_gain_pct)),
            ("realizedGain"@, opt_money_json(h.realized_gain)),
            ("realizedGainPct"@, opt_str_json(h.realized_gain_pct)),
            ("totalGain"@, opt_money_json(h.total_gain)),
            ("totalGainPct"@, opt_str_json(h.total_gain_pct)),
            ("dayChange"@, opt_money_json(h.day_change)),
            ("dayChangePct"@, opt_str_json(h.day_change_pct)),
            ("weight"@, JsonView::Str(h.weight@)),
            ("asOfDate"@, JsonView::Str(date_text(h.as_of_date))),
        ],
    )
}

/// JSON objects for a sequence of holdings, in order.
pub open spec fn holdings_json(hs: Seq<Holding>) -> Seq<JsonView> {
    Seq::new(hs.len(), |i: int| holding_json(hs[i]))
}

/// JSON object for one exchange rate.
pub open spec fn exchange_rate_json(r: ExchangeRate) -> JsonView {
    JsonView::Obj(
        seq![
            ("from"@, JsonView::Str(r.from_currency@)),
            ("to"@, JsonView::Str(r.to_currency@)),
            ("rate"@, JsonView::Str(r.rate@)),
            ("timestamp"@, JsonView::Str(rfc3339_text(r.timestamp))),
        ],
    )
}

/// JSON objects for a sequence of exchange rates, in order.
pub open spec fn exchange_rates_json(rs: Seq<ExchangeRate>) -> Seq<JsonView> {
    Seq::new(rs.len(), |i: int| exchange_rate_json(rs[i]))
}

/// JSON object for one symbol-search result.
pub open spec fn quote_summary_json(s: QuoteSummary) -> JsonView {
    JsonView::Obj(
        seq![
            ("symbol"@, JsonView::Str(s.symbol@)),
            ("exchange"@, JsonView::Str(s.exchange@)),
            ("name"@, JsonView::Str(s.short_name@)),
            ("type"@, JsonView::Str(s.quote_type@)),
        ],
    )
}

/// JSON objects for a sequence of search results, in order.
pub open spec fn quote_summaries_json(ss: Seq<QuoteSummary>) -> Seq<JsonView> {
    Seq::new(ss.len(), |i: int| quote_summary_json(ss[i]))
}

/// JSON object for one quote.
pub open spec fn quote_json(q: Quote) -> JsonView {
    JsonView::Obj(
        seq![
            ("id"@, JsonView::Str(q.id@)),
            ("symbol"@, JsonView::Str(q.symbol@)),
            ("timestamp"@, JsonView::Str(rfc3339_text(q.timestamp))),
            ("open"@, JsonView::Str(q.open@)),
            ("high"@, JsonView::Str(q.high@)),
            ("low"@, JsonView::Str(q.low@)),
            ("close"@, JsonView::Str(q.close@)),
            ("volume"@, JsonView::Str(q.volume@)),
            ("currency"@, JsonView::Str(q.currency@)),
            ("dataSource"@, JsonView::Str(q.data_source@)),
        ],
    )
}

/// JSON objects for a sequence of quotes, in order.
pub open spec fn quotes_json(qs: Seq<Quote>) -> Seq<JsonView> {
    Seq::new(qs.len(), |i: int| quote_json(qs[i]))
}

/// JSON object for one set of performance metrics.
pub open spec fn performance_json(p: PerformanceMetrics) -> JsonView {
    JsonView::Obj(
        seq![
            ("id"@, JsonView::Str(p.id@)),
            ("currency"@, JsonView::Str(p.currency@)),
            ("periodStartDate"@, opt_date_json(p.period_start_date)),
            ("periodEndDate"@, opt_date_json(p.period_end_date)),
            ("cumulativeTWR"@, JsonView::Str(p.cumulative_twr@)),
            ("gainLossAmount"@, JsonView::Str(p.gain_loss_amount@)),
            ("annualizedTWR"@, JsonView::Str(p.annualized_twr@)),
            ("simpleReturn"@, JsonView::Str(p.simple_return@)),
            ("annualizedSimpleReturn"@, JsonView::Str(p.annualized_simple_return@)),
            ("volatility"@, JsonView::Str(p.volatility@)),
            ("maxDrawdown"@, JsonView::Str(p.max_drawdown@)),
        ],
    )
}

/// JSON object for one account's simple performance summary.
pub open spec fn simple_performance_json(p: SimplePerformanceMetrics) -> JsonView {
    JsonView::Obj(
        seq![
            ("accountId"@, JsonView::Str(p.account_id@)),
            ("totalValue"@, JsonView::Str(p.total_value@)),
            ("accountCurrency"@, JsonView::Str(p.account_currency@)),
            ("baseCurrency"@, JsonView::Str(p.base_currency@)),
            ("fxRateToBase"@, JsonView::Str(p.fx_rate_to_base@)),
            ("totalGainLossAmount"@, JsonView::Str(p.total_gain_loss_amount@)),
            ("cumulativeReturnPercent"@, JsonView::Str(p.cumulative_return_percent@)),
            ("dayGainLossAmount"@, JsonView::Str(p.day_gain_loss_amount@)),
            ("dayReturnPercentModDietz"@, JsonView::Str(p.day_return_percent_mod_dietz@)),
            ("portfolioWeight"@, JsonView::Str(p.portfolio_weight@)),
        ],
    )
}

/// JSON objects for a sequence of simple performance summaries, in order.
pub open spec fn simple_performances_json(ps: Seq<SimplePerformanceMetrics>) -> Seq<JsonView> {
    Seq::new(ps.len(), |i: int| simple_performance_json(ps[i]))
}

/// JSON object for one activity.
pub open spec fn activity_json(a: Activity) -> JsonView {
    JsonView::Obj(
        seq![
            ("id"@, JsonView::Str(a.id@)),
            ("accountId"@, JsonView::Str(a.account_id@)),
            ("activityType"@, JsonView::Str(a.activity_type@)),
            ("date"@, JsonView::Str(rfc3339_text(a.activity_date))),
            ("assetId"@, JsonView::Str(a.asset_id@)),
            ("quantity"@, JsonView::Str(a.quantity@)),
            ("price"@, JsonView::Str(a.unit_price@)),
            ("currency"@, JsonView::Str(a.currency@)),
            ("fee"@, JsonView::Str(a.fee@)),
            ("totalAmount"@, JsonView::Str(a.amount@)),
        ],
    )
}

/// JSON objects for a sequence of activities, in order.
pub open spec fn activities_json(acts: Seq<Activity>) -> Seq<JsonView> {
    Seq::new(acts.len(), |i: int| activity_json(acts[i]))
}

fn money_value(m: &MoneyValue) -> (r: JsonValue)
    ensures
        view_of(r) == money_json(*m),
{
    let fields: Vec<(String, JsonValue)> = vec![
        ("local".to_owned(), JsonValue::Str(m.local.clone())),
        ("base".to_owned(), JsonValue::Str(m.base.clone())),
    ];
    let r = JsonValue::Obj(fields);
    proof {
        lemma_field_views_of_index(r->Obj_0@);
        assert(field_views_of(r->Obj_0@) =~= money_json(*m)->Obj_0);
    }
    r
}

fn opt_money_value(o: &Option<MoneyValue>) -> (r: JsonValue)
    ensures
        view_of(r) == opt_money_json(*o),
{
    match o {
        Option::Some(m) => money_value(m),
        Option::None => JsonValue::Null,
    }
}

fn opt_str_value(o: &Option<String>) -> (r: JsonValue)
    ensures
        view_of(r) == opt_str_json(*o),
{
    match o {
        Option::Some(s) => JsonValue::Str(s.clone()),
        Option::None => JsonValue::Null,
    }
}

fn opt_date_value(o: &Option<Date>) -> (r: JsonValue)
    ensures
        view_of(r) == opt_date_json(*o),
{
    match o {
        Option::Some(d) => JsonValue::Str(d.to_iso8601()),
        Option::None => JsonValue::Null,
    }
}

fn opt_datetime_value(o: &Option<DateTime>) -> (r: JsonValue)
    ensures
        view_of(r) == opt_datetime_json(*o),
{
    match o {
        Option::Some(t) => JsonValue::Str(t.to_rfc3339()),
        Option::None => JsonValue::Null,
    }
}

fn strings_values(ss: &Vec<String>) -> (r: Vec<JsonValue>)
    ensures
        views_of(r@) == string_views(ss@),
{
    let mut out: Vec<JsonValue> = Vec::new();
    let mut i: usize = 0;
    while i < ss.len()
        invariant
            i <= ss.len(),
            out@.len() == i,
            forall|j: int| 0 <= j < i ==> #[trigger] out@[j] == JsonValue::Str(ss@[j]),
        decreases ss.len() - i,
    {
        out.push(JsonValue::Str(ss[i].clone()));
        i = i + 1;
    }
    proof {
        lemma_views_of_index(out@);
        assert(views_of(out@) =~= string_views(ss@));
    }
    out
}

fn instrument_value(inst: &Instrument) -> (r: JsonValue)
    ensures
        view_of(r) == instrument_json(*inst),
{
    let fields: Vec<(String, JsonValue)> = vec![
        ("id".to_owned(), JsonValue::Str(inst.id.clone())),
        ("symbol".to_owned(), JsonValue::Str(inst.symbol.clone())),
        ("name".to_owned(), JsonValue::Str(inst.name.clone())),
        ("currency".to_owned(), JsonValue::Str(inst.currency.clone())),
        ("assetClass".to_owned(), JsonValue::Str(inst.asset_class.clone())),
        ("assetSubclass".to_owned(), JsonValue::Str(inst.asset_subclass.clone())),
        ("countries".to_owned(), JsonValue::Arr(strings_values(&inst.countries))),
        ("sectors".to_owned(), JsonValue::Arr(strings_values(&inst.sectors))),
    ];
    let r = JsonValue::Obj(fields);
    proof {
        lemma_field_views_of_index(r->Obj_0@);
        assert(field_views_of(r->Obj_0@) =~= instrument_json(*inst)->Obj_0);
    }
    r
}

fn opt_instrument_value(o: &Option<Instrument>) -> (r: JsonValue)
    ensures
        view_of(r) == opt_instrument_json(*o),
{
    match o {
        Option::Some(inst) => instrument_value(inst),
        Option::None => JsonValue::Null,
    }
}

#[verifier::rlimit(60)]
fn holding_value(h: &Holding) -> (r: JsonValue)
    ensures
        view_of(r) == holding_json(*h),
{
    let fields: Vec<(String, JsonValue)> = vec![
        ("id".to_owned(), JsonValue::Str(h.id.clone())),
        ("accountId".to_owned(), JsonValue::Str(h.account_id.clone())),
        ("holdingType".to_owned(), JsonValue::Str(h.holding_type.clone())),
        ("instrument".to_owned(), opt_instrument_value(&h.instrument)),
        ("quantity".to_owned(), JsonValue::Str(h.quantity.clone())),
        ("openDate".to_owned(), opt_datetime_value(&h.open_date)),
        ("localCurrency".to_owned(), JsonValue::Str(h.local_currency.clone())),
        ("baseCurrency".to_owned(), JsonValue::Str(h.base_currency.clone())),
        ("fxRate".to_owned(), JsonValue::Str(h.fx_rate.clone())),
        ("marketValue".to_owned(), money_value(&h.market_value)),
        ("costBasis".to_owned(), opt_money_value(&h.cost_basis)),
        ("price".to_owned(), JsonValue::Str(h.price.clone())),
        ("unrealizedGain".to_owned(), opt_money_value(&h.unrealized_gain)),
        ("unrealizedGainPct".to_owned(), opt_str_value(&h.unrealized_gain_pct)),
        ("realizedGain".to_owned(), opt_money_value(&h.realized_gain)),
        ("realizedGainPct".to_owned(), opt_str_value(&h.realized_gain_pct)),
        ("totalGain".to_owned(), opt_money_value(&h.total_gain)),
        ("totalGainPct".to_owned(), opt_str_value(&h.total_gain_pct)),
        ("dayChange".to_owned(), opt_money_value(&h.day_change)),
        ("dayChangePct".to_owned(), opt_str_value(&h.day_change_pct)),
        ("weight".to_owned(), JsonValue::Str(h.weight.clone())),
        ("asOfDate".to_owned(), JsonValue::Str(h.as_of_date.to_iso8601())),
    ];
    let r = JsonValue::Obj(fields);
    proof {
        lemma_field_views_of_index(r->Obj_0@);
        assert(field_views_of(r->Obj_0@) =~= holding_json(*h)->Obj_0);
    }
    r
}

fn exchange_rate_value(x: &ExchangeRate) -> (r: JsonValue)
    ensures
        view_of(r) == exchange_rate_json(*x),
{
    let fields: Vec<(String, JsonValue)> = vec![
        ("from".to_owned(), JsonValue::Str(x.from_currency.clone())),
        ("to".to_owned(), JsonValue::Str(x.to_currency.clone())),
        ("rate".to_owned(), JsonValue::Str(x.rate.clone())),
        ("timestamp".to_owned(), JsonValue::Str(x.timestamp.to_rfc3339())),
    ];
    let r = JsonValue::Obj(fields);
    proof {
        lemma_field_views_of_index(r->Obj_0@);
        assert(field_views_of(r->Obj_0@) =~= exchange_rate_json(*x)->Obj_0);
    }
    r
}

fn quote_summary_value(s: &QuoteSummary) -> (r: JsonValue)
    ensures
        view_of(r) == quote_summary_json(*s),
{
    let fields: Vec<(String, JsonValue)> = vec![
        ("symbol".to_owned(), JsonValue::Str(s.symbol.clone())),
        ("exchange".to_owned(), JsonValue::Str(s.exchange.clone())),
        ("name".to_owned(), JsonValue::Str(s.short_name.clone())),
        ("type".to_owned(), JsonValue::Str(s.quote_type.clone())),
    ];
    let r = JsonValue::Obj(fields);
    proof {
        lemma_field_views_of_index(r->Obj_0@);
        assert(field_views_of(r->Obj_0@) =~= quote_summary_json(*s)->Obj_0);
    }
    r
}

fn quote_value(q: &Quote) -> (r: JsonValue)
    ensures
        view_of(r) == quote_json(*q),
{
    let fields: Vec<(String, JsonValue)> = vec![
        ("id".to_owned(), JsonValue::Str(q.id.clone())),
        ("symbol".to_owned(), JsonValue::Str(q.symbol.clone())),
        ("timestamp".to_owned(), JsonValue::Str(q.timestamp.to_rfc3339())),
        ("open".to_owned(), JsonValue::Str(q.open.clone())),
        ("high".to_owned(), JsonValue::Str(q.high.clone())),
        ("low".to_owned(), JsonValue::Str(q.low.clone())),
        ("close".to_owned(), JsonValue::Str(q.close.clone())),
        ("volume".to_owned(), JsonValue::Str(q.volume.clone())),
        ("currency".to_owned(), JsonValue::Str(q.currency.clone())),
        ("dataSource".to_owned(), JsonValue::Str(q.data_source.clone())),
    ];
    let r = JsonValue::Obj(fields);
    proof {
        lemma_field_views_of_index(r->Obj_0@);
        assert(field_views_of(r->Obj_0@) =~= quote_json(*q)->Obj_0);
    }
    r
}

fn simple_performance_value(p: &SimplePerformanceMetrics) -> (r: JsonValue)
    ensures
        view_of(r) == simple_performance_json(*p),
{
    let fields: Vec<(String, JsonValue)> = vec![
        ("accountId".to_owned(), JsonValue::Str(p.account_id.clone())),
        ("totalValue".to_owned(), JsonValue::Str(p.total_value.clone())),
        ("accountCurrency".to_owned(), JsonValue::Str(p.account_currency.clone())),
        ("baseCurrency".to_owned(), JsonValue::Str(p.base_currency.clone())),
        ("fxRateToBase".to_owned(), JsonValue::Str(p.fx_rate_to_base.clone())),
        ("totalGainLossAmount".to_owned(), JsonValue::Str(p.total_gain_loss_amount.clone())),
        ("cumulativeReturnPercent".to_owned(), JsonValue::Str(p.cumulative_return_percent.clone())),
        ("dayGainLossAmount".to_owned(), JsonValue::Str(p.day_gain_loss_amount.clone())),
        (
            "dayReturnPercentModDietz".to_owned(),
            JsonValue::Str(p.day_return_percent_mod_dietz.clone()),
        ),
        ("portfolioWeight".to_owned(), JsonValue::Str(p.portfolio_weight.clone())),
    ];
    let r = JsonValue::Obj(fields);
    proof {
        lemma_field_views_of_index(r->Obj_0@);
        assert(field_views_of(r->Obj_0@) =~= simple_performance_json(*p)->Obj_0);
    }
    r
}

fn activity_value(a: &Activity) -> (r: JsonValue)
    ensures
        view_of(r) == activity_json(*a),
{
    let fields: Vec<(String, JsonValue)> = vec![
        ("id".to_owned(), JsonValue::Str(a.id.clone())),
        ("accountId".to_owned(), JsonValue::Str(a.account_id.clone())),
        ("activityType".to_owned(), JsonValue::Str(a.activity_type.clone())),
        ("date".to_owned(), JsonValue::Str(a.activity_date.to_rfc3339())),
        ("assetId".to_owned(), JsonValue::Str(a.asset_id.clone())),
        ("quantity".to_owned(), JsonValue::Str(a.quantity.clone())),
        ("price".to_owned(), JsonValue::Str(a.unit_price.clone())),
        ("currency".to_owned(), JsonValue::Str(a.currency.clone())),
        ("fee".to_owned(), JsonValue::Str(a.fee.clone())),
        ("totalAmount".to_owned(), JsonValue::Str(a.amount.clone())),
    ];
    let r = JsonValue::Obj(fields);
    proof {
        lemma_field_views_of_index(r->Obj_0@);
        assert(field_views_of(r->Obj_0@) =~= activity_json(*a)->Obj_0);
    }
    r
}

/// Converts holdings to their JSON objects, in order.
pub fn holdings_to_json(holdings: Vec<Holding>) -> (r: Vec<JsonValue>)
    ensures
        views_of(r@) == holdings_json(holdings@),
{
    let mut out: Vec<JsonValue> = Vec::new();
    let mut i: usize = 0;
    while i < holdings.len()
        invariant
            i <= holdings.len(),
            out@.len() == i,
            forall|j: int|
                0 <= j < i ==> #[trigger] view_of(out@[j]) == holding_json(holdings@[j]),
        decreases holdings.len() - i,
    {
        out.push(holding_value(&holdings[i]));
        i = i + 1;
    }
    proof {
        lemma_views_of_index(out@);
        assert(views_of(out@) =~= holdings_json(holdings@));
    }
    out
}

/// Converts accounts to their JSON objects, in order.
pub fn accounts_to_json(accounts: Vec<Account>) -> (r: Vec<JsonValue>)
    ensures
        views_of(r@) == accounts_json(accounts@),
{
    let mut out: Vec<JsonValue> = Vec::new();
    let mut i: usize = 0;
    while i < accounts.len()
        invariant
            i <= accounts.len(),
            out@.len() == i,
            forall|j: int|
                0 <= j < i ==> #[trigger] view_of(out@[j]) == account_json(accounts@[j]),
        decreases accounts.len() - i,
    {
        out.push(account_value(&accounts[i]));
        i = i + 1;
    }
    proof {
        lemma_views_of_index(out@);
        assert(views_of(out@) =~= accounts_json(accounts@));
    }
    out
}

fn account_value(a: &Account) -> (r: JsonValue)
    ensures
        view_of(r) == account_json(*a),
{
    let fields: Vec<(String, JsonValue)> = vec![
        ("id".to_owned(), JsonValue::Str(a.id.clone())),
        ("name".to_owned(), JsonValue::Str(a.name.clone())),
        ("accountType".to_owned(), JsonValue::Str(a.account_type.clone())),
        ("currency".to_owned(), JsonValue::Str(a.currency.clone())),
        ("isActive".to_owned(), JsonValue::Bool(a.is_active)),
    ];
    let r = JsonValue::Obj(fields);
    proof {
        lemma_field_views_of_index(r->Obj_0@);
        assert(field_views_of(r->Obj_0@) =~= account_json(*a)->Obj_0);
    }
    r
}

/// Converts exchange rates to their JSON objects, in order.
pub fn exchange_rates_to_json(rates: Vec<ExchangeRate>) -> (r: Vec<JsonValue>)
    ensures
        views_of(r@) == exchange_rates_json(rates@),
{
    let mut out: Vec<JsonValue> = Vec::new();
    let mut i: usize = 0;
    while i < rates.len()
        invariant
            i <= rates.len(),
            out@.len() == i,
            forall|j: int|
                0 <= j < i ==> #[trigger] view_of(out@[j]) == exchange_rate_json(rates@[j]),
        decreases rates.len() - i,
    {
        out.push(exchange_rate_value(&rates[i]));
        i = i + 1;
    }
    proof {
        lemma_views_of_index(out@);
        assert(views_of(out@) =~= exchange_rates_json(rates@));
    }
    out
}

/// Converts symbol-search results to their JSON objects, in order.
pub fn quote_summaries_to_json(summaries: Vec<QuoteSummary>) -> (r: Vec<JsonValue>)
    ensures
        views_of(r@) == quote_summaries_json(summaries@),
{
    let mut out: Vec<JsonValue> = Vec::new();
    let mut i: usize = 0;
    while i < summaries.len()
        invariant
            i <= summaries.len(),
            out@.len() == i,
            forall|j: int|
                0 <= j < i ==> #[trigger] view_of(out@[j]) == quote_summary_json(summaries@[j]),
        decreases summaries.len() - i,
    {
        out.push(quote_summary_value(&summaries[i]));
        i = i + 1;
    }
    proof {
        lemma_views_of_index(out@);
        assert(views_of(out@) =~= quote_summaries_json(summaries@));
    }
    out
}

/// Converts one quote to its JSON object.
pub fn quote_to_json(quote: Quote) -> (r: JsonValue)
    ensures
        view_of(r) == quote_json(quote),
{
    quote_value(&quote)
}

/// Converts quotes to their JSON objects, in order.
pub fn quotes_to_json(quotes: Vec<Quote>) -> (r: Vec<JsonValue>)
    ensures
        views_of(r@) == quotes_json(quotes@),
{
    let mut out: Vec<JsonValue> = Vec::new();
    let mut i: usize = 0;
    while i < quotes.len()
        invariant
            i <= quotes.len(),
            out@.len() == i,
            forall|j: int| 0 <= j < i ==> #[trigger] view_of(out@[j]) == quote_json(quotes@[j]),
        decreases quotes.len() - i,
    {
        out.push(quote_value(&quotes[i]));
        i = i + 1;
    }
    proof {
        lemma_views_of_index(out@);
        assert(views_of(out@) =~= quotes_json(quotes@));
    }
    out
}

/// Converts performance metrics to their JSON object.
pub fn performance_to_json(performance: PerformanceMetrics) -> (r: JsonValue)
    ensures
        view_of(r) == performance_json(performance),
{
    let fields: Vec<(String, JsonValue)> = vec![
        ("id".to_owned(), JsonValue::Str(performance.id.clone())),
        ("currency".to_owned(), JsonValue::Str(performance.currency.clone())),
        ("periodStartDate".to_owned(), opt_date_value(&performance.period_start_date)),
        ("periodEndDate".to_owned(), opt_date_value(&performance.period_end_date)),
        ("cumulativeTWR".to_owned(), JsonValue::Str(performance.cumulative_twr.clone())),
        ("gainLossAmount".to_owned(), JsonValue::Str(performance.gain_loss_amount.clone())),
        ("annualizedTWR".to_owned(), JsonValue::Str(performance.annualized_twr.clone())),
        ("simpleReturn".to_owned(), JsonValue::Str(performance.simple_return.clone())),
        (
            "annualizedSimpleReturn".to_owned(),
            JsonValue::Str(performance.annualized_simple_return.clone()),
        ),
        ("volatility".to_owned(), JsonValue::Str(performance.volatility.clone())),
        ("maxDrawdown".to_owned(), JsonValue::Str(performance.max_drawdown.clone())),
    ];
    let r = JsonValue::Obj(fields);
    proof {
        lemma_field_views_of_index(r->Obj_0@);
        assert(field_views_of(r->Obj_0@) =~= performance_json(performance)->Obj_0);
    }
    r
}

/// Converts simple performance summaries to their JSON objects, in order.
pub fn simple_performances_to_json(performances: Vec<SimplePerformanceMetrics>) -> (r: Vec<
    JsonValue,
>)
    ensures
        views_of(r@) == simple_performances_json(performances@),
{
    let mut out: Vec<JsonValue> = Vec::new();
    let mut i: usize = 0;
    while i < performances.len()
        invariant
            i <= performances.len(),
            out@.len() == i,
            forall|j: int|
                0 <= j < i ==> #[trigger] view_of(out@[j]) == simple_performance_json(
                    performances@[j],
                ),
        decreases performances.len() - i,
    {
        out.push(simple_performance_value(&performances[i]));
        i = i + 1;
    }
    proof {
        lemma_views_of_index(out@);
        assert(views_of(out@) =~= simple_performances_json(performances@));
    }
    out
}

/// Converts activities to their JSON objects, in order.
pub fn activities_to_json(activities: Vec<Activity>) -> (r: Vec<JsonValue>)
    ensures
        views_of(r@) == activities_json(activities@),
{
    let mut out: Vec<JsonValue> = Vec::new();
    let mut i: usize = 0;
    while i < activities.len()
        invariant
            i <= activities.len(),
            out@.len() == i,
            forall|j: int|
                0 <= j < i ==> #[trigger] view_of(out@[j]) == activity_json(activities@[j]),
        decreases activities.len() - i,
    {
        out.push(activity_value(&activities[i]));
        i = i + 1;
    }
    proof {
        lemma_views_of_index(out@);
        assert(views_of(out@) =~= activities_json(activities@));
    }
    out
}

} // verus!
