//! The aggregation service: answers each API query by calling exactly the
//! providers needed, resolving the base currency once per request, and
//! collapsing partial failures into either a best-effort result or a single
//! `{"error": ...}` object — never a mixed per-item error list.
//!
//! The payload builders at the top carry exact contracts: they pin the JSON
//! produced for every input.  The service methods orchestrate provider
//! calls; since nothing is assumed of a provider, their contracts say what
//! holds of the response whatever the providers returned.

use vstd::prelude::*;

use crate::json::{field_views_of, lemma_field_views_of_index, view_of, JsonValue, JsonView};
use crate::model::{
    Account, Activity, ExchangeRate, Holding, PerformanceMetrics, Quote, QuoteSummary,
    SimplePerformanceMetrics,
};
use crate::project::{
    accounts_json, accounts_to_json, activities_json, activities_to_json, exchange_rates_json,
    exchange_rates_to_json, holdings_json, holdings_to_json, performance_json, performance_to_json,
    quote_json, quote_summaries_json, quote_summaries_to_json, quote_to_json, quotes_json,
    quotes_to_json, simple_performances_json, simple_performances_to_json,
};
use crate::providers::{
    AccountServiceTrait, ActivityServiceTrait, FxServiceTrait, HoldingsServiceTrait,
    MarketDataServiceTrait, PerformanceServiceTrait, SettingsServiceTrait,
};

verus! {

/// The `{"error": message}` object.
pub open spec fn error_view(msg: Seq<char>) -> JsonView {
    JsonView::Obj(seq![("error"@, JsonView::Str(msg))])
}

/// The `{"holdings": [...], "baseCurrency": c}` object.
pub open spec fn holdings_response_view(hs: Seq<Holding>, base: Seq<char>) -> JsonView {
    JsonView::Obj(
        seq![
            ("holdings"@, JsonView::Arr(holdings_json(hs))),
            ("baseCurrency"@, JsonView::Str(base)),
        ],
    )
}

/// The `{"accounts": [...]}` object.
pub open spec fn accounts_response_view(accs: Seq<Account>) -> JsonView {
    JsonView::Obj(seq![("accounts"@, JsonView::Arr(accounts_json(accs)))])
}

/// The `{"exchangeRates": [...]}` object.
pub open spec fn exchange_rates_response_view(rs: Seq<ExchangeRate>) -> JsonView {
    JsonView::Obj(seq![("exchangeRates"@, JsonView::Arr(exchange_rates_json(rs)))])
}

/// The `{"baseCurrency": c}` object.
pub open spec fn base_currency_response_view(c: Seq<char>) -> JsonView {
    JsonView::Obj(seq![("baseCurrency"@, JsonView::Str(c))])
}

/// The `{"results": [...]}` object for a symbol search.
pub open spec fn search_response_view(ss: Seq<QuoteSummary>) -> JsonView {
    JsonView::Obj(seq![("results"@, JsonView::Arr(quote_summaries_json(ss)))])
}

/// The `{"quote": {...}}` object.
pub open spec fn quote_response_view(q: Quote) -> JsonView {
    JsonView::Obj(seq![("quote"@, quote_json(q))])
}

/// The `{"symbol": s, "quotes": [...]}` object.
pub open spec fn historical_response_view(symbol: Seq<char>, qs: Seq<Quote>) -> JsonView {
    JsonView::Obj(
        seq![("symbol"@, JsonView::Str(symbol)), ("quotes"@, JsonView::Arr(quotes_json(qs)))],
    )
}

/// The `{"accountId": a, "performance": {...}}` object.
pub open spec fn account_performance_response_view(
    account_id: Seq<char>,
    p: PerformanceMetrics,
) -> JsonView {
    JsonView::Obj(
        seq![("accountId"@, JsonView::Str(account_id)), ("performance"@, performance_json(p))],
    )
}

/// The `{"performances": [...]}` object.
pub open spec fn performances_response_view(ps: Seq<SimplePerformanceMetrics>) -> JsonView {
    JsonView::Obj(seq![("performances"@, JsonView::Arr(simple_performances_json(ps)))])
}

/// The `{"activities": [...]}` object.
pub open spec fn activities_response_view(acts: Seq<Activity>) -> JsonView {
    JsonView::Obj(seq![("activities"@, JsonView::Arr(activities_json(acts)))])
}

/// Some `{"error": ...}` object.
pub open spec fn error_shape(v: JsonView) -> bool {
    exists|msg: Seq<char>| v == error_view(msg)
}

/// Some successful holdings response.
pub open spec fn holdings_success_shape(v: JsonView) -> bool {
    exists|hs: Seq<Holding>, base: Seq<char>| v == holdings_response_view(hs, base)
}

/// Some successful accounts response.
pub open spec fn accounts_shape(v: JsonView) -> bool {
    exists|accs: Seq<Account>| v == accounts_response_view(accs)
}

/// Some successful exchange-rates response.
pub open spec fn exchange_rates_shape(v: JsonView) -> bool {
    exists|rs: Seq<ExchangeRate>| v == exchange_rates_response_view(rs)
}

/// A base-currency response: the configured currency, or the fixed error
/// object that reports it unset.
pub open spec fn base_currency_shape(v: JsonView) -> bool {
    (exists|c: Seq<char>| v == base_currency_response_view(c)) || v == error_view(
        "Base currency not set"@,
    )
}

/// Some successful search response.
pub open spec fn search_shape(v: JsonView) -> bool {
    exists|ss: Seq<QuoteSummary>| v == search_response_view(ss)
}

/// Some successful quote response.
pub open spec fn quote_shape(v: JsonView) -> bool {
    exists|q: Quote| v == quote_response_view(q)
}

/// Some successful historical-quotes response for the given symbol.
pub open spec fn historical_shape(symbol: Seq<char>, v: JsonView) -> bool {
    exists|qs: Seq<Quote>| v == historical_response_view(symbol, qs)
}

/// Some successful performance response for the given account.
pub open spec fn account_performance_shape(account_id: Seq<char>, v: JsonView) -> bool {
    exists|p: PerformanceMetrics| v == account_performance_response_view(account_id, p)
}

/// Some successful performance-summary response.
pub open spec fn performances_shape(v: JsonView) -> bool {
    exists|ps: Seq<SimplePerformanceMetrics>| v == performances_response_view(ps)
}

/// Some successful activities response.
pub open spec fn activities_shape(v: JsonView) -> bool {
    exists|acts: Seq<Activity>| v == activities_response_view(acts)
}

/// Builds the `{"error": message}` object for a failure message.
pub fn error_response(message: String) -> (r: JsonValue)
    ensures
        view_of(r) == error_view(message@),
{
    let ghost m = message@;
    let fields: Vec<(String, JsonValue)> = vec![("error".to_owned(), JsonValue::Str(message))];
    let r = JsonValue::Obj(fields);
    proof {
        lemma_field_views_of_index(r->Obj_0@);
        assert(field_views_of(r->Obj_0@) =~= error_view(m)->Obj_0);
    }
    r
}

/// Resolves the configured base currency, or produces the exact
/// `{"error":"Base currency not set"}` payload.  This decision is made
/// before any holdings work: when the currency is unset, nothing is
/// fetched.
pub fn base_currency_gate(base_currency: Option<String>) -> (r: Result<String, JsonValue>)
    ensures
        base_currency matches Some(c) ==> r == Result::<String, JsonValue>::Ok(c),
        base_currency is None ==> (r matches Err(v) && view_of(v) == error_view(
            "Base currency not set"@,
        )),
{
    match base_currency {
        Option::Some(c) => Result::Ok(c),
        Option::None => Result::Err(error_response("Base currency not set".to_owned())),
    }
}

/// What remains of a sequence of per-account fetches under the best-effort
/// policy: the concatenation, in order, of the successful results.  Failed
/// fetches contribute nothing.
pub open spec fn concat_ok(rs: Seq<Result<Vec<Holding>, String>>) -> Seq<Holding>
    decreases rs.len(),
{
    if rs.len() == 0 {
        Seq::empty()
    } else {
        (match rs[0] {
            Result::Ok(v) => v@,
            Result::Err(_) => Seq::empty(),
        }) + concat_ok(rs.drop_first())
    }
}

/// Law: a failed fetch anywhere in the fan-out is omitted; every fetch
/// around it keeps its place and its order.
pub proof fn lemma_failed_fetch_omitted(
    a: Seq<Result<Vec<Holding>, String>>,
    m: String,
    b: Seq<Result<Vec<Holding>, String>>,
)
    ensures
        concat_ok(a + seq![Result::Err(m)] + b) == concat_ok(a) + concat_ok(b),
    decreases a.len(),
{
    let s = a + seq![Result::<Vec<Holding>, String>::Err(m)] + b;
    if a.len() == 0 {
        assert(s[0] == Result::<Vec<Holding>, String>::Err(m));
        assert(s.drop_first() =~= b);
        assert(concat_ok(a) =~= Seq::<Holding>::empty());
        assert(concat_ok(s) =~= concat_ok(a) + concat_ok(b));
    } else {
        lemma_failed_fetch_omitted(a.drop_first(), m, b);
        assert(s[0] == a[0]);
        assert(s.drop_first() =~= a.drop_first() + seq![
            Result::<Vec<Holding>, String>::Err(m),
        ] + b);
        let head = match a[0] {
            Result::<Vec<Holding>, String>::Ok(v) => v@,
            Result::<Vec<Holding>, String>::Err(_) => Seq::<Holding>::empty(),
        };
        assert(head + (concat_ok(a.drop_first()) + concat_ok(b)) =~= (head + concat_ok(
            a.drop_first(),
        )) + concat_ok(b));
        assert(concat_ok(s) =~= concat_ok(a) + concat_ok(b));
    }
}

/// Law: a successful fetch contributes exactly its holdings, in place and
/// in order.
pub proof fn lemma_ok_fetch_kept(
    a: Seq<Result<Vec<Holding>, String>>,
    hs: Vec<Holding>,
    b: Seq<Result<Vec<Holding>, String>>,
)
    ensures
        concat_ok(a + seq![Result::Ok(hs)] + b) == concat_ok(a) + hs@ + concat_ok(b),
    decreases a.len(),
{
    let s = a + seq![Result::<Vec<Holding>, String>::Ok(hs)] + b;
    if a.len() == 0 {
        assert(s[0] == Result::<Vec<Holding>, String>::Ok(hs));
        assert(s.drop_first() =~= b);
        assert(concat_ok(s) == hs@ + concat_ok(b));
        assert(concat_ok(s) =~= concat_ok(a) + hs@ + concat_ok(b));
    } else {
        lemma_ok_fetch_kept(a.drop_first(), hs, b);
        assert(s[0] == a[0]);
        assert(s.drop_first() =~= a.drop_first() + seq![
            Result::<Vec<Holding>, String>::Ok(hs),
        ] + b);
        let head = match a[0] {
            Result::<Vec<Holding>, String>::Ok(v) => v@,
            Result::<Vec<Holding>, String>::Err(_) => Seq::<Holding>::empty(),
        };
        assert(head + ((concat_ok(a.drop_first()) + hs@) + concat_ok(b)) =~= ((head + concat_ok(
            a.drop_first(),
        )) + hs@) + concat_ok(b));
        assert(concat_ok(s) =~= concat_ok(a) + hs@ + concat_ok(b));
    }
}

/// The best-effort collect-or-skip combinator: keeps every successful
/// fetch, in fan-out order, and drops the failed ones.
pub fn merge_holdings_results(results: Vec<Result<Vec<Holding>, String>>) -> (r: Vec<Holding>)
    ensures
        r@ == concat_ok(results@),
{
    let ghost all = results@;
    let mut rest = results;
    let mut acc: Vec<Holding> = Vec::new();
    proof {
        assert(all.take(all.len() as int) =~= all);
        assert(all.skip(all.len() as int) =~= Seq::<Result<Vec<Holding>, String>>::empty());
    }
    while rest.len() > 0
        invariant
            rest@.len() <= all.len(),
            rest@ == all.take(rest@.len() as int),
            acc@ == concat_ok(all.skip(rest@.len() as int)),
        decreases rest.len(),
    {
        let ghost k = rest@.len() as int;
        let last = rest.pop().unwrap();
        proof {
            assert(rest@ =~= all.take(k - 1));
            let t = all.skip(k - 1);
            assert(t.len() > 0);
            assert(t[0] == all[k - 1]);
            assert(t.drop_first() =~= all.skip(k));
        }
        match last {
            Result::Ok(mut hs) => {
                hs.append(&mut acc);
                acc = hs;
            },
            Result::Err(_) => {},
        }
    }
    proof {
        assert(all.skip(0) =~= all);
    }
    acc
}

/// Builds the success payload for a holdings query.
pub fn holdings_payload(holdings: Vec<Holding>, base_currency: String) -> (r: JsonValue)
    ensures
        view_of(r) == holdings_response_view(holdings@, base_currency@),
{
    let ghost hs = holdings@;
    let ghost base = base_currency@;
    let data = holdings_to_json(holdings);
    let fields: Vec<(String, JsonValue)> = vec![
        ("holdings".to_owned(), JsonValue::Arr(data)),
        ("baseCurrency".to_owned(), JsonValue::Str(base_currency)),
    ];
    let r = JsonValue::Obj(fields);
    proof {
        lemma_field_views_of_index(r->Obj_0@);
        assert(field_views_of(r->Obj_0@) =~= holdings_response_view(hs, base)->Obj_0);
    }
    r
}

/// Builds the success payload for the accounts query.
pub fn accounts_payload(accounts: Vec<Account>) -> (r: JsonValue)
    ensures
        view_of(r) == accounts_response_view(accounts@),
{
    let ghost w = accounts@;
    let data = accounts_to_json(accounts);
    let fields: Vec<(String, JsonValue)> = vec![("accounts".to_owned(), JsonValue::Arr(data))];
    let r = JsonValue::Obj(fields);
    proof {
        lemma_field_views_of_index(r->Obj_0@);
        assert(field_views_of(r->Obj_0@) =~= accounts_response_view(w)->Obj_0);
    }
    r
}

/// Builds the success payload for the exchange-rates query.
pub fn exchange_rates_payload(rates: Vec<ExchangeRate>) -> (r: JsonValue)
    ensures
        view_of(r) == exchange_rates_response_view(rates@),
{
    let ghost w = rates@;
    let data = exchange_rates_to_json(rates);
    let fields: Vec<(String, JsonValue)> = vec![
        ("exchangeRates".to_owned(), JsonValue::Arr(data)),
    ];
    let r = JsonValue::Obj(fields);
    proof {
        lemma_field_views_of_index(r->Obj_0@);
        assert(field_views_of(r->Obj_0@) =~= exchange_rates_response_view(w)->Obj_0);
    }
    r
}

/// Builds the base-currency response: the configured currency when set,
/// the exact `{"error":"Base currency not set"}` object when unset.
pub fn base_currency_payload(base_currency: Option<String>) -> (r: JsonValue)
    ensures
        base_currency matches Some(c) ==> view_of(r) == base_currency_response_view(c@),
        base_currency is None ==> view_of(r) == error_view("Base currency not set"@),
{
    match base_currency {
        Option::Some(c) => {
            let ghost w = c@;
            let fields: Vec<(String, JsonValue)> = vec![
                ("baseCurrency".to_owned(), JsonValue::Str(c)),
            ];
            let r = JsonValue::Obj(fields);
            proof {
                lemma_field_views_of_index(r->Obj_0@);
                assert(field_views_of(r->Obj_0@) =~= base_currency_response_view(w)->Obj_0);
            }
            r
        },
        Option::None => error_response("Base currency not set".to_owned()),
    }
}

/// Builds the success payload for a symbol search.
pub fn search_payload(results: Vec<QuoteSummary>) -> (r: JsonValue)
    ensures
        view_of(r) == search_response_view(results@),
{
    let ghost w = results@;
    let data = quote_summaries_to_json(results);
    let fields: Vec<(String, JsonValue)> = vec![("results".to_owned(), JsonValue::Arr(data))];
    let r = JsonValue::Obj(fields);
    proof {
        lemma_field_views_of_index(r->Obj_0@);
        assert(field_views_of(r->Obj_0@) =~= search_response_view(w)->Obj_0);
    }
    r
}

/// Builds the success payload for a quote lookup.
pub fn quote_payload(quote: Quote) -> (r: JsonValue)
    ensures
        view_of(r) == quote_response_view(quote),
{
    let ghost w = quote;
    let data = quote_to_json(quote);
    let fields: Vec<(String, JsonValue)> = vec![("quote".to_owned(), data)];
    let r = JsonValue::Obj(fields);
    proof {
        lemma_field_views_of_index(r->Obj_0@);
        assert(field_views_of(r->Obj_0@) =~= quote_response_view(w)->Obj_0);
    }
    r
}

/// Builds the success payload for a historical-quotes lookup.
pub fn historical_quotes_payload(symbol: &str, quotes: Vec<Quote>) -> (r: JsonValue)
    ensures
        view_of(r) == historical_response_view(symbol@, quotes@),
{
    let ghost w = quotes@;
    let data = quotes_to_json(quotes);
    let fields: Vec<(String, JsonValue)> = vec![
        ("symbol".to_owned(), JsonValue::Str(symbol.to_owned())),
        ("quotes".to_owned(), JsonValue::Arr(data)),
    ];
    let r = JsonValue::Obj(fields);
    proof {
        lemma_field_views_of_index(r->Obj_0@);
        assert(field_views_of(r->Obj_0@) =~= historical_response_view(symbol@, w)->Obj_0);
    }
    r
}

/// Builds the success payload for a single-account performance query.
pub fn account_performance_payload(account_id: &str, performance: PerformanceMetrics) -> (r:
    JsonValue)
    ensures
        view_of(r) == account_performance_response_view(account_id@, performance),
{
    let ghost w = performance;
    let data = performance_to_json(performance);
    let fields: Vec<(String, JsonValue)> = vec![
        ("accountId".to_owned(), JsonValue::Str(account_id.to_owned())),
        ("performance".to_owned(), data),
    ];
    let r = JsonValue::Obj(fields);
    proof {
        lemma_field_views_of_index(r->Obj_0@);
        assert(field_views_of(r->Obj_0@) =~= account_performance_response_view(
            account_id@,
            w,
        )->Obj_0);
    }
    r
}

/// Builds the success payload for the portfolio performance summary.
pub fn performances_payload(performances: Vec<SimplePerformanceMetrics>) -> (r: JsonValue)
    ensures
        view_of(r) == performances_response_view(performances@),
{
    let ghost w = performances@;
    let data = simple_performances_to_json(performances);
    let fields: Vec<(String, JsonValue)> = vec![("performances".to_owned(), JsonValue::Arr(data))];
    let r = JsonValue::Obj(fields);
    proof {
        lemma_field_views_of_index(r->Obj_0@);
        assert(field_views_of(r->Obj_0@) =~= performances_response_view(w)->Obj_0);
    }
    r
}

/// Builds the success payload for the activities query.
pub fn activities_payload(activities: Vec<Activity>) -> (r: JsonValue)
    ensures
        view_of(r) == activities_response_view(activities@),
{
    let ghost w = activities@;
    let data = activities_to_json(activities);
    let fields: Vec<(String, JsonValue)> = vec![("activities".to_owned(), JsonValue::Arr(data))];
    let r = JsonValue::Obj(fields);
    proof {
        lemma_field_views_of_index(r->Obj_0@);
        assert(field_views_of(r->Obj_0@) =~= activities_response_view(w)->Obj_0);
    }
    r
}

/// Projects the accounts' ids, in order: exactly what a batched
/// performance computation over all accounts is asked about.
pub fn account_ids(accounts: &Vec<Account>) -> (r: Vec<String>)
    ensures
        r@.len() == accounts@.len(),
        forall|j: int| 0 <= j < accounts@.len() ==> r@[j] == accounts@[j].id,
{
    let mut out: Vec<String> = Vec::new();
    let mut i: usize = 0;
    while i < accounts.len()
        invariant
            i <= accounts@.len(),
            out@.len() == i,
            forall|j: int| 0 <= j < i ==> out@[j] == accounts@[j].id,
        decreases accounts@.len() - i,
    {
        out.push(accounts[i].id.clone());
        i = i + 1;
    }
    out
}

/// The aggregation service, with one injected provider per capability.
pub struct ExternalApiService<A, H, F, S, M, P, V> {
    account_service: A,
    holdings_service: H,
    fx_service: F,
    settings_service: S,
    market_data_service: M,
    performance_service: P,
    activity_service: V,
}

impl<
    A: AccountServiceTrait,
    H: HoldingsServiceTrait,
    F: FxServiceTrait,
    S: SettingsServiceTrait,
    M: MarketDataServiceTrait,
    P: PerformanceServiceTrait,
    V: ActivityServiceTrait,
> ExternalApiService<A, H, F, S, M, P, V> {
    /// Builds the service from its providers.
    pub fn new(
        account_service: A,
        holdings_service: H,
        fx_service: F,
        settings_service: S,
        market_data_service: M,
        performance_service: P,
        activity_service: V,
    ) -> Self {
        Self {
            account_service,
            holdings_service,
            fx_service,
            settings_service,
            market_data_service,
            performance_service,
            activity_service,
        }
    }

    /// Answers the holdings query.  The base currency is resolved first:
    /// unset, the exact `{"error":"Base currency not set"}` object comes
    /// back and no holdings are fetched.  With an account id, that
    /// account's failure becomes an `{"error": ...}` object; without one,
    /// every account is fetched sequentially and individual failures are
    /// silently skipped.  A settings or accounts-listing failure is `Err`.
    pub fn get_holdings(&self, account_id: Option<String>) -> (r: Result<JsonValue, String>)
        ensures
            r matches Ok(v) ==> error_shape(view_of(v)) || holdings_success_shape(view_of(v)),
    {
        let base_currency = match self.settings_service.get_base_currency() {
            Result::Ok(c) => match base_currency_gate(c) {
                Result::Ok(b) => b,
                Result::Err(v) => {
                    proof {
                        assert(view_of(v) == error_view("Base currency not set"@));
                    }
                    return Result::Ok(v);
                },
            },
            Result::Err(e) => {
                return Result::Err(e);
            },
        };
        let holdings_result: Result<Vec<Holding>, String> = match account_id {
            Option::Some(aid) => self.holdings_service.get_holdings(
                aid.as_str(),
                base_currency.as_str(),
            ),
            Option::None => {
                let accounts = match self.account_service.get_all_accounts() {
                    Result::Ok(a) => a,
                    Result::Err(e) => {
                        return Result::Err(e);
                    },
                };
                let mut fetched: Vec<Result<Vec<Holding>, String>> = Vec::new();
                let mut i: usize = 0;
                while i < accounts.len()
                    invariant
                        i <= accounts.len(),
                    decreases accounts.len() - i,
                {
                    fetched.push(
                        self.holdings_service.get_holdings(
                            accounts[i].id.as_str(),
                            base_currency.as_str(),
                        ),
                    );
                    i = i + 1;
                }
                Result::Ok(merge_holdings_results(fetched))
            },
        };
        match holdings_result {
            Result::Ok(holdings) => {
                let ghost hs = holdings@;
                let ghost base = base_currency@;
                let v = holdings_payload(holdings, base_currency);
                proof {
                    assert(view_of(v) == holdings_response_view(hs, base));
                }
                Result::Ok(v)
            },
            Result::Err(e) => {
                let ghost m = e@;
                let v = error_response(e);
                proof {
                    assert(view_of(v) == error_view(m));
                }
                Result::Ok(v)
            },
        }
    }

    /// Lists all accounts; a provider failure is `Err`.
    pub fn get_accounts(&self) -> (r: Result<JsonValue, String>)
        ensures
            r matches Ok(v) ==> accounts_shape(view_of(v)),
    {
        let accounts = match self.account_service.get_all_accounts() {
            Result::Ok(a) => a,
            Result::Err(e) => {
                return Result::Err(e);
            },
        };
        let ghost w = accounts@;
        let v = accounts_payload(accounts);
        proof {
            assert(view_of(v) == accounts_response_view(w));
        }
        Result::Ok(v)
    }

    /// Lists the latest exchange rates; a provider failure is `Err`.
    pub fn get_exchange_rates(&self) -> (r: Result<JsonValue, String>)
        ensures
            r matches Ok(v) ==> exchange_rates_shape(view_of(v)),
    {
        let rates = match self.fx_service.get_latest_exchange_rates() {
            Result::Ok(rs) => rs,
            Result::Err(e) => {
                return Result::Err(e);
            },
        };
        let ghost w = rates@;
        let v = exchange_rates_payload(rates);
        proof {
            assert(view_of(v) == exchange_rates_response_view(w));
        }
        Result::Ok(v)
    }

    /// Reports the configured base currency; an unset currency is a normal
    /// outcome and comes back as the fixed error object.
    pub fn get_base_currency(&self) -> (r: Result<JsonValue, String>)
        ensures
            r matches Ok(v) ==> base_currency_shape(view_of(v)),
    {
        let c = match self.settings_service.get_base_currency() {
            Result::Ok(c) => c,
            Result::Err(e) => {
                return Result::Err(e);
            },
        };
        let ghost w = c;
        let v = base_currency_payload(c);
        proof {
            match w {
                Option::Some(s) => {
                    assert(view_of(v) == base_currency_response_view(s@));
                },
                Option::None => {},
            }
        }
        Result::Ok(v)
    }

    /// Searches market data for the query string; a provider failure is
    /// `Err`.
    pub fn search_market_data(&self, query: &str) -> (r: Result<JsonValue, String>)
        ensures
            r matches Ok(v) ==> search_shape(view_of(v)),
    {
        let results = match self.market_data_service.search_symbol(query) {
            Result::Ok(rs) => rs,
            Result::Err(e) => {
                return Result::Err(e);
            },
        };
        let ghost w = results@;
        let v = search_payload(results);
        proof {
            assert(view_of(v) == search_response_view(w));
        }
        Result::Ok(v)
    }

    /// Looks up the latest quote for a symbol; an unknown symbol or a
    /// provider failure is `Err`.
    pub fn get_quote(&self, symbol: &str) -> (r: Result<JsonValue, String>)
        ensures
            r matches Ok(v) ==> quote_shape(view_of(v)),
    {
        let quote = match self.market_data_service.get_latest_quote_for_symbol(symbol) {
            Result::Ok(q) => q,
            Result::Err(e) => {
                return Result::Err(e);
            },
        };
        let ghost w = quote;
        let v = quote_payload(quote);
        proof {
            assert(view_of(v) == quote_response_view(w));
        }
        Result::Ok(v)
    }

    /// Lists historical quotes for a symbol, in the provider's order; a
    /// provider failure is `Err`.
    pub fn get_historical_quotes(&self, symbol: &str) -> (r: Result<JsonValue, String>)
        ensures
            r matches Ok(v) ==> historical_shape(symbol@, view_of(v)),
    {
        let quotes = match self.market_data_service.get_historical_quotes_for_symbol(symbol) {
            Result::Ok(qs) => qs,
            Result::Err(e) => {
                return Result::Err(e);
            },
        };
        let ghost w = quotes@;
        let v = historical_quotes_payload(symbol, quotes);
        proof {
            assert(view_of(v) == historical_response_view(symbol@, w));
        }
        Result::Ok(v)
    }

    /// Computes performance for one account over the provider's default
    /// period; a provider failure is `Err`.
    pub fn get_account_performance(&self, account_id: &str) -> (r: Result<JsonValue, String>)
        ensures
            r matches Ok(v) ==> account_performance_shape(account_id@, view_of(v)),
    {
        let performance = match self.performance_service.calculate_performance_summary(
            "account",
            account_id,
            Option::None,
            Option::None,
        ) {
            Result::Ok(p) => p,
            Result::Err(e) => {
                return Result::Err(e);
            },
        };
        let ghost w = performance;
        let v = account_performance_payload(account_id, performance);
        proof {
            assert(view_of(v) == account_performance_response_view(account_id@, w));
        }
        Result::Ok(v)
    }

    /// Computes the whole-portfolio summary in one batched provider call
    /// over exactly the listed accounts' ids, in account order: a single
    /// failure fails the whole summary, and no partial data is returned.
    pub fn get_portfolio_performance_summary(&self) -> (r: Result<JsonValue, String>)
        ensures
            r matches Ok(v) ==> performances_shape(view_of(v)),
    {
        let accounts = match self.account_service.get_all_accounts() {
            Result::Ok(a) => a,
            Result::Err(e) => {
                return Result::Err(e);
            },
        };
        let ids = account_ids(&accounts);
        let performances = match self.performance_service.calculate_accounts_simple_performance(
            &ids,
        ) {
            Result::Ok(ps) => ps,
            Result::Err(e) => {
                return Result::Err(e);
            },
        };
        let ghost w = performances@;
        let v = performances_payload(performances);
        proof {
            assert(view_of(v) == performances_response_view(w));
        }
        Result::Ok(v)
    }

    /// Lists activities, all or for one account; a provider failure is
    /// `Err`.
    pub fn get_activities(&self, account_id: Option<String>) -> (r: Result<JsonValue, String>)
        ensures
            r matches Ok(v) ==> activities_shape(view_of(v)),
    {
        let activities = match account_id {
            Option::Some(aid) => match self.activity_service.get_activities_by_account_id(
                aid.as_str(),
            ) {
                Result::Ok(acts) => acts,
                Result::Err(e) => {
                    return Result::Err(e);
                },
            },
            Option::None => match self.activity_service.get_activities() {
                Result::Ok(acts) => acts,
                Result::Err(e) => {
                    return Result::Err(e);
                },
            },
        };
        let ghost w = activities@;
        let v = activities_payload(activities);
        proof {
            assert(view_of(v) == activities_response_view(w));
        }
        Result::Ok(v)
    }
}

} // verus!
