//! A minimal metrics responder: one command that answers a ticker/period
//! request with a fixed set of mock financial metrics.
//!
//! Metric values are plain ratios held in thousandths (for example `245`
//! stands for 0.245), so that every value is an exact integer; a host layer
//! that wants floating-point numbers divides by 1000.

use vstd::prelude::*;
use vstd::string::StringExecFns;

mod clock;

verus! {

/// A request for the financial metrics of one security.
///
/// `metrics` may name a subset of the known metric names. The responder
/// accepts the field but it has no effect on the output: the full fixed
/// set is returned regardless.
pub struct MetricsRequest {
    pub ticker: String,
    pub period: String,
    pub metrics: Option<Vec<String>>,
}

/// Auxiliary fields accompanying a metrics response.
pub struct Metadata {
    pub currency: String,
    pub fiscal_year: i32,
    pub last_updated: String,
}

/// A metrics response: the echoed request fields, the metric table
/// (name, value in thousandths), and the metadata block.
pub struct FinancialMetrics {
    pub ticker: String,
    pub period: String,
    pub metrics: Vec<(String, u64)>,
    pub metadata: Metadata,
}

/// The fixed table of twelve metrics, each value in thousandths.
pub open spec fn spec_metric_table() -> Seq<(Seq<char>, u64)> {
    seq![
        ("return_on_equity"@, 245u64),
        ("return_on_assets"@, 178u64),
        ("debt_to_equity"@, 1200u64),
        ("current_ratio"@, 1800u64),
        ("quick_ratio"@, 1500u64),
        ("operating_margin"@, 210u64),
        ("net_margin"@, 185u64),
        ("price_to_earnings"@, 18500u64),
        ("price_to_book"@, 3200u64),
        ("price_to_sales"@, 1900u64),
        ("revenue_growth"@, 150u64),
        ("earnings_growth"@, 120u64),
    ]
}

/// The mathematical view of a metric table: each entry as (name, value).
pub open spec fn entries_view(v: Seq<(String, u64)>) -> Seq<(Seq<char>, u64)> {
    v.map_values(|p: (String, u64)| (p.0@, p.1))
}

/// The shape that an RFC 3339 timestamp of a UTC datetime always has:
/// at least `YYYY-MM-DDTHH:MM:SS` followed by the six-character zero
/// offset, which is its suffix.
pub open spec fn rfc3339_utc_shape(s: Seq<char>) -> bool {
    &&& s.len() >= 25
    &&& s.subrange(s.len() - 6, s.len() as int) == "+00:00"@
}

/// Builds the fixed metric table.
pub fn metric_table() -> (t: Vec<(String, u64)>)
    ensures
        entries_view(t@) == spec_metric_table(),
{
    let mut t: Vec<(String, u64)> = Vec::new();
    t.push((String::from_str("return_on_equity"), 245));
    t.push((String::from_str("return_on_assets"), 178));
    t.push((String::from_str("debt_to_equity"), 1200));
    t.push((String::from_str("current_ratio"), 1800));
    t.push((String::from_str("quick_ratio"), 1500));
    t.push((String::from_str("operating_margin"), 210));
    t.push((String::from_str("net_margin"), 185));
    t.push((String::from_str("price_to_earnings"), 18500));
    t.push((String::from_str("price_to_book"), 3200));
    t.push((String::from_str("price_to_sales"), 1900));
    t.push((String::from_str("revenue_growth"), 150));
    t.push((String::from_str("earnings_growth"), 120));
    proof {
        assert(entries_view(t@) =~= spec_metric_table());
    }
    t
}

/// The responder: answers a request with the fixed metric table, the echoed
/// ticker and period, and fresh metadata. Total over its inputs — the error
/// channel exists for the host bridge but no path fills it. The request's
/// `metrics` filter is accepted but never applied.
pub fn get_financial_metrics(request: MetricsRequest) -> (r: Result<FinancialMetrics, String>)
    ensures
        r is Ok,
        r->Ok_0.ticker == request.ticker,
        r->Ok_0.period == request.period,
        entries_view(r->Ok_0.metrics@) == spec_metric_table(),
        r->Ok_0.metadata.currency@ == "USD"@,
        r->Ok_0.metadata.fiscal_year == 2023,
        rfc3339_utc_shape(r->Ok_0.metadata.last_updated@),
{
    let metrics = metric_table();
    let metadata = Metadata {
        currency: String::from_str("USD"),
        fiscal_year: 2023,
        last_updated: clock::now_rfc3339(),
    };
    Ok(FinancialMetrics {
        ticker: request.ticker,
        period: request.period,
        metrics,
        metadata,
    })
}

/// The twelve metric names are pairwise distinct, so the fixed table is a
/// well-formed mapping: exactly twelve keys, each bound to one value.
pub proof fn lemma_metric_keys_distinct()
    ensures
        forall|i: int, j: int|
            0 <= i < j < spec_metric_table().len()
                ==> #[trigger] spec_metric_table()[i].0 != #[trigger] spec_metric_table()[j].0,
{
    reveal_strlit("return_on_equity");
    reveal_strlit("return_on_assets");
    reveal_strlit("debt_to_equity");
    reveal_strlit("current_ratio");
    reveal_strlit("quick_ratio");
    reveal_strlit("operating_margin");
    reveal_strlit("net_margin");
    reveal_strlit("price_to_earnings");
    reveal_strlit("price_to_book");
    reveal_strlit("price_to_sales");
    reveal_strlit("revenue_growth");
    reveal_strlit("earnings_growth");
    assert("return_on_equity"@.len() == 16);
    assert("return_on_assets"@.len() == 16);
    assert("debt_to_equity"@.len() == 14);
    assert("current_ratio"@.len() == 13);
    assert("quick_ratio"@.len() == 11);
    assert("operating_margin"@.len() == 16);
    assert("net_margin"@.len() == 10);
    assert("price_to_earnings"@.len() == 17);
    assert("price_to_book"@.len() == 13);
    assert("price_to_sales"@.len() == 14);
    assert("revenue_growth"@.len() == 14);
    assert("earnings_growth"@.len() == 15);
    assert("return_on_equity"@[10] == 'e');
    assert("return_on_assets"@[10] == 'a');
    assert("operating_margin"@[0] == 'o');
    assert("return_on_equity"@[0] == 'r');
    assert("return_on_assets"@[0] == 'r');
    assert("current_ratio"@[0] == 'c');
    assert("price_to_book"@[0] == 'p');
    assert("debt_to_equity"@[0] == 'd');
    assert("price_to_sales"@[0] == 'p');
    assert("revenue_growth"@[0] == 'r');
}

} // verus!
