//! What a query makes of the advisories it fetched: period keys, per-period outcomes,
//! and the merged records. The requests themselves are made by the caller.
use vstd::prelude::*;
use vstd::string::*;
use crate::cvrf;
use crate::vulnerability::{normalized, Vulnerability, VulnerabilityView};
use crate::Product;

verus! {

/// The most requests that a year query keeps in flight at once.
pub const MAX_IN_FLIGHT: usize = 6;

/// Why one period gave no records.
#[derive(Debug)]
pub enum FetchError {
    /// The request failed on the network.
    TransportError(String),
    /// The service answered with a non-success status: no advisory for that period.
    NotFoundAdvisory,
    /// The body did not have the advisory document's shape.
    SchemaError(String),
    /// The selected product id is not in the document's product tree.
    ProductNotFound,
}

/// The outcome of the request for one period.
#[derive(Debug)]
pub struct PeriodResult {
    pub period: String,
    pub outcome: Result<cvrf::CVRFDocument, FetchError>,
}

/// The merged records of a year query, and the positions of the periods that failed.
#[derive(Debug)]
pub struct YearReport {
    pub records: Vec<Vulnerability>,
    pub failed: Vec<usize>,
}

/// The three-letter English name of month `m`, counted from 0.
pub open spec fn month_text(m: int) -> Seq<char> {
    if m == 0 {
        "Jan"@
    } else if m == 1 {
        "Feb"@
    } else if m == 2 {
        "Mar"@
    } else if m == 3 {
        "Apr"@
    } else if m == 4 {
        "May"@
    } else if m == 5 {
        "Jun"@
    } else if m == 6 {
        "Jul"@
    } else if m == 7 {
        "Aug"@
    } else if m == 8 {
        "Sep"@
    } else if m == 9 {
        "Oct"@
    } else if m == 10 {
        "Nov"@
    } else {
        "Dec"@
    }
}

/// The key of the advisory of month `m` of `year`.
pub open spec fn period_text(year: Seq<char>, m: int) -> Seq<char> {
    year + "-"@ + month_text(m)
}

pub open spec fn url_text(period: Seq<char>) -> Seq<char> {
    "https://api.msrc.microsoft.com/cvrf/v2.0/cvrf/"@ + period
}

/// The name of month `m`, counted from 0.
pub fn month_name(m: usize) -> (r: &'static str)
    requires
        m < 12,
    ensures
        r@ == month_text(m as int),
{
    if m == 0 {
        "Jan"
    } else if m == 1 {
        "Feb"
    } else if m == 2 {
        "Mar"
    } else if m == 3 {
        "Apr"
    } else if m == 4 {
        "May"
    } else if m == 5 {
        "Jun"
    } else if m == 6 {
        "Jul"
    } else if m == 7 {
        "Aug"
    } else if m == 8 {
        "Sep"
    } else if m == 9 {
        "Oct"
    } else if m == 10 {
        "Nov"
    } else {
        "Dec"
    }
}

/// The twelve period keys (`YYYY-Mon`) of a year, January first.
pub fn year_periods(year: &str) -> (r: Vec<String>)
    ensures
        r@.len() == 12,
        forall|m: int| 0 <= m < 12 ==> #[trigger] r@[m]@ == period_text(year@, m),
{
    let mut out: Vec<String> = Vec::new();
    let mut m: usize = 0;
    while m < 12
        invariant
            m <= 12,
            out@.len() == m,
            forall|k: int| 0 <= k < m ==> #[trigger] out@[k]@ == period_text(year@, k),
        decreases 12 - m,
    {
        let mut key = String::from_str(year);
        key.append("-");
        key.append(month_name(m));
        proof {
            assert(key@ =~= period_text(year@, m as int));
        }
        out.push(key);
        m = m + 1;
    }
    out
}

/// The address of the advisory of one period.
pub fn advisory_url(period: &str) -> (r: String)
    ensures
        r@ == url_text(period@),
{
    let base = String::from_str("https://api.msrc.microsoft.com/cvrf/v2.0/cvrf/");
    base.concat(period)
}

pub open spec fn normalized_all(entries: Seq<cvrf::Vulnerability>) -> Seq<VulnerabilityView> {
    entries.map_values(|e: cvrf::Vulnerability| normalized(e))
}

pub open spec fn views(vs: Seq<Vulnerability>) -> Seq<VulnerabilityView> {
    vs.map_values(|v: Vulnerability| v@)
}

/// Normalizes every entry of a document, in order.
pub fn normalize_all(entries: &Vec<cvrf::Vulnerability>) -> (r: Vec<Vulnerability>)
    ensures
        views(r@) == normalized_all(entries@),
{
    let mut out: Vec<Vulnerability> = Vec::new();
    let mut i: usize = 0;
    while i < entries.len()
        invariant
            i <= entries@.len(),
            views(out@) == normalized_all(entries@.take(i as int)),
        decreases entries.len() - i,
    {
        let ghost prev = out@;
        out.push(Vulnerability::from(&entries[i]));
        proof {
            assert(views(out@) =~= views(prev).push(normalized(entries@[i as int])));
            assert(normalized_all(entries@.take(i + 1)) =~= normalized_all(
                entries@.take(i as int),
            ).push(normalized(entries@[i as int])));
        }
        i = i + 1;
    }
    proof {
        assert(entries@.take(i as int) =~= entries@);
    }
    out
}

/// The records that one period contributes: all of its entries, or none when it failed.
pub open spec fn period_records(p: PeriodResult) -> Seq<VulnerabilityView> {
    match p.outcome {
        Ok(doc) => normalized_all(doc.vulnerability@),
        Err(_) => Seq::empty(),
    }
}

/// The records of every period, period after period.
pub open spec fn year_records(ps: Seq<PeriodResult>) -> Seq<VulnerabilityView>
    decreases ps.len(),
{
    if ps.len() == 0 {
        Seq::empty()
    } else {
        year_records(ps.drop_last()) + period_records(ps.last())
    }
}

/// The positions of the periods that failed, in increasing order.
pub open spec fn failed_positions(ps: Seq<PeriodResult>) -> Seq<int>
    decreases ps.len(),
{
    if ps.len() == 0 {
        Seq::empty()
    } else if ps.last().outcome is Ok {
        failed_positions(ps.drop_last())
    } else {
        failed_positions(ps.drop_last()).push(ps.len() - 1)
    }
}

pub open spec fn succeeded(p: PeriodResult) -> bool {
    p.outcome is Ok
}

/// Merges the outcomes of a year query: every succeeding period's records are kept, in the
/// order the outcomes are given, and each failed period is reported by its position.
pub fn collect_year(results: &Vec<PeriodResult>) -> (r: YearReport)
    ensures
        views(r.records@) == year_records(results@),
        r.failed@.map_values(|i: usize| i as int) == failed_positions(results@),
{
    let mut records: Vec<Vulnerability> = Vec::new();
    let mut failed: Vec<usize> = Vec::new();
    let mut i: usize = 0;
    while i < results.len()
        invariant
            i <= results@.len(),
            views(records@) == year_records(results@.take(i as int)),
            failed@.map_values(|k: usize| k as int) == failed_positions(results@.take(i as int)),
        decreases results.len() - i,
    {
        let ghost prev_records = records@;
        let ghost prev_failed = failed@;
        let ghost next = results@.take(i + 1);
        proof {
            assert(next.drop_last() =~= results@.take(i as int));
            assert(next.last() == results@[i as int]);
        }
        match &results[i].outcome {
            Ok(doc) => {
                let mut batch = normalize_all(&doc.vulnerability);
                records.append(&mut batch);
                proof {
                    assert(views(records@) =~= views(prev_records) + period_records(
                        results@[i as int],
                    ));
                }
            },
            Err(_) => {
                failed.push(i);
                proof {
                    assert(failed@.map_values(|k: usize| k as int) =~= prev_failed.map_values(
                        |k: usize| k as int,
                    ).push(i as int));
                    assert(views(records@) =~= views(prev_records) + period_records(
                        results@[i as int],
                    ));
                }
            },
        }
        i = i + 1;
    }
    proof {
        assert(results@.take(i as int) =~= results@);
    }
    YearReport { records, failed }
}

/// A failed period takes nothing away from the others: the merged records are those of the
/// succeeding periods alone, and there is one failure report for each period that failed.
pub proof fn lemma_failures_isolated(ps: Seq<PeriodResult>)
    ensures
        year_records(ps) == year_records(ps.filter(|p: PeriodResult| succeeded(p))),
        failed_positions(ps).len() + ps.filter(|p: PeriodResult| succeeded(p)).len() == ps.len(),
    decreases ps.len(),
{
    reveal(Seq::filter);
    let f = |p: PeriodResult| succeeded(p);
    if ps.len() > 0 {
        lemma_failures_isolated(ps.drop_last());
        let rest = ps.drop_last().filter(f);
        if succeeded(ps.last()) {
            assert(ps.filter(f) == rest.push(ps.last()));
            assert(rest.push(ps.last()).drop_last() =~= rest);
        } else {
            assert(ps.filter(f) == rest);
            assert(year_records(ps) =~= year_records(ps.drop_last()));
        }
    }
}

/// Whether `id` is the id of a catalog entry of the product tree.
pub open spec fn in_catalog(tree: cvrf::ProductTree, id: Seq<char>) -> bool {
    exists|i: int|
        0 <= i < tree.full_product_name@.len() && #[trigger] tree.full_product_name@[i].product_id@
            == id
}

/// Whether the product tree lists `id` exactly.
pub fn product_in_tree(tree: &cvrf::ProductTree, id: &String) -> (r: bool)
    ensures
        r == in_catalog(*tree, id@),
{
    let names = &tree.full_product_name;
    let mut i: usize = 0;
    while i < names.len() && names[i].product_id != *id
        invariant
            names == &tree.full_product_name,
            i <= names@.len(),
            forall|j: int| 0 <= j < i ==> #[trigger] names@[j].product_id@ != id@,
        decreases names.len() - i,
    {
        i = i + 1;
    }
    i < names.len()
}

pub open spec fn product_known(doc: cvrf::CVRFDocument, product: Product) -> bool {
    match product {
        Product::All => true,
        Product::Id(id) => in_catalog(doc.product_tree, id@),
    }
}

/// What a single-period query yields: `Ok(None)` when the period has no advisory, the
/// normalized records when the document lists the selected product, and the error otherwise.
pub fn collect_period(outcome: Result<cvrf::CVRFDocument, FetchError>, product: &Product) -> (r:
    Result<Option<Vec<Vulnerability>>, FetchError>)
    ensures
        match outcome {
            Ok(doc) => if product_known(doc, *product) {
                r is Ok && r->Ok_0 is Some && views(r->Ok_0->0@) == normalized_all(
                    doc.vulnerability@,
                )
            } else {
                r == Err::<Option<Vec<Vulnerability>>, FetchError>(FetchError::ProductNotFound)
            },
            Err(FetchError::NotFoundAdvisory) => r is Ok && r->Ok_0 is None,
            Err(e) => r == Err::<Option<Vec<Vulnerability>>, FetchError>(e),
        },
{
    match outcome {
        Ok(doc) => {
            let known = match product {
                Product::All => true,
                Product::Id(id) => product_in_tree(&doc.product_tree, id),
            };
            if known {
                Ok(Some(normalize_all(&doc.vulnerability)))
            } else {
                Err(FetchError::ProductNotFound)
            }
        },
        Err(FetchError::NotFoundAdvisory) => Ok(None),
        Err(e) => Err(e),
    }
}

} // verus!
