//! Conjunctive filters over normalized records, and the product affiliation test.
use vstd::prelude::*;
use crate::cvrf;
use crate::text::{contains, contains_ignore_case, is_substring, lower_of};
use crate::vulnerability::{strings_view, Vulnerability, VulnerabilityView};
use crate::Product;

verus! {

/// The criteria of one query; an absent criterion lets every record through.
#[derive(Debug)]
pub struct Filters {
    pub severity: Option<String>,
    pub title: Option<String>,
    pub acknowledgment: Option<String>,
    pub product: Product,
}

pub open spec fn severity_ok(f: Option<String>, v: VulnerabilityView) -> bool {
    match f {
        Some(s) => v.severity == s@,
        None => true,
    }
}

pub open spec fn title_ok(f: Option<String>, v: VulnerabilityView) -> bool {
    match f {
        Some(t) => is_substring(lower_of(t@), lower_of(v.title)),
        None => true,
    }
}

pub open spec fn acknowledgment_ok(f: Option<String>, v: VulnerabilityView) -> bool {
    match f {
        Some(a) => match v.acknowledgments {
            Some(text) => is_substring(lower_of(a@), lower_of(text)),
            None => false,
        },
        None => true,
    }
}

/// The product filter: exact equality with one of the record's affected product ids.
pub open spec fn product_ok(p: Product, v: VulnerabilityView) -> bool {
    match p {
        Product::All => true,
        Product::Id(id) => v.affected_products.contains(id@),
    }
}

/// A record passes the filters when it meets every criterion that is given.
pub open spec fn keeps(f: Filters, v: VulnerabilityView) -> bool {
    &&& severity_ok(f.severity, v)
    &&& title_ok(f.title, v)
    &&& acknowledgment_ok(f.acknowledgment, v)
    &&& product_ok(f.product, v)
}

pub open spec fn kept(vulns: Seq<Vulnerability>, f: Filters) -> Seq<Vulnerability> {
    vulns.filter(|v: Vulnerability| keeps(f, v@))
}

fn has_exact(ids: &Vec<String>, id: &String) -> (r: bool)
    ensures
        r == strings_view(ids@).contains(id@),
{
    let mut i: usize = 0;
    while i < ids.len() && ids[i] != *id
        invariant
            i <= ids@.len(),
            forall|j: int| 0 <= j < i ==> ids@[j]@ != id@,
        decreases ids.len() - i,
    {
        i = i + 1;
    }
    proof {
        if i < ids@.len() {
            assert(strings_view(ids@)[i as int] == id@);
        } else {
            assert forall|j: int| 0 <= j < strings_view(ids@).len() implies strings_view(
                ids@,
            )[j] != id@ by {}
        }
    }
    i < ids.len()
}

/// Whether `v` passes every given criterion of `f`.
pub fn passes(f: &Filters, v: &Vulnerability) -> (r: bool)
    ensures
        r == keeps(*f, v@),
{
    if let Some(s) = &f.severity {
        if v.severity != *s {
            return false;
        }
    }
    if let Some(t) = &f.title {
        if !contains_ignore_case(v.title.as_str(), t.as_str()) {
            return false;
        }
    }
    if let Some(a) = &f.acknowledgment {
        match &v.acknowledgments {
            Some(text) => {
                if !contains_ignore_case(text.as_str(), a.as_str()) {
                    return false;
                }
            },
            None => {
                return false;
            },
        }
    }
    match &f.product {
        Product::All => true,
        Product::Id(id) => has_exact(&v.affected_products, id),
    }
}

/// Keeps, in order, the records that pass every given criterion.
pub fn apply_filters(vulns: Vec<Vulnerability>, f: &Filters) -> (r: Vec<Vulnerability>)
    ensures
        r@ == kept(vulns@, *f),
{
    let ghost all = vulns@;
    let total = vulns.len();
    let mut rest = vulns;
    let mut out: Vec<Vulnerability> = Vec::new();
    let mut done: usize = 0;
    while rest.len() > 0
        invariant
            done <= all.len(),
            all.len() == total,
            rest@ == all.skip(done as int),
            out@ == kept(all.take(done as int), *f),
        decreases rest.len(),
    {
        let v = rest.remove(0);
        proof {
            assert(v == all[done as int]);
            assert(all.take(done + 1).drop_last() =~= all.take(done as int));
            assert(all.take(done + 1).last() == v);
            assert(rest@ =~= all.skip(done + 1));
        }
        let ghost keep = keeps(*f, v@);
        let ghost before = out@;
        if passes(f, &v) {
            out.push(v);
        }
        proof {
            let p = |x: Vulnerability| keeps(*f, x@);
            let next = all.take(done + 1);
            reveal(Seq::filter);
            assert(next.filter(p) == if p(next.last()) {
                next.drop_last().filter(p).push(next.last())
            } else {
                next.drop_last().filter(p)
            });
            assert(kept(next, *f) == next.filter(p));
            assert(kept(all.take(done as int), *f) == all.take(done as int).filter(p));
        }
        done = done + 1;
    }
    proof {
        assert(all.take(done as int) =~= all);
    }
    out
}

/// A record is among the filtered ones exactly when it was given and passes the criteria.
pub proof fn lemma_filtered_membership(vulns: Seq<Vulnerability>, f: Filters, x: Vulnerability)
    ensures
        kept(vulns, f).contains(x) <==> (vulns.contains(x) && keeps(f, x@)),
{
    let p = |v: Vulnerability| keeps(f, v@);
    assert(kept(vulns, f) == vulns.filter(p));
    if kept(vulns, f).contains(x) {
        let i = choose|i: int| 0 <= i < vulns.filter(p).len() && vulns.filter(p)[i] == x;
        vulns.lemma_filter_pred(p, i);
        vulns.lemma_filter_contains_rev(p, x);
    }
    if vulns.contains(x) && keeps(f, x@) {
        let i = choose|i: int| 0 <= i < vulns.len() && vulns[i] == x;
        vulns.lemma_filter_contains(p, i);
    }
}

/// With a severity and a title criterion alone, a record passes exactly when its severity
/// equals the given label and its title holds the given text, case aside.
pub proof fn lemma_severity_and_title(
    vulns: Seq<Vulnerability>,
    severity: String,
    title: String,
    x: Vulnerability,
)
    ensures
        ({
            let f = Filters {
                severity: Some(severity),
                title: Some(title),
                acknowledgment: None,
                product: Product::All,
            };
            kept(vulns, f).contains(x) <==> (vulns.contains(x) && x.severity@ == severity@
                && is_substring(lower_of(title@), lower_of(x.title@)))
        }),
{
    let f = Filters {
        severity: Some(severity),
        title: Some(title),
        acknowledgment: None,
        product: Product::All,
    };
    lemma_filtered_membership(vulns, f, x);
}

/// Some product status lists a catalog value that holds `product_id` as a substring.
pub open spec fn affected_by_status(entry: cvrf::Vulnerability, product_id: Seq<char>) -> bool {
    exists|i: int, j: int|
        0 <= i < entry.product_statuses@.len() && #[trigger] entry.product_statuses@[i].product_id
            is Some && 0 <= j < entry.product_statuses@[i].product_id->0@.len() && is_substring(
            product_id,
            #[trigger] entry.product_statuses@[i].product_id->0@[j]@,
        )
}

/// Whether `entry` applies to `product_id`: some product status lists a catalog value
/// that contains `product_id`.
pub fn is_affected(entry: &cvrf::Vulnerability, product_id: &str) -> (r: bool)
    ensures
        r == affected_by_status(*entry, product_id@),
{
    let sts = &entry.product_statuses;
    let mut i: usize = 0;
    while i < sts.len()
        invariant
            sts == &entry.product_statuses,
            i <= sts@.len(),
            forall|a: int, b: int|
                0 <= a < i && #[trigger] sts@[a].product_id is Some && 0 <= b
                    < sts@[a].product_id->0@.len() ==> !is_substring(
                    product_id@,
                    #[trigger] sts@[a].product_id->0@[b]@,
                ),
        decreases sts.len() - i,
    {
        if let Some(ids) = &sts[i].product_id {
            let mut j: usize = 0;
            while j < ids.len()
                invariant
                    sts == &entry.product_statuses,
                    i < sts@.len(),
                    sts@[i as int].product_id == Some(*ids),
                    j <= ids@.len(),
                    forall|b: int| 0 <= b < j ==> !is_substring(product_id@, #[trigger] ids@[b]@),
                decreases ids.len() - j,
            {
                if contains(ids[j].as_str(), product_id) {
                    proof {
                        assert(entry.product_statuses@[i as int].product_id->0@[j as int] == ids@[j as int]);
                    }
                    return true;
                }
                j = j + 1;
            }
        }
        i = i + 1;
    }
    false
}

} // verus!
