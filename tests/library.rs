use patch_tuesday::cvrf::{
    Acknowledgment, CVRFDocument, FullProductName, Note, ProductStatus, ProductTree, Publisher,
    Threat, ThreatKind, Tracking, Value, Vulnerability as Entry,
};
use patch_tuesday::fetch::{
    advisory_url, collect_period, collect_year, month_name, normalize_all, year_periods,
    FetchError, PeriodResult, MAX_IN_FLIGHT,
};
use patch_tuesday::filter::{apply_filters, is_affected, passes, Filters};
use patch_tuesday::text::{contains, contains_ignore_case, field_of};
use patch_tuesday::{Impact, Product, Severity, Vulnerability};

fn value(s: Option<&str>) -> Value {
    Value { value: s.map(|t| t.to_string()) }
}

fn threat(code: u64, text: &str) -> Threat {
    Threat {
        description: Some(value(Some(text))),
        product_id: None,
        type_: ThreatKind::from_code(code),
        date_specified: false,
    }
}

fn note(title: &str, text: Option<&str>) -> Note {
    Note {
        title: title.to_string(),
        audience: "Public".to_string(),
        type_: 2,
        ordinal: "1".to_string(),
        value: text.map(|t| t.to_string()),
    }
}

fn status(ids: &[&str]) -> ProductStatus {
    ProductStatus { product_id: Some(ids.iter().map(|s| s.to_string()).collect()), type_: 3 }
}

fn entry(title: &str, threats: Vec<Threat>) -> Entry {
    Entry {
        title: value(Some(title)),
        notes: vec![],
        discovery_date_specified: false,
        release_date_specified: false,
        cve: "CVE-2023-0001".to_string(),
        product_statuses: vec![],
        threats,
        cvss_score_sets: vec![],
        remediations: vec![],
        acknowledgments: vec![],
        ordinal: "1".to_string(),
        revision_history: vec![],
    }
}

fn document(entries: Vec<Entry>) -> CVRFDocument {
    CVRFDocument {
        document_title: value(Some("Security Updates")),
        document_type: value(Some("Security Update")),
        document_publisher: Publisher {
            contact_details: value(None),
            issuing_authority: value(None),
            type_: 0,
        },
        document_tracking: Tracking {
            identification: value(Some("2023-Jan")),
            status: 2,
            version: "1.0".to_string(),
            revision_history: vec![],
            initial_release_date: "2023-01-10T08:00:00".to_string(),
            current_release_date: "2023-01-10T08:00:00".to_string(),
        },
        document_notes: vec![],
        product_tree: ProductTree {
            branch: vec![],
            full_product_name: vec![FullProductName {
                product_id: "11926".to_string(),
                value: "Windows 11 for x64-based Systems".to_string(),
            }],
        },
        vulnerability: entries,
    }
}

fn exploitability(text: &str) -> (bool, bool) {
    let v = Vulnerability::from(&entry("t", vec![threat(1, text)]));
    (v.public, v.exploited)
}

fn record(title: &str, severity: &str, acks: Option<&str>, products: &[&str]) -> Vulnerability {
    Vulnerability {
        title: title.to_string(),
        cve: "CVE-2023-0002".to_string(),
        severity: severity.to_string(),
        impact: "Spoofing".to_string(),
        description: None,
        acknowledgments: acks.map(|a| a.to_string()),
        public: false,
        exploited: false,
        affected_products: products.iter().map(|s| s.to_string()).collect(),
    }
}

fn no_filters() -> Filters {
    Filters { severity: None, title: None, acknowledgment: None, product: Product::All }
}

#[test]
fn first_threat_of_each_kind_is_selected() {
    let threats = vec![
        threat(4, "other"),
        threat(3, "Critical"),
        threat(0, "Remote Code Execution"),
        threat(3, "Low"),
        threat(0, "Spoofing"),
        threat(1, "Publicly Disclosed:No;Exploited:Yes"),
        threat(1, "Publicly Disclosed:Yes;Exploited:No"),
    ];
    let v = Vulnerability::from(&entry("Kernel bug", threats));
    assert_eq!(v.severity, "Critical");
    assert_eq!(v.impact, "Remote Code Execution");
    assert!(!v.public);
    assert!(v.exploited);
    assert_eq!(v.title, "Kernel bug");
    assert_eq!(v.cve, "CVE-2023-0001");
}

#[test]
fn missing_threat_kinds_give_empty_text() {
    let v = Vulnerability::from(&entry("t", vec![threat(7, "x")]));
    assert_eq!(v.severity, "");
    assert_eq!(v.impact, "");
    assert!(!v.public);
    assert!(!v.exploited);
}

#[test]
fn threat_without_description_gives_empty_text() {
    let mut t = threat(3, "ignored");
    t.description = None;
    let v = Vulnerability::from(&entry("t", vec![t, threat(3, "Low")]));
    assert_eq!(v.severity, "");
}

#[test]
fn exploitability_yes_no() {
    assert_eq!(exploitability("Yes;No"), (true, false));
}

#[test]
fn exploitability_no_yes() {
    assert_eq!(exploitability("No;Yes"), (false, true));
}

#[test]
fn exploitability_empty() {
    assert_eq!(exploitability(""), (false, false));
}

#[test]
fn exploitability_single_field() {
    assert_eq!(exploitability("Yes"), (true, false));
}

#[test]
fn exploitability_without_semicolon_marker() {
    assert_eq!(exploitability("DOS:N/A"), (false, false));
}

#[test]
fn description_absent_and_empty_are_distinct() {
    let mut without = entry("t", vec![]);
    without.notes = vec![note("FAQ", Some("text"))];
    let mut empty = entry("t", vec![]);
    empty.notes = vec![note("FAQ", Some("text")), note("Description", Some(""))];
    assert_eq!(Vulnerability::from(&without).description, None);
    assert_eq!(Vulnerability::from(&empty).description, Some(String::new()));
}

#[test]
fn description_title_match_is_exact() {
    let mut e = entry("t", vec![]);
    e.notes = vec![note("description", Some("lower")), note("Description", Some("real"))];
    assert_eq!(Vulnerability::from(&e).description, Some("real".to_string()));
}

#[test]
fn acknowledgments_concatenate_present_names() {
    let mut e = entry("t", vec![]);
    e.acknowledgments = vec![
        Acknowledgment { name: vec![value(Some("Alice")), value(None)], url: vec![] },
        Acknowledgment { name: vec![value(Some(" and Bob"))], url: vec![] },
    ];
    assert_eq!(Vulnerability::from(&e).acknowledgments, Some("Alice and Bob".to_string()));
}

#[test]
fn acknowledgments_absent_or_nameless() {
    let none = entry("t", vec![]);
    assert_eq!(Vulnerability::from(&none).acknowledgments, None);
    let mut nameless = entry("t", vec![]);
    nameless.acknowledgments = vec![Acknowledgment { name: vec![value(None)], url: vec![] }];
    assert_eq!(Vulnerability::from(&nameless).acknowledgments, Some(String::new()));
}

#[test]
fn affected_products_flatten_statuses() {
    let mut e = entry("t", vec![]);
    e.product_statuses = vec![
        status(&["1", "2"]),
        ProductStatus { product_id: None, type_: 3 },
        status(&["3"]),
    ];
    let v = Vulnerability::from(&e);
    assert_eq!(v.affected_products, vec!["1", "2", "3"]);
}

#[test]
fn affiliation_is_substring_containment() {
    let mut e = entry("t", vec![]);
    e.product_statuses = vec![status(&["XABCY"])];
    assert!(is_affected(&e, "ABC"));
    let mut other = entry("t", vec![]);
    other.product_statuses = vec![status(&["ABD"])];
    assert!(!is_affected(&other, "ABC"));
    let absent = entry("t", vec![]);
    assert!(!is_affected(&absent, "ABC"));
}

#[test]
fn severity_and_title_filters_are_conjunctive() {
    let vulns = vec![
        record("Windows Kernel Elevation", "Critical", None, &[]),
        record("Windows KERNEL leak", "Important", None, &[]),
        record("Office spoofing", "Critical", None, &[]),
        record("kernel driver", "Critical", None, &[]),
    ];
    let f = Filters {
        severity: Some("Critical".to_string()),
        title: Some("kernel".to_string()),
        acknowledgment: None,
        product: Product::All,
    };
    let kept = apply_filters(vulns, &f);
    let titles: Vec<&str> = kept.iter().map(|v| v.title.as_str()).collect();
    assert_eq!(titles, vec!["Windows Kernel Elevation", "kernel driver"]);
}

#[test]
fn acknowledgment_filter_needs_text() {
    let mut f = no_filters();
    f.acknowledgment = Some("ALICE".to_string());
    assert!(passes(&f, &record("a", "Low", Some("alice of team"), &[])));
    assert!(!passes(&f, &record("a", "Low", None, &[])));
    assert!(!passes(&f, &record("a", "Low", Some("bob"), &[])));
}

#[test]
fn product_filter_is_exact() {
    let mut f = no_filters();
    f.product = Product::Id("119".to_string());
    assert!(!passes(&f, &record("a", "Low", None, &["11926"])));
    assert!(passes(&f, &record("a", "Low", None, &["11926", "119"])));
    assert!(passes(&no_filters(), &record("a", "Low", None, &[])));
}

#[test]
fn no_filters_keep_everything() {
    let vulns = vec![record("a", "Low", None, &[]), record("b", "High", None, &[])];
    assert_eq!(apply_filters(vulns, &no_filters()).len(), 2);
}

#[test]
fn case_folding_reaches_matching() {
    assert!(contains_ignore_case("Windows KERNEL", "kernel"));
    assert!(!contains("Windows KERNEL", "kernel"));
    assert!(contains("abc", ""));
    assert!(!contains("ab", "abc"));
}

#[test]
fn fields_split_on_separator() {
    assert_eq!(field_of("a;b;c", ';', 0), "a");
    assert_eq!(field_of("a;b;c", ';', 1), "b");
    assert_eq!(field_of("a", ';', 1), "");
    assert_eq!(field_of(";x", ';', 0), "");
}

#[test]
fn year_has_twelve_periods() {
    let p = year_periods("2023");
    assert_eq!(p.len(), 12);
    assert_eq!(p[0], "2023-Jan");
    assert_eq!(p[11], "2023-Dec");
    assert_eq!(month_name(4), "May");
    assert_eq!(
        advisory_url("2023-Jan"),
        "https://api.msrc.microsoft.com/cvrf/v2.0/cvrf/2023-Jan"
    );
    assert_eq!(MAX_IN_FLIGHT, 6);
}

#[test]
fn year_with_two_failed_periods() {
    let periods = year_periods("2023");
    let mut results = Vec::new();
    for (i, p) in periods.into_iter().enumerate() {
        let outcome = if i == 3 || i == 8 {
            Err(FetchError::NotFoundAdvisory)
        } else {
            Ok(document(vec![entry(&format!("bug {i}"), vec![threat(3, "Critical")])]))
        };
        results.push(PeriodResult { period: p, outcome });
    }
    let report = collect_year(&results);
    assert_eq!(report.failed, vec![3, 8]);
    assert_eq!(report.records.len(), 10);
    let titles: Vec<String> = report.records.iter().map(|v| v.title.clone()).collect();
    for i in 0..12 {
        assert_eq!(titles.contains(&format!("bug {i}")), i != 3 && i != 8);
    }
    assert!(report.records.iter().all(|v| v.severity == "Critical"));
}

#[test]
fn single_period_outcomes() {
    let doc = document(vec![entry("a", vec![]), entry("b", vec![])]);
    let recs = collect_period(Ok(doc), &Product::All).unwrap().unwrap();
    assert_eq!(recs.len(), 2);
    assert!(matches!(collect_period(Err(FetchError::NotFoundAdvisory), &Product::All), Ok(None)));
    assert!(matches!(
        collect_period(Err(FetchError::SchemaError("bad".to_string())), &Product::All),
        Err(FetchError::SchemaError(_))
    ));
    assert!(matches!(
        collect_period(Err(FetchError::TransportError("down".to_string())), &Product::All),
        Err(FetchError::TransportError(_))
    ));
    let known = collect_period(Ok(document(vec![])), &Product::Id("11926".to_string()));
    assert!(matches!(known, Ok(Some(_))));
    let unknown = collect_period(Ok(document(vec![])), &Product::Id("1192".to_string()));
    assert!(matches!(unknown, Err(FetchError::ProductNotFound)));
}

#[test]
fn normalize_all_keeps_order() {
    let recs = normalize_all(&vec![entry("x", vec![]), entry("y", vec![])]);
    assert_eq!(recs[0].title, "x");
    assert_eq!(recs[1].title, "y");
}

#[test]
fn render_lists_fields() {
    let mut v = record("Title", "Critical", Some("Alice"), &[]);
    v.description = Some("Desc".to_string());
    v.public = true;
    let expected = "Title\nCVE-2023-0002\nSeverity: Critical\nImpact: Spoofing\nDescription: Desc\nPublicly Disclosed: true\nExploited: false\nAcknowledgments: Alice\n--------";
    assert_eq!(v.render(), expected);
    let bare = record("T", "Low", None, &[]);
    assert_eq!(
        bare.render(),
        "T\nCVE-2023-0002\nSeverity: Low\nImpact: Spoofing\nPublicly Disclosed: false\nExploited: false\n--------"
    );
}

#[test]
fn labels_and_codes() {
    assert_eq!(Severity::Critical.label(), "Critical");
    assert_eq!(Severity::Low.label(), "Low");
    assert_eq!(Impact::EscalationOfPrivilege.label(), "Elevation of Privilege");
    assert_eq!(ThreatKind::from_code(0), ThreatKind::Impact);
    assert_eq!(ThreatKind::from_code(1), ThreatKind::Exploitability);
    assert_eq!(ThreatKind::from_code(3), ThreatKind::Severity);
    assert_eq!(ThreatKind::from_code(2), ThreatKind::Other(2));
}
