//! The flat record made from one advisory vulnerability entry.
use vstd::prelude::*;
use vstd::string::*;
use crate::cvrf;
use crate::cvrf::ThreatKind;
use crate::text::{contains, field_of, field_or_empty, is_substring};

verus! {

/// A normalized vulnerability record.
#[derive(Debug)]
pub struct Vulnerability {
    pub title: String,
    pub cve: String,
    pub severity: String,
    pub impact: String,
    pub description: Option<String>,
    pub acknowledgments: Option<String>,
    pub public: bool,
    pub exploited: bool,
    pub affected_products: Vec<String>,
}

/// The mathematical content of a [`Vulnerability`].
pub struct VulnerabilityView {
    pub title: Seq<char>,
    pub cve: Seq<char>,
    pub severity: Seq<char>,
    pub impact: Seq<char>,
    pub description: Option<Seq<char>>,
    pub acknowledgments: Option<Seq<char>>,
    pub public: bool,
    pub exploited: bool,
    pub affected_products: Seq<Seq<char>>,
}

pub open spec fn opt_text(o: Option<String>) -> Option<Seq<char>> {
    match o {
        Some(s) => Some(s@),
        None => None,
    }
}

pub open spec fn strings_view(v: Seq<String>) -> Seq<Seq<char>> {
    v.map_values(|s: String| s@)
}

impl View for Vulnerability {
    type V = VulnerabilityView;

    open spec fn view(&self) -> VulnerabilityView {
        VulnerabilityView {
            title: self.title@,
            cve: self.cve@,
            severity: self.severity@,
            impact: self.impact@,
            description: opt_text(self.description),
            acknowledgments: opt_text(self.acknowledgments),
            public: self.public,
            exploited: self.exploited,
            affected_products: strings_view(self.affected_products@),
        }
    }
}

/// The text of a wrapped value, empty when absent.
pub open spec fn value_text(v: cvrf::Value) -> Seq<char> {
    match v.value {
        Some(s) => s@,
        None => Seq::empty(),
    }
}

/// The narrative of a threat, empty when it has none.
pub open spec fn threat_text(t: cvrf::Threat) -> Seq<char> {
    match t.description {
        Some(v) => value_text(v),
        None => Seq::empty(),
    }
}

/// The narrative of the first threat of kind `k`, empty when no threat has that kind.
pub open spec fn first_threat_text(ts: Seq<cvrf::Threat>, k: ThreatKind) -> Seq<char>
    decreases ts.len(),
{
    if ts.len() == 0 {
        Seq::empty()
    } else if ts[0].type_ == k {
        threat_text(ts[0])
    } else {
        first_threat_text(ts.drop_first(), k)
    }
}

/// The value of the first note titled exactly `Description`, if there is such a note.
pub open spec fn description_of(notes: Seq<cvrf::Note>) -> Option<Seq<char>>
    decreases notes.len(),
{
    if notes.len() == 0 {
        None
    } else if notes[0].title@ == "Description"@ {
        opt_text(notes[0].value)
    } else {
        description_of(notes.drop_first())
    }
}

/// Every present name value, concatenated in order.
pub open spec fn names_text(names: Seq<cvrf::Value>) -> Seq<char>
    decreases names.len(),
{
    if names.len() == 0 {
        Seq::empty()
    } else {
        names_text(names.drop_last()) + value_text(names.last())
    }
}

/// The names of every acknowledgment, concatenated in order.
pub open spec fn acks_text(acks: Seq<cvrf::Acknowledgment>) -> Seq<char>
    decreases acks.len(),
{
    if acks.len() == 0 {
        Seq::empty()
    } else {
        acks_text(acks.drop_last()) + names_text(acks.last().name@)
    }
}

/// No acknowledgment at all gives `None`; otherwise the concatenated names.
pub open spec fn acknowledgments_of(acks: Seq<cvrf::Acknowledgment>) -> Option<Seq<char>> {
    if acks.len() == 0 {
        None
    } else {
        Some(acks_text(acks))
    }
}

pub open spec fn status_ids(st: cvrf::ProductStatus) -> Seq<Seq<char>> {
    match st.product_id {
        Some(ids) => strings_view(ids@),
        None => Seq::empty(),
    }
}

/// The product ids of every product status, in order.
pub open spec fn affected_ids(sts: Seq<cvrf::ProductStatus>) -> Seq<Seq<char>>
    decreases sts.len(),
{
    if sts.len() == 0 {
        Seq::empty()
    } else {
        affected_ids(sts.drop_last()) + status_ids(sts.last())
    }
}

/// The record that normalization makes of entry `e`.
pub open spec fn normalized(e: cvrf::Vulnerability) -> VulnerabilityView {
    let exploitability = first_threat_text(e.threats@, ThreatKind::Exploitability);
    VulnerabilityView {
        title: value_text(e.title),
        cve: e.cve@,
        severity: first_threat_text(e.threats@, ThreatKind::Severity),
        impact: first_threat_text(e.threats@, ThreatKind::Impact),
        description: description_of(e.notes@),
        acknowledgments: acknowledgments_of(e.acknowledgments@),
        public: is_substring("Yes"@, field_or_empty(exploitability, ';', 0)),
        exploited: is_substring("Yes"@, field_or_empty(exploitability, ';', 1)),
        affected_products: affected_ids(e.product_statuses@),
    }
}

/// Where no item of `ts` before `i` has kind `k`, the search may start at `i`.
pub proof fn lemma_first_threat_skip(ts: Seq<cvrf::Threat>, k: ThreatKind, i: int)
    requires
        0 <= i <= ts.len(),
        forall|j: int| 0 <= j < i ==> ts[j].type_ != k,
    ensures
        first_threat_text(ts, k) == first_threat_text(ts.skip(i), k),
    decreases i,
{
    if i > 0 {
        lemma_first_threat_skip(ts.drop_first(), k, i - 1);
        assert(ts.drop_first().skip(i - 1) =~= ts.skip(i));
    } else {
        assert(ts.skip(0) =~= ts);
    }
}

/// The narrative of the threat with the first occurrence of kind `k` at index `i`;
/// with no threat of that kind, the text is empty.
pub proof fn lemma_first_threat_selected(ts: Seq<cvrf::Threat>, k: ThreatKind, i: int)
    requires
        0 <= i <= ts.len(),
        forall|j: int| 0 <= j < i ==> ts[j].type_ != k,
        i == ts.len() || ts[i].type_ == k,
    ensures
        i < ts.len() ==> first_threat_text(ts, k) == threat_text(ts[i]),
        i == ts.len() ==> first_threat_text(ts, k) == Seq::<char>::empty(),
{
    lemma_first_threat_skip(ts, k, i);
}

fn value_string(v: &cvrf::Value) -> (r: String)
    ensures
        r@ == value_text(*v),
{
    match &v.value {
        Some(s) => s.clone(),
        None => String::new(),
    }
}

/// The narrative of the first threat of kind `k`.
fn first_threat(ts: &Vec<cvrf::Threat>, k: ThreatKind) -> (r: String)
    ensures
        r@ == first_threat_text(ts@, k),
{
    let mut i: usize = 0;
    while i < ts.len() && ts[i].type_ != k
        invariant
            i <= ts@.len(),
            forall|j: int| 0 <= j < i ==> ts@[j].type_ != k,
        decreases ts.len() - i,
    {
        i = i + 1;
    }
    proof {
        lemma_first_threat_selected(ts@, k, i as int);
    }
    if i < ts.len() {
        match &ts[i].description {
            Some(v) => value_string(v),
            None => String::new(),
        }
    } else {
        String::new()
    }
}

proof fn lemma_description_skip(notes: Seq<cvrf::Note>, i: int)
    requires
        0 <= i <= notes.len(),
        forall|j: int| 0 <= j < i ==> notes[j].title@ != "Description"@,
    ensures
        description_of(notes) == description_of(notes.skip(i)),
    decreases i,
{
    if i > 0 {
        lemma_description_skip(notes.drop_first(), i - 1);
        assert(notes.drop_first().skip(i - 1) =~= notes.skip(i));
    } else {
        assert(notes.skip(0) =~= notes);
    }
}

/// Without a note titled `Description` there is no description; with one, the description is
/// the first such note's value, an empty value included, so the two cases stay apart.
pub proof fn lemma_description_presence(notes: Seq<cvrf::Note>, i: int)
    requires
        0 <= i <= notes.len(),
        forall|j: int| 0 <= j < i ==> notes[j].title@ != "Description"@,
        i == notes.len() || notes[i].title@ == "Description"@,
    ensures
        i == notes.len() ==> description_of(notes) is None,
        i < notes.len() ==> description_of(notes) == opt_text(notes[i].value),
        i < notes.len() && notes[i].value is Some && notes[i].value->0@.len() == 0
            ==> description_of(notes) == Some(Seq::<char>::empty()),
{
    lemma_description_skip(notes, i);
    if i < notes.len() {
        if notes[i].value is Some && notes[i].value->0@.len() == 0 {
            assert(notes[i].value->0@ =~= Seq::<char>::empty());
        }
    }
}

fn description(notes: &Vec<cvrf::Note>) -> (r: Option<String>)
    ensures
        opt_text(r) == description_of(notes@),
{
    let key = String::from_str("Description");
    let mut i: usize = 0;
    while i < notes.len() && notes[i].title != key
        invariant
            key@ == "Description"@,
            i <= notes@.len(),
            forall|j: int| 0 <= j < i ==> notes@[j].title@ != "Description"@,
        decreases notes.len() - i,
    {
        i = i + 1;
    }
    proof {
        lemma_description_skip(notes@, i as int);
    }
    if i < notes.len() {
        match &notes[i].value {
            Some(s) => Some(s.clone()),
            None => None,
        }
    } else {
        None
    }
}

fn acknowledgments(acks: &Vec<cvrf::Acknowledgment>) -> (r: Option<String>)
    ensures
        opt_text(r) == acknowledgments_of(acks@),
{
    if acks.len() == 0 {
        return None;
    }
    let mut out = String::new();
    let mut i: usize = 0;
    while i < acks.len()
        invariant
            i <= acks@.len(),
            out@ == acks_text(acks@.take(i as int)),
        decreases acks.len() - i,
    {
        let names = &acks[i].name;
        let ghost before = out@;
        let mut j: usize = 0;
        while j < names.len()
            invariant
                j <= names@.len(),
                names@ == acks@[i as int].name@,
                out@ == before + names_text(names@.take(j as int)),
            decreases names.len() - j,
        {
            if let Some(s) = &names[j].value {
                out.append(s.as_str());
            }
            proof {
                assert(names@.take(j + 1).drop_last() =~= names@.take(j as int));
                assert(out@ =~= before + names_text(names@.take(j + 1)));
            }
            j = j + 1;
        }
        proof {
            assert(names@.take(j as int) =~= names@);
            assert(acks@.take(i + 1).drop_last() =~= acks@.take(i as int));
        }
        i = i + 1;
    }
    proof {
        assert(acks@.take(i as int) =~= acks@);
    }
    Some(out)
}

fn affected_products(sts: &Vec<cvrf::ProductStatus>) -> (r: Vec<String>)
    ensures
        strings_view(r@) == affected_ids(sts@),
{
    let mut out: Vec<String> = Vec::new();
    let mut i: usize = 0;
    while i < sts.len()
        invariant
            i <= sts@.len(),
            strings_view(out@) == affected_ids(sts@.take(i as int)),
        decreases sts.len() - i,
    {
        let ghost before = strings_view(out@);
        if let Some(ids) = &sts[i].product_id {
            let mut j: usize = 0;
            while j < ids.len()
                invariant
                    j <= ids@.len(),
                    i < sts@.len(),
                    sts@[i as int].product_id == Some(*ids),
                    strings_view(out@) == before + strings_view(ids@.take(j as int)),
                decreases ids.len() - j,
            {
                let ghost prev = out@;
                out.push(ids[j].clone());
                proof {
                    assert(strings_view(out@) =~= strings_view(prev).push(ids@[j as int]@));
                    assert(strings_view(ids@.take(j + 1)) =~= strings_view(ids@.take(j as int)).push(
                        ids@[j as int]@,
                    ));
                    assert(strings_view(out@) =~= before + strings_view(ids@.take(j + 1)));
                }
                j = j + 1;
            }
            proof {
                assert(ids@.take(j as int) =~= ids@);
            }
        } else {
            proof {
                assert(strings_view(out@) =~= before + status_ids(sts@[i as int]));
            }
        }
        proof {
            assert(sts@.take(i + 1).drop_last() =~= sts@.take(i as int));
        }
        i = i + 1;
    }
    proof {
        assert(sts@.take(i as int) =~= sts@);
    }
    out
}

pub open spec fn bool_text(b: bool) -> Seq<char> {
    if b {
        "true"@
    } else {
        "false"@
    }
}

/// One printed line: a label, a value and a line break.
pub open spec fn line_text(label: Seq<char>, value: Seq<char>) -> Seq<char> {
    label + value + "\n"@
}

pub open spec fn optional_line(label: Seq<char>, value: Option<Seq<char>>) -> Seq<char> {
    match value {
        Some(t) => line_text(label, t),
        None => Seq::empty(),
    }
}

/// The printed form of a record, one field per line, closed by a rule of eight dashes.
pub open spec fn rendered(v: VulnerabilityView) -> Seq<char> {
    line_text(Seq::empty(), v.title) + line_text(Seq::empty(), v.cve) + line_text(
        "Severity: "@,
        v.severity,
    ) + line_text("Impact: "@, v.impact) + optional_line("Description: "@, v.description)
        + line_text("Publicly Disclosed: "@, bool_text(v.public)) + line_text(
        "Exploited: "@,
        bool_text(v.exploited),
    ) + optional_line("Acknowledgments: "@, v.acknowledgments) + "--------"@
}

fn push_line(out: &mut String, label: &str, value: &str)
    ensures
        final(out)@ == old(out)@ + line_text(label@, value@),
{
    out.append(label);
    out.append(value);
    out.append("\n");
    proof {
        assert(final(out)@ =~= old(out)@ + line_text(label@, value@));
    }
}

fn push_optional_line(out: &mut String, label: &str, value: &Option<String>)
    ensures
        final(out)@ == old(out)@ + optional_line(label@, opt_text(*value)),
{
    match value {
        Some(t) => push_line(out, label, t.as_str()),
        None => {
            proof {
                assert(out@ =~= out@ + Seq::<char>::empty());
            }
        },
    }
}

fn bool_str(b: bool) -> (r: &'static str)
    ensures
        r@ == bool_text(b),
{
    if b {
        "true"
    } else {
        "false"
    }
}

impl Vulnerability {
    /// Normalizes one advisory entry: the first threat of each kind gives severity, impact
    /// and exploitability, the first `Description` note the description.
    pub fn from(item: &cvrf::Vulnerability) -> (r: Vulnerability)
        ensures
            r@ == normalized(*item),
    {
        let title = value_string(&item.title);
        let cve = item.cve.clone();
        let severity = first_threat(&item.threats, ThreatKind::Severity);
        let impact = first_threat(&item.threats, ThreatKind::Impact);
        let description = description(&item.notes);
        let acknowledgments = acknowledgments(&item.acknowledgments);
        let exploitability = first_threat(&item.threats, ThreatKind::Exploitability);
        let disclosed_field = field_of(exploitability.as_str(), ';', 0);
        let exploited_field = field_of(exploitability.as_str(), ';', 1);
        let public = contains(disclosed_field.as_str(), "Yes");
        let exploited = contains(exploited_field.as_str(), "Yes");
        let affected_products = affected_products(&item.product_statuses);
        Vulnerability {
            title,
            cve,
            severity,
            impact,
            description,
            acknowledgments,
            public,
            exploited,
            affected_products,
        }
    }

    /// The printed form of the record.
    pub fn render(&self) -> (r: String)
        ensures
            r@ == rendered(self@),
    {
        let mut out = String::new();
        push_line(&mut out, "", self.title.as_str());
        push_line(&mut out, "", self.cve.as_str());
        push_line(&mut out, "Severity: ", self.severity.as_str());
        push_line(&mut out, "Impact: ", self.impact.as_str());
        push_optional_line(&mut out, "Description: ", &self.description);
        push_line(&mut out, "Publicly Disclosed: ", bool_str(self.public));
        push_line(&mut out, "Exploited: ", bool_str(self.exploited));
        push_optional_line(&mut out, "Acknowledgments: ", &self.acknowledgments);
        out.append("--------");
        proof {
            assert(""@ =~= Seq::<char>::empty()) by {
                reveal_strlit("");
            }
            assert(out@ =~= rendered(self@));
        }
        out
    }
}

} // verus!
