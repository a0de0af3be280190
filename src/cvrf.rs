//! In-memory shape of one CVRF advisory document, with its type codes resolved.
use vstd::prelude::*;

verus! {

/// A text field that the upstream schema wraps in an object with an optional `Value`.
#[derive(Debug)]
pub struct Value {
    pub value: Option<String>,
}

/// A document note or a vulnerability note.
#[derive(Debug)]
pub struct Note {
    pub title: String,
    pub audience: String,
    pub type_: u64,
    pub ordinal: String,
    pub value: Option<String>,
}

/// One entry of a revision history.
#[derive(Debug)]
pub struct Revision {
    pub number: String,
    pub date: String,
    pub description: Value,
}

#[derive(Debug)]
pub struct Publisher {
    pub contact_details: Value,
    pub issuing_authority: Value,
    pub type_: u64,
}

#[derive(Debug)]
pub struct Tracking {
    pub identification: Value,
    pub status: u64,
    pub version: String,
    pub revision_history: Vec<Revision>,
    pub initial_release_date: String,
    pub current_release_date: String,
}

/// A product tree branch: a vendor, a family or a product, with nested branches.
#[derive(Debug)]
pub struct Branch {
    pub type_: u64,
    pub name: String,
    pub product_id: Option<String>,
    pub value: Option<String>,
    pub items: Vec<Branch>,
}

/// A catalog entry of the product tree.
#[derive(Debug)]
pub struct FullProductName {
    pub product_id: String,
    pub value: String,
}

#[derive(Debug)]
pub struct ProductTree {
    pub branch: Vec<Branch>,
    pub full_product_name: Vec<FullProductName>,
}

/// The role of a threat narrative, resolved from its integer type code.
#[derive(Debug, Clone, Copy, PartialEq, Eq, Structural)]
pub enum ThreatKind {
    Impact,
    Exploitability,
    Severity,
    Other(u64),
}

/// The kind that a threat type code stands for.
pub open spec fn threat_kind_of(code: u64) -> ThreatKind {
    if code == 0 {
        ThreatKind::Impact
    } else if code == 1 {
        ThreatKind::Exploitability
    } else if code == 3 {
        ThreatKind::Severity
    } else {
        ThreatKind::Other(code)
    }
}

impl ThreatKind {
    /// Resolves a threat type code: 0 is impact, 1 exploitability, 3 severity.
    pub fn from_code(code: u64) -> (r: ThreatKind)
        ensures
            r == threat_kind_of(code),
    {
        if code == 0 {
            ThreatKind::Impact
        } else if code == 1 {
            ThreatKind::Exploitability
        } else if code == 3 {
            ThreatKind::Severity
        } else {
            ThreatKind::Other(code)
        }
    }
}

#[derive(Debug)]
pub struct Threat {
    pub description: Option<Value>,
    pub product_id: Option<Vec<String>>,
    pub type_: ThreatKind,
    pub date_specified: bool,
}

#[derive(Debug)]
pub struct ProductStatus {
    pub product_id: Option<Vec<String>>,
    pub type_: u64,
}

#[derive(Debug)]
pub struct CvssScoreSet {
    pub vector: String,
    pub product_id: Option<Vec<String>>,
}

#[derive(Debug)]
pub struct Remediation {
    pub description: Option<Value>,
    pub url: Option<String>,
    pub supercedence: Option<String>,
    pub product_id: Option<Vec<String>>,
    pub type_: u64,
    pub date_specified: bool,
    pub affected_files: Vec<String>,
    pub restart_required: Option<Value>,
    pub sub_type: Option<String>,
}

#[derive(Debug)]
pub struct Acknowledgment {
    pub name: Vec<Value>,
    pub url: Vec<String>,
}

/// One vulnerability entry of an advisory, as delivered.
#[derive(Debug)]
pub struct Vulnerability {
    pub title: Value,
    pub notes: Vec<Note>,
    pub discovery_date_specified: bool,
    pub release_date_specified: bool,
    pub cve: String,
    pub product_statuses: Vec<ProductStatus>,
    pub threats: Vec<Threat>,
    pub cvss_score_sets: Vec<CvssScoreSet>,
    pub remediations: Vec<Remediation>,
    pub acknowledgments: Vec<Acknowledgment>,
    pub ordinal: String,
    pub revision_history: Vec<Revision>,
}

/// One advisory document, as delivered for one period.
#[derive(Debug)]
pub struct CVRFDocument {
    pub document_title: Value,
    pub document_type: Value,
    pub document_publisher: Publisher,
    pub document_tracking: Tracking,
    pub document_notes: Vec<Note>,
    pub product_tree: ProductTree,
    pub vulnerability: Vec<Vulnerability>,
}

} // verus!
