//! Normalization, filtering and fetch aggregation for CVRF security bulletins.
use vstd::prelude::*;

pub mod cvrf;
pub mod fetch;
pub mod filter;
pub mod text;
pub mod vulnerability;

pub use vulnerability::Vulnerability;

verus! {

/// Severity ratings that an advisory assigns.
#[derive(Debug, Clone, Copy, PartialEq, Eq, Structural)]
pub enum Severity {
    Critical,
    Important,
    High,
    Medium,
    Low,
}

/// The label under which a severity appears in advisories.
pub open spec fn severity_label(s: Severity) -> Seq<char> {
    match s {
        Severity::Critical => "Critical"@,
        Severity::Important => "Important"@,
        Severity::High => "High"@,
        Severity::Medium => "Medium"@,
        Severity::Low => "Low"@,
    }
}

impl Severity {
    pub fn label(&self) -> (r: &'static str)
        ensures
            r@ == severity_label(*self),
    {
        match self {
            Severity::Critical => "Critical",
            Severity::Important => "Important",
            Severity::High => "High",
            Severity::Medium => "Medium",
            Severity::Low => "Low",
        }
    }
}

/// Kinds of impact that an advisory assigns.
#[derive(Debug, Clone, Copy, PartialEq, Eq, Structural)]
pub enum Impact {
    RemoteCodeExecution,
    EscalationOfPrivilege,
    DenialOfService,
    SecurityFeatureBypass,
    InformationDisclosure,
    Spoofing,
}

/// The label under which an impact appears in advisories.
pub open spec fn impact_label(i: Impact) -> Seq<char> {
    match i {
        Impact::RemoteCodeExecution => "Remote Code Execution"@,
        Impact::EscalationOfPrivilege => "Elevation of Privilege"@,
        Impact::DenialOfService => "Denial of Service"@,
        Impact::SecurityFeatureBypass => "Security Feature Bypass"@,
        Impact::InformationDisclosure => "Information Disclosure"@,
        Impact::Spoofing => "Spoofing"@,
    }
}

impl Impact {
    pub fn label(&self) -> (r: &'static str)
        ensures
            r@ == impact_label(*self),
    {
        match self {
            Impact::RemoteCodeExecution => "Remote Code Execution",
            Impact::EscalationOfPrivilege => "Elevation of Privilege",
            Impact::DenialOfService => "Denial of Service",
            Impact::SecurityFeatureBypass => "Security Feature Bypass",
            Impact::InformationDisclosure => "Information Disclosure",
            Impact::Spoofing => "Spoofing",
        }
    }
}

/// The product whose vulnerabilities are wanted: every product, or one catalog product id.
#[derive(Debug)]
pub enum Product {
    All,
    Id(String),
}

} // verus!
