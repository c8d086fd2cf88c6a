//! The scan report: one artifact, its scanned targets and their findings.

use vstd::prelude::*;

verus! {

/// One vulnerability record. Every field may be absent.
#[derive(Debug, PartialEq, Eq)]
pub struct Vulnerabilities {
    pub vulnerability_id: Option<String>,
    pub severity: Option<String>,
    pub title: Option<String>,
    pub description: Option<String>,
    pub severity_source: Option<String>,
    pub pkg_name: Option<String>,
    pub installed_version: Option<String>,
    pub fixed_version: Option<String>,
}

/// One scanned target with the findings reported for it, if any.
#[derive(Debug, PartialEq, Eq)]
pub struct Results {
    pub target: String,
    pub vulnerabilities: Option<Vec<Vulnerabilities>>,
}

/// The whole report of one scan.
#[derive(Debug, PartialEq, Eq)]
pub struct Trivy {
    pub artifact_name: String,
    pub results: Vec<Results>,
}

/// Mathematical value of a finding: each field as optional text.
pub struct FindingView {
    pub vulnerability_id: Option<Seq<char>>,
    pub severity: Option<Seq<char>>,
    pub title: Option<Seq<char>>,
    pub description: Option<Seq<char>>,
    pub severity_source: Option<Seq<char>>,
    pub pkg_name: Option<Seq<char>>,
    pub installed_version: Option<Seq<char>>,
    pub fixed_version: Option<Seq<char>>,
}

/// Mathematical value of a scanned target.
pub struct GroupView {
    pub target: Seq<char>,
    pub vulnerabilities: Option<Seq<FindingView>>,
}

/// Mathematical value of a report.
pub struct ReportView {
    pub artifact_name: Seq<char>,
    pub results: Seq<GroupView>,
}

/// The text of an optional string.
pub open spec fn text_view(t: Option<String>) -> Option<Seq<char>> {
    match t {
        Some(s) => Some(s@),
        None => None,
    }
}

/// The values of a list of findings, in order.
pub open spec fn findings_view(items: Seq<Vulnerabilities>) -> Seq<FindingView> {
    items.map_values(|f: Vulnerabilities| f@)
}

/// The values of a list of targets, in order.
pub open spec fn groups_view(items: Seq<Results>) -> Seq<GroupView> {
    items.map_values(|g: Results| g@)
}

impl View for Vulnerabilities {
    type V = FindingView;

    open spec fn view(&self) -> FindingView {
        FindingView {
            vulnerability_id: text_view(self.vulnerability_id),
            severity: text_view(self.severity),
            title: text_view(self.title),
            description: text_view(self.description),
            severity_source: text_view(self.severity_source),
            pkg_name: text_view(self.pkg_name),
            installed_version: text_view(self.installed_version),
            fixed_version: text_view(self.fixed_version),
        }
    }
}

impl View for Results {
    type V = GroupView;

    open spec fn view(&self) -> GroupView {
        GroupView {
            target: self.target@,
            vulnerabilities: match self.vulnerabilities {
                Some(v) => Some(findings_view(v@)),
                None => None,
            },
        }
    }
}

impl View for Trivy {
    type V = ReportView;

    open spec fn view(&self) -> ReportView {
        ReportView { artifact_name: self.artifact_name@, results: groups_view(self.results@) }
    }
}

} // verus!
