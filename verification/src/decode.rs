//! Decoding of a JSON document into a scan report.
//!
//! A report is an object with the text member `ArtifactName` and the array
//! member `Results`. Each result is an object with the text member `Target`
//! and, optionally, the array member `Vulnerabilities`. Each vulnerability is
//! an object whose eight text members are all optional. An optional member may
//! be missing or `null`; members with other keys are ignored.

use vstd::prelude::*;
use crate::json::{find_member, member, read_document, document, Json};
use crate::trivy::{
    findings_view, groups_view, text_view, FindingView, GroupView, ReportView, Results, Trivy,
    Vulnerabilities,
};

verus! {

/// Why a payload gave no report.
#[derive(Debug, Clone, Copy, PartialEq, Eq, Structural)]
pub enum ParseError {
    /// The payload is not well-formed JSON.
    Syntax,
    /// The payload is JSON of another shape than a report's.
    Shape,
}

impl ParseError {
    /// A one-line diagnostic.
    pub fn message(&self) -> (r: &'static str)
        ensures
            r@ == match *self {
                ParseError::Syntax => "scanner output is not valid JSON"@,
                ParseError::Shape => "scanner output does not have the shape of a report"@,
            },
    {
        match self {
            ParseError::Syntax => "scanner output is not valid JSON",
            ParseError::Shape => "scanner output does not have the shape of a report",
        }
    }
}

/// Whether the member `key` can be read as optional text.
pub open spec fn optional_text_ok(fields: Seq<(String, Json)>, key: Seq<char>) -> bool {
    match member(fields, key) {
        None => true,
        Some(Json::Null) => true,
        Some(Json::Text(_)) => true,
        Some(_) => false,
    }
}

/// The optional text under `key`.
pub open spec fn optional_text_of(fields: Seq<(String, Json)>, key: Seq<char>) -> Option<Seq<char>> {
    match member(fields, key) {
        Some(Json::Text(s)) => Some(s@),
        _ => None,
    }
}

/// Whether the member `key` is there and is text.
pub open spec fn required_text_ok(fields: Seq<(String, Json)>, key: Seq<char>) -> bool {
    member(fields, key) matches Some(Json::Text(_))
}

/// The text under `key`.
pub open spec fn required_text_of(fields: Seq<(String, Json)>, key: Seq<char>) -> Seq<char> {
    match member(fields, key) {
        Some(Json::Text(s)) => s@,
        _ => Seq::empty(),
    }
}

/// Whether `j` has the shape of a finding.
pub open spec fn finding_ok(j: Json) -> bool {
    match j {
        Json::Object(fields) => {
            &&& optional_text_ok(fields@, "VulnerabilityID"@)
            &&& optional_text_ok(fields@, "Severity"@)
            &&& optional_text_ok(fields@, "Title"@)
            &&& optional_text_ok(fields@, "Description"@)
            &&& optional_text_ok(fields@, "SeveritySource"@)
            &&& optional_text_ok(fields@, "PkgName"@)
            &&& optional_text_ok(fields@, "InstalledVersion"@)
            &&& optional_text_ok(fields@, "FixedVersion"@)
        },
        _ => false,
    }
}

/// The members of an object; of another value, none.
pub open spec fn members_of(j: Json) -> Seq<(String, Json)> {
    match j {
        Json::Object(fields) => fields@,
        _ => Seq::empty(),
    }
}

/// The finding that a well-shaped `j` holds.
pub open spec fn finding_of(j: Json) -> FindingView {
    let fields = members_of(j);
    FindingView {
        vulnerability_id: optional_text_of(fields, "VulnerabilityID"@),
        severity: optional_text_of(fields, "Severity"@),
        title: optional_text_of(fields, "Title"@),
        description: optional_text_of(fields, "Description"@),
        severity_source: optional_text_of(fields, "SeveritySource"@),
        pkg_name: optional_text_of(fields, "PkgName"@),
        installed_version: optional_text_of(fields, "InstalledVersion"@),
        fixed_version: optional_text_of(fields, "FixedVersion"@),
    }
}

/// Whether every item has the shape of a finding.
pub open spec fn findings_ok(items: Seq<Json>) -> bool {
    forall|i: int| 0 <= i < items.len() ==> finding_ok(#[trigger] items[i])
}

/// The findings that well-shaped items hold, in order.
pub open spec fn findings_of(items: Seq<Json>) -> Seq<FindingView> {
    items.map_values(|j: Json| finding_of(j))
}

/// Whether `j` has the shape of a result group.
pub open spec fn group_ok(j: Json) -> bool {
    match j {
        Json::Object(fields) => {
            &&& required_text_ok(fields@, "Target"@)
            &&& match member(fields@, "Vulnerabilities"@) {
                None => true,
                Some(Json::Null) => true,
                Some(Json::Array(items)) => findings_ok(items@),
                Some(_) => false,
            }
        },
        _ => false,
    }
}

/// The result group that a well-shaped `j` holds.
pub open spec fn group_of(j: Json) -> GroupView {
    let fields = members_of(j);
    GroupView {
        target: required_text_of(fields, "Target"@),
        vulnerabilities: match member(fields, "Vulnerabilities"@) {
            Some(Json::Array(items)) => Some(findings_of(items@)),
            _ => None,
        },
    }
}

/// Whether every item has the shape of a result group.
pub open spec fn groups_ok(items: Seq<Json>) -> bool {
    forall|i: int| 0 <= i < items.len() ==> group_ok(#[trigger] items[i])
}

/// The result groups that well-shaped items hold, in order.
pub open spec fn groups_of(items: Seq<Json>) -> Seq<GroupView> {
    items.map_values(|j: Json| group_of(j))
}

/// Whether `j` has the shape of a report.
pub open spec fn report_ok(j: Json) -> bool {
    match j {
        Json::Object(fields) => {
            &&& required_text_ok(fields@, "ArtifactName"@)
            &&& match member(fields@, "Results"@) {
                Some(Json::Array(items)) => groups_ok(items@),
                _ => false,
            }
        },
        _ => false,
    }
}

/// The report that a well-shaped `j` holds.
pub open spec fn report_of(j: Json) -> ReportView {
    let fields = members_of(j);
    ReportView {
        artifact_name: required_text_of(fields, "ArtifactName"@),
        results: match member(fields, "Results"@) {
            Some(Json::Array(items)) => groups_of(items@),
            _ => Seq::empty(),
        },
    }
}

/// What decoding a document gives: its report, or the shape error.
pub open spec fn decoded(j: Json) -> Result<ReportView, ParseError> {
    if report_ok(j) {
        Ok(report_of(j))
    } else {
        Err(ParseError::Shape)
    }
}

/// What parsing a payload gives: the report of its document, the shape error
/// where the document is no report, the syntax error where there is no
/// document.
pub open spec fn parsed(bytes: Seq<u8>) -> Result<ReportView, ParseError> {
    match document(bytes) {
        Some(j) => decoded(j),
        None => Err(ParseError::Syntax),
    }
}

/// The value of a parse result.
pub open spec fn outcome_view(r: Result<Trivy, ParseError>) -> Result<ReportView, ParseError> {
    match r {
        Ok(t) => Ok(t@),
        Err(e) => Err(e),
    }
}

fn optional_text(fields: &Vec<(String, Json)>, key: &str) -> (r: Result<Option<String>, ParseError>)
    ensures
        match r {
            Ok(t) => optional_text_ok(fields@, key@) && text_view(t) == optional_text_of(
                fields@,
                key@,
            ),
            Err(e) => !optional_text_ok(fields@, key@) && e == ParseError::Shape,
        },
{
    match find_member(fields, key) {
        None => Ok(None),
        Some(Json::Null) => Ok(None),
        Some(Json::Text(s)) => Ok(Some(s.clone())),
        Some(_) => Err(ParseError::Shape),
    }
}

fn required_text(fields: &Vec<(String, Json)>, key: &str) -> (r: Result<String, ParseError>)
    ensures
        match r {
            Ok(t) => required_text_ok(fields@, key@) && t@ == required_text_of(fields@, key@),
            Err(e) => !required_text_ok(fields@, key@) && e == ParseError::Shape,
        },
{
    match find_member(fields, key) {
        Some(Json::Text(s)) => Ok(s.clone()),
        _ => Err(ParseError::Shape),
    }
}

/// Decodes one finding.
pub fn decode_finding(j: &Json) -> (r: Result<Vulnerabilities, ParseError>)
    ensures
        match r {
            Ok(f) => finding_ok(*j) && f@ == finding_of(*j),
            Err(e) => !finding_ok(*j) && e == ParseError::Shape,
        },
{
    match j {
        Json::Object(fields) => {
            let vulnerability_id = optional_text(fields, "VulnerabilityID")?;
            let severity = optional_text(fields, "Severity")?;
            let title = optional_text(fields, "Title")?;
            let description = optional_text(fields, "Description")?;
            let severity_source = optional_text(fields, "SeveritySource")?;
            let pkg_name = optional_text(fields, "PkgName")?;
            let installed_version = optional_text(fields, "InstalledVersion")?;
            let fixed_version = optional_text(fields, "FixedVersion")?;
            Ok(
                Vulnerabilities {
                    vulnerability_id,
                    severity,
                    title,
                    description,
                    severity_source,
                    pkg_name,
                    installed_version,
                    fixed_version,
                },
            )
        },
        _ => Err(ParseError::Shape),
    }
}

fn decode_findings(items: &Vec<Json>) -> (r: Result<Vec<Vulnerabilities>, ParseError>)
    ensures
        match r {
            Ok(v) => findings_ok(items@) && findings_view(v@) == findings_of(items@),
            Err(e) => !findings_ok(items@) && e == ParseError::Shape,
        },
{
    let mut out: Vec<Vulnerabilities> = Vec::new();
    let mut i: usize = 0;
    while i < items.len()
        invariant
            i <= items.len(),
            out.len() == i,
            forall|k: int| 0 <= k < i ==> finding_ok(#[trigger] items[k]),
            forall|k: int| 0 <= k < i ==> (#[trigger] out[k])@ == finding_of(items[k]),
        decreases items.len() - i,
    {
        match decode_finding(&items[i]) {
            Ok(f) => {
                out.push(f);
            },
            Err(e) => {
                return Err(e);
            },
        }
        i += 1;
    }
    assert(findings_view(out@) =~= findings_of(items@));
    Ok(out)
}

/// Decodes one result group.
pub fn decode_group(j: &Json) -> (r: Result<Results, ParseError>)
    ensures
        match r {
            Ok(g) => group_ok(*j) && g@ == group_of(*j),
            Err(e) => !group_ok(*j) && e == ParseError::Shape,
        },
{
    match j {
        Json::Object(fields) => {
            let target = required_text(fields, "Target")?;
            let vulnerabilities = match find_member(fields, "Vulnerabilities") {
                None => None,
                Some(Json::Null) => None,
                Some(Json::Array(items)) => Some(decode_findings(items)?),
                Some(_) => {
                    return Err(ParseError::Shape);
                },
            };
            Ok(Results { target, vulnerabilities })
        },
        _ => Err(ParseError::Shape),
    }
}

fn decode_groups(items: &Vec<Json>) -> (r: Result<Vec<Results>, ParseError>)
    ensures
        match r {
            Ok(v) => groups_ok(items@) && groups_view(v@) == groups_of(items@),
            Err(e) => !groups_ok(items@) && e == ParseError::Shape,
        },
{
    let mut out: Vec<Results> = Vec::new();
    let mut i: usize = 0;
    while i < items.len()
        invariant
            i <= items.len(),
            out.len() == i,
            forall|k: int| 0 <= k < i ==> group_ok(#[trigger] items[k]),
            forall|k: int| 0 <= k < i ==> (#[trigger] out[k])@ == group_of(items[k]),
        decreases items.len() - i,
    {
        match decode_group(&items[i]) {
            Ok(g) => {
                out.push(g);
            },
            Err(e) => {
                return Err(e);
            },
        }
        i += 1;
    }
    assert(groups_view(out@) =~= groups_of(items@));
    Ok(out)
}

/// Decodes a document into a report. The document must have a report's
/// shape; a document of another shape is an error, never an empty report.
pub fn decode(j: &Json) -> (r: Result<Trivy, ParseError>)
    ensures
        outcome_view(r) == decoded(*j),
{
    match j {
        Json::Object(fields) => {
            let artifact_name = required_text(fields, "ArtifactName")?;
            match find_member(fields, "Results") {
                Some(Json::Array(items)) => {
                    let results = decode_groups(items)?;
                    Ok(Trivy { artifact_name, results })
                },
                _ => Err(ParseError::Shape),
            }
        },
        _ => Err(ParseError::Shape),
    }
}

/// Parses the scanner's output into a report.
pub fn parse(raw_json: &[u8]) -> (r: Result<Trivy, ParseError>)
    ensures
        outcome_view(r) == parsed(raw_json@),
{
    match read_document(raw_json) {
        Some(j) => decode(&j),
        None => Err(ParseError::Syntax),
    }
}

} // verus!
