//! The detail view of one finding: a labeled block for each field that the
//! finding has, in a fixed order, and nothing for a field that it lacks.

use vstd::prelude::*;
use crate::trivy::{text_view, FindingView, Vulnerabilities};

verus! {

/// One piece of the detail view.
#[derive(Debug, PartialEq, Eq)]
pub enum DisplayBlock {
    /// A blank line between sections.
    Separator,
    /// A field of the finding under its label.
    Section { label: String, body: String },
}

/// Mathematical value of a block.
pub enum BlockView {
    Separator,
    Section { label: Seq<char>, body: Seq<char> },
}

impl View for DisplayBlock {
    type V = BlockView;

    open spec fn view(&self) -> BlockView {
        match *self {
            DisplayBlock::Separator => BlockView::Separator,
            DisplayBlock::Section { label, body } => BlockView::Section {
                label: label@,
                body: body@,
            },
        }
    }
}

/// The values of a list of blocks, in order.
pub open spec fn blocks_view(blocks: Seq<DisplayBlock>) -> Seq<BlockView> {
    blocks.map_values(|b: DisplayBlock| b@)
}

/// The blocks of one field: its section where it is present, nothing where it
/// is absent.
pub open spec fn field_blocks(label: Seq<char>, value: Option<Seq<char>>) -> Seq<BlockView> {
    match value {
        Some(body) => seq![BlockView::Section { label, body }],
        None => Seq::empty(),
    }
}

/// The detail view of a finding.
pub open spec fn detail_blocks(f: FindingView) -> Seq<BlockView> {
    field_blocks("Title"@, f.title) + field_blocks("Description"@, f.description) + field_blocks(
        "Vulnerability ID"@,
        f.vulnerability_id,
    ) + field_blocks("Severity"@, f.severity) + field_blocks(
        "Severity Source"@,
        f.severity_source,
    ) + field_blocks("Package Name"@, f.pkg_name) + field_blocks(
        "Installed Version"@,
        f.installed_version,
    ) + field_blocks("Fixed Version"@, f.fixed_version)
}

/// One for a field that is present, zero for one that is absent.
pub open spec fn present(value: Option<Seq<char>>) -> nat {
    if value is Some {
        1
    } else {
        0
    }
}

/// How many of a finding's fields are present.
pub open spec fn present_fields(f: FindingView) -> nat {
    present(f.title) + present(f.description) + present(f.vulnerability_id) + present(f.severity)
        + present(f.severity_source) + present(f.pkg_name) + present(f.installed_version)
        + present(f.fixed_version)
}

/// Whether some block carries the label.
pub open spec fn has_label(blocks: Seq<BlockView>, label: Seq<char>) -> bool {
    exists|k: int| 0 <= k < blocks.len() && #[trigger] blocks[k] is Section && blocks[k]->label == label
}

fn push_field(out: &mut Vec<DisplayBlock>, label: &str, value: &Option<String>)
    ensures
        blocks_view(final(out)@) == blocks_view(old(out)@) + field_blocks(label@, text_view(*value)),
{
    let ghost before = blocks_view(out@);
    match value {
        Some(body) => {
            out.push(DisplayBlock::Section { label: label.to_owned(), body: body.clone() });
            assert(blocks_view(out@) =~= before + field_blocks(label@, text_view(*value)));
        },
        None => {
            assert(blocks_view(out@) =~= before + field_blocks(label@, text_view(*value)));
        },
    }
}

/// Builds the detail view of a finding: for each field that is present a
/// section with the field's label and value, in the order title, description,
/// vulnerability id, severity, severity source, package name, installed
/// version, fixed version.
pub fn build_detail(finding: &Vulnerabilities) -> (blocks: Vec<DisplayBlock>)
    ensures
        blocks_view(blocks@) == detail_blocks(finding@),
{
    let mut out: Vec<DisplayBlock> = Vec::new();
    assert(blocks_view(out@) =~= Seq::<BlockView>::empty());
    push_field(&mut out, "Title", &finding.title);
    push_field(&mut out, "Description", &finding.description);
    push_field(&mut out, "Vulnerability ID", &finding.vulnerability_id);
    push_field(&mut out, "Severity", &finding.severity);
    push_field(&mut out, "Severity Source", &finding.severity_source);
    push_field(&mut out, "Package Name", &finding.pkg_name);
    push_field(&mut out, "Installed Version", &finding.installed_version);
    push_field(&mut out, "Fixed Version", &finding.fixed_version);
    assert(blocks_view(out@) =~= detail_blocks(finding@));
    out
}

/// The detail view has exactly one block for each field that is present, and
/// every block is a section under one of the eight labels: none is a
/// separator, and none has an empty label.
pub proof fn detail_has_one_section_per_present_field(f: FindingView, k: int)
    requires
        0 <= k < detail_blocks(f).len(),
    ensures
        detail_blocks(f).len() == present_fields(f),
        detail_blocks(f).len() <= 8,
        detail_blocks(f)[k] is Section,
        detail_blocks(f)[k]->label.len() > 0,
{
    labels_differ();
}

proof fn label_in_concat(a: Seq<BlockView>, b: Seq<BlockView>, label: Seq<char>)
    ensures
        has_label(a + b, label) ==> has_label(a, label) || has_label(b, label),
{
    if has_label(a + b, label) {
        let k = choose|k: int|
            0 <= k < (a + b).len() && #[trigger] (a + b)[k] is Section && (a + b)[k]->label
                == label;
        if k < a.len() {
            assert(a[k] is Section && a[k]->label == label);
        } else {
            assert(b[k - a.len()] is Section && b[k - a.len()]->label == label);
        }
    }
}

proof fn label_in_field(own: Seq<char>, value: Option<Seq<char>>, label: Seq<char>)
    ensures
        has_label(field_blocks(own, value), label) ==> value is Some && own == label,
{
}

/// A label that occurs in the detail view is the label of a field that is
/// present.
pub proof fn label_needs_present_field(f: FindingView, label: Seq<char>)
    requires
        has_label(detail_blocks(f), label),
    ensures
        (label == "Title"@ && f.title is Some) || (label == "Description"@ && f.description is Some)
            || (label == "Vulnerability ID"@ && f.vulnerability_id is Some) || (label
            == "Severity"@ && f.severity is Some) || (label == "Severity Source"@
            && f.severity_source is Some) || (label == "Package Name"@ && f.pkg_name is Some) || (
        label == "Installed Version"@ && f.installed_version is Some) || (label
            == "Fixed Version"@ && f.fixed_version is Some),
{
    let b1 = field_blocks("Title"@, f.title);
    let b2 = field_blocks("Description"@, f.description);
    let b3 = field_blocks("Vulnerability ID"@, f.vulnerability_id);
    let b4 = field_blocks("Severity"@, f.severity);
    let b5 = field_blocks("Severity Source"@, f.severity_source);
    let b6 = field_blocks("Package Name"@, f.pkg_name);
    let b7 = field_blocks("Installed Version"@, f.installed_version);
    let b8 = field_blocks("Fixed Version"@, f.fixed_version);
    label_in_concat(b1 + b2 + b3 + b4 + b5 + b6 + b7, b8, label);
    label_in_concat(b1 + b2 + b3 + b4 + b5 + b6, b7, label);
    label_in_concat(b1 + b2 + b3 + b4 + b5, b6, label);
    label_in_concat(b1 + b2 + b3 + b4, b5, label);
    label_in_concat(b1 + b2 + b3, b4, label);
    label_in_concat(b1 + b2, b3, label);
    label_in_concat(b1, b2, label);
    label_in_field("Title"@, f.title, label);
    label_in_field("Description"@, f.description, label);
    label_in_field("Vulnerability ID"@, f.vulnerability_id, label);
    label_in_field("Severity"@, f.severity, label);
    label_in_field("Severity Source"@, f.severity_source, label);
    label_in_field("Package Name"@, f.pkg_name, label);
    label_in_field("Installed Version"@, f.installed_version, label);
    label_in_field("Fixed Version"@, f.fixed_version, label);
}

proof fn labels_differ()
    ensures
        "Title"@.len() == 5,
        "Description"@.len() == 11,
        "Vulnerability ID"@.len() == 16,
        "Severity"@.len() == 8,
        "Severity Source"@.len() == 15,
        "Package Name"@.len() == 12,
        "Installed Version"@.len() == 17,
        "Fixed Version"@.len() == 13,
{
    reveal_strlit("Title");
    reveal_strlit("Description");
    reveal_strlit("Vulnerability ID");
    reveal_strlit("Severity");
    reveal_strlit("Severity Source");
    reveal_strlit("Package Name");
    reveal_strlit("Installed Version");
    reveal_strlit("Fixed Version");
}

/// A field that is absent leaves no block behind: no block of the detail view
/// carries the label of an absent field.
pub proof fn absent_field_has_no_block(f: FindingView)
    ensures
        f.title is None ==> !has_label(detail_blocks(f), "Title"@),
        f.description is None ==> !has_label(detail_blocks(f), "Description"@),
        f.vulnerability_id is None ==> !has_label(detail_blocks(f), "Vulnerability ID"@),
        f.severity is None ==> !has_label(detail_blocks(f), "Severity"@),
        f.severity_source is None ==> !has_label(detail_blocks(f), "Severity Source"@),
        f.pkg_name is None ==> !has_label(detail_blocks(f), "Package Name"@),
        f.installed_version is None ==> !has_label(detail_blocks(f), "Installed Version"@),
        f.fixed_version is None ==> !has_label(detail_blocks(f), "Fixed Version"@),
{
    labels_differ();
    if has_label(detail_blocks(f), "Title"@) {
        label_needs_present_field(f, "Title"@);
    }
    if has_label(detail_blocks(f), "Description"@) {
        label_needs_present_field(f, "Description"@);
    }
    if has_label(detail_blocks(f), "Vulnerability ID"@) {
        label_needs_present_field(f, "Vulnerability ID"@);
    }
    if has_label(detail_blocks(f), "Severity"@) {
        label_needs_present_field(f, "Severity"@);
    }
    if has_label(detail_blocks(f), "Severity Source"@) {
        label_needs_present_field(f, "Severity Source"@);
    }
    if has_label(detail_blocks(f), "Package Name"@) {
        label_needs_present_field(f, "Package Name"@);
    }
    if has_label(detail_blocks(f), "Installed Version"@) {
        label_needs_present_field(f, "Installed Version"@);
    }
    if has_label(detail_blocks(f), "Fixed Version"@) {
        label_needs_present_field(f, "Fixed Version"@);
    }
}

/// Whether some block is the section with this label and this body.
pub open spec fn has_section(blocks: Seq<BlockView>, label: Seq<char>, body: Seq<char>) -> bool {
    exists|k: int| 0 <= k < blocks.len() && #[trigger] blocks[k] == (BlockView::Section { label, body })
}

proof fn section_in_concat(a: Seq<BlockView>, b: Seq<BlockView>, label: Seq<char>, body: Seq<char>)
    ensures
        has_section(a, label, body) || has_section(b, label, body) ==> has_section(
            a + b,
            label,
            body,
        ),
{
    let wanted = BlockView::Section { label, body };
    if has_section(a, label, body) {
        let k = choose|k: int| 0 <= k < a.len() && #[trigger] a[k] == wanted;
        assert((a + b)[k] == wanted);
    } else if has_section(b, label, body) {
        let k = choose|k: int| 0 <= k < b.len() && #[trigger] b[k] == wanted;
        assert((a + b)[a.len() + k] == wanted);
    }
}

proof fn section_of_field(own: Seq<char>, value: Option<Seq<char>>)
    ensures
        value is Some ==> has_section(field_blocks(own, value), own, value.unwrap()),
{
    if value is Some {
        assert(field_blocks(own, value)[0] == (BlockView::Section { label: own, body: value.unwrap() }));
    }
}

/// A field that is present has its section in the detail view, under the
/// field's label and with the field's value as body.
pub proof fn present_field_has_section(f: FindingView)
    ensures
        f.title is Some ==> has_section(detail_blocks(f), "Title"@, f.title.unwrap()),
        f.description is Some ==> has_section(
            detail_blocks(f),
            "Description"@,
            f.description.unwrap(),
        ),
        f.vulnerability_id is Some ==> has_section(
            detail_blocks(f),
            "Vulnerability ID"@,
            f.vulnerability_id.unwrap(),
        ),
        f.severity is Some ==> has_section(detail_blocks(f), "Severity"@, f.severity.unwrap()),
        f.severity_source is Some ==> has_section(
            detail_blocks(f),
            "Severity Source"@,
            f.severity_source.unwrap(),
        ),
        f.pkg_name is Some ==> has_section(detail_blocks(f), "Package Name"@, f.pkg_name.unwrap()),
        f.installed_version is Some ==> has_section(
            detail_blocks(f),
            "Installed Version"@,
            f.installed_version.unwrap(),
        ),
        f.fixed_version is Some ==> has_section(
            detail_blocks(f),
            "Fixed Version"@,
            f.fixed_version.unwrap(),
        ),
{
    let b1 = field_blocks("Title"@, f.title);
    let b2 = field_blocks("Description"@, f.description);
    let b3 = field_blocks("Vulnerability ID"@, f.vulnerability_id);
    let b4 = field_blocks("Severity"@, f.severity);
    let b5 = field_blocks("Severity Source"@, f.severity_source);
    let b6 = field_blocks("Package Name"@, f.pkg_name);
    let b7 = field_blocks("Installed Version"@, f.installed_version);
    let b8 = field_blocks("Fixed Version"@, f.fixed_version);
    section_of_field("Title"@, f.title);
    section_of_field("Description"@, f.description);
    section_of_field("Vulnerability ID"@, f.vulnerability_id);
    section_of_field("Severity"@, f.severity);
    section_of_field("Severity Source"@, f.severity_source);
    section_of_field("Package Name"@, f.pkg_name);
    section_of_field("Installed Version"@, f.installed_version);
    section_of_field("Fixed Version"@, f.fixed_version);
    assert forall|label: Seq<char>, body: Seq<char>|
        has_section(b1, label, body) || has_section(b2, label, body) || has_section(b3, label, body)
            || has_section(b4, label, body) || has_section(b5, label, body) || has_section(
            b6,
            label,
            body,
        ) || has_section(b7, label, body) || has_section(b8, label, body) implies #[trigger] has_section(
        detail_blocks(f),
        label,
        body,
    ) by {
        section_in_concat(b1, b2, label, body);
        section_in_concat(b1 + b2, b3, label, body);
        section_in_concat(b1 + b2 + b3, b4, label, body);
        section_in_concat(b1 + b2 + b3 + b4, b5, label, body);
        section_in_concat(b1 + b2 + b3 + b4 + b5, b6, label, body);
        section_in_concat(b1 + b2 + b3 + b4 + b5 + b6, b7, label, body);
        section_in_concat(b1 + b2 + b3 + b4 + b5 + b6 + b7, b8, label, body);
    }
}

/// The popup's title for a finding: `Summary for` and the finding's
/// identifier, or `Summary` alone for a finding without one.
pub open spec fn title_for(f: FindingView) -> Seq<char> {
    match f.vulnerability_id {
        Some(id) => "Summary for "@ + id,
        None => "Summary"@,
    }
}

/// The popup's title for a finding.
pub fn popup_title(finding: &Vulnerabilities) -> (title: String)
    ensures
        title@ == title_for(finding@),
{
    match &finding.vulnerability_id {
        Some(id) => "Summary for ".to_owned().concat(id.as_str()),
        None => "Summary".to_owned(),
    }
}

/// The text of a table cell: the field's value, or the word `None` for a
/// field that is absent.
pub open spec fn cell_for(value: Option<Seq<char>>) -> Seq<char> {
    match value {
        Some(s) => s,
        None => "None"@,
    }
}

/// The text of a table cell for an optional field.
pub fn cell_text(value: &Option<String>) -> (cell: String)
    ensures
        cell@ == cell_for(text_view(*value)),
{
    match value {
        Some(s) => s.clone(),
        None => "None".to_owned(),
    }
}

} // verus!
