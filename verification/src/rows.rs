//! The table's rows: a report flattened into one addressable list.
//!
//! Each group that has findings gives a spacer, a header with the group's
//! target, a spacer, and then one row per finding, in the report's order. A
//! group without findings gives nothing.

use vstd::prelude::*;
use crate::trivy::{ReportView, Trivy, Vulnerabilities};

verus! {

/// One line of the table. Only a `Finding` row stands for a record: it holds
/// the position of its group in the report and of the finding in the group.
#[derive(Debug, PartialEq, Eq)]
pub enum Row {
    Spacer,
    GroupHeader(String),
    Finding { group: usize, item: usize },
}

/// Mathematical value of a row.
pub enum RowView {
    Spacer,
    GroupHeader(Seq<char>),
    Finding { group: int, item: int },
}

impl View for Row {
    type V = RowView;

    open spec fn view(&self) -> RowView {
        match *self {
            Row::Spacer => RowView::Spacer,
            Row::GroupHeader(t) => RowView::GroupHeader(t@),
            Row::Finding { group, item } => RowView::Finding { group: group as int, item: item as int },
        }
    }
}

/// The values of a list of rows, in order.
pub open spec fn rows_view(rows: Seq<Row>) -> Seq<RowView> {
    rows.map_values(|r: Row| r@)
}

/// The three rows that open a group.
pub open spec fn heading_rows(target: Seq<char>) -> Seq<RowView> {
    seq![RowView::Spacer, RowView::GroupHeader(target), RowView::Spacer]
}

/// The first `n` finding rows of group `g`.
pub open spec fn finding_rows(g: int, n: int) -> Seq<RowView> {
    Seq::new(n as nat, |i: int| RowView::Finding { group: g, item: i })
}

/// The rows of group `g` of a report.
pub open spec fn group_rows(report: ReportView, g: int) -> Seq<RowView> {
    match report.results[g].vulnerabilities {
        Some(items) => if items.len() > 0 {
            heading_rows(report.results[g].target) + finding_rows(g, items.len() as int)
        } else {
            Seq::empty()
        },
        None => Seq::empty(),
    }
}

/// The rows of the first `n` groups of a report.
pub open spec fn rows_upto(report: ReportView, n: int) -> Seq<RowView>
    decreases n,
{
    if n <= 0 {
        Seq::empty()
    } else {
        rows_upto(report, n - 1) + group_rows(report, n - 1)
    }
}

/// The rows of a report.
pub open spec fn flat_rows(report: ReportView) -> Seq<RowView> {
    rows_upto(report, report.results.len() as int)
}

/// Whether a row points at a finding that the report holds.
pub open spec fn resolves(report: ReportView, row: RowView) -> bool {
    match row {
        RowView::Finding { group, item } => {
            &&& 0 <= group < report.results.len()
            &&& report.results[group].vulnerabilities is Some
            &&& 0 <= item < report.results[group].vulnerabilities.unwrap().len()
        },
        _ => false,
    }
}

/// Flattens a report into its rows.
pub fn flatten(report: &Trivy) -> (rows: Vec<Row>)
    ensures
        rows_view(rows@) == flat_rows(report@),
{
    let mut rows: Vec<Row> = Vec::new();
    let mut g: usize = 0;
    assert(rows_view(rows@) =~= rows_upto(report@, 0));
    while g < report.results.len()
        invariant
            g <= report.results.len(),
            rows_view(rows@) == rows_upto(report@, g as int),
        decreases report.results.len() - g,
    {
        let group = &report.results[g];
        assert(report@.results[g as int] == group@);
        match &group.vulnerabilities {
            Some(items) => {
                if items.len() > 0 {
                    let ghost before = rows_view(rows@);
                    rows.push(Row::Spacer);
                    rows.push(Row::GroupHeader(group.target.clone()));
                    rows.push(Row::Spacer);
                    assert(rows_view(rows@) =~= before + heading_rows(group@.target)
                        + finding_rows(g as int, 0));
                    let mut i: usize = 0;
                    while i < items.len()
                        invariant
                            i <= items.len(),
                            rows_view(rows@) == before + heading_rows(group@.target)
                                + finding_rows(g as int, i as int),
                        decreases items.len() - i,
                    {
                        let ghost was = rows_view(rows@);
                        rows.push(Row::Finding { group: g, item: i });
                        assert(rows_view(rows@) =~= was.push(
                            RowView::Finding { group: g as int, item: i as int },
                        ));
                        assert(finding_rows(g as int, i + 1) =~= finding_rows(g as int, i as int).push(
                            RowView::Finding { group: g as int, item: i as int },
                        ));
                        i += 1;
                    }
                    assert(rows_view(rows@) =~= before + (heading_rows(group@.target)
                        + finding_rows(g as int, items.len() as int)));
                } else {
                    assert(rows_view(rows@) =~= rows_view(rows@) + Seq::<RowView>::empty());
                }
            },
            None => {
                assert(rows_view(rows@) =~= rows_view(rows@) + Seq::<RowView>::empty());
            },
        }
        g += 1;
    }
    rows
}

/// The finding that a row points at, if the row is a finding row of this
/// report. A spacer or a header never holds one.
pub fn finding_at<'a>(report: &'a Trivy, row: &Row) -> (r: Option<&'a Vulnerabilities>)
    ensures
        match r {
            Some(f) => resolves(report@, row@) && f@ == report@.results[row@->group].vulnerabilities.unwrap()[row@->item],
            None => !resolves(report@, row@),
        },
{
    match row {
        Row::Finding { group, item } => {
            if *group < report.results.len() {
                let g = &report.results[*group];
                assert(report@.results[*group as int] == g@);
                match &g.vulnerabilities {
                    Some(items) => {
                        if *item < items.len() {
                            Some(&items[*item])
                        } else {
                            None
                        }
                    },
                    None => None,
                }
            } else {
                None
            }
        },
        _ => None,
    }
}

proof fn rows_grow(report: ReportView, m: int, n: int)
    requires
        0 <= m <= n,
    ensures
        rows_upto(report, m).is_prefix_of(rows_upto(report, n)),
    decreases n - m,
{
    if m < n {
        rows_grow(report, m, n - 1);
    }
}

/// Where a finding stands in the table: after the rows of the groups before
/// its own and the three heading rows of its group, at its place in the
/// group. The row there points back at that finding.
pub proof fn finding_has_its_row(report: ReportView, g: int, i: int)
    requires
        0 <= g < report.results.len(),
        report.results[g].vulnerabilities is Some,
        0 <= i < report.results[g].vulnerabilities.unwrap().len(),
    ensures
        rows_upto(report, g).len() + 3 + i < flat_rows(report).len(),
        flat_rows(report)[rows_upto(report, g).len() + 3 + i] == (RowView::Finding {
            group: g,
            item: i,
        }),
{
    let before = rows_upto(report, g);
    let own = group_rows(report, g);
    assert(own[3 + i] == (RowView::Finding { group: g, item: i }));
    assert(rows_upto(report, g + 1)[before.len() + 3 + i] == own[3 + i]);
    rows_grow(report, g + 1, report.results.len() as int);
}

/// A table that has rows opens with a spacer, a header and a spacer, and its
/// fourth row is a finding row: the row at which a selection starts.
pub proof fn table_opens_with_a_heading(report: ReportView, n: int)
    requires
        0 <= n <= report.results.len(),
        rows_upto(report, n).len() > 0,
    ensures
        rows_upto(report, n).len() >= 4,
        rows_upto(report, n)[0] is Spacer,
        rows_upto(report, n)[1] is GroupHeader,
        rows_upto(report, n)[2] is Spacer,
        rows_upto(report, n)[3] is Finding,
    decreases n,
{
    if n > 0 {
        let before = rows_upto(report, n - 1);
        if before.len() > 0 {
            table_opens_with_a_heading(report, n - 1);
        } else {
            let own = group_rows(report, n - 1);
            assert(rows_upto(report, n) =~= own);
            assert(own[3] is Finding);
        }
    }
}

/// A group without findings, whether its list is absent or empty, emits no
/// row: the rows up to and including it are the rows before it.
pub proof fn empty_group_emits_nothing(report: ReportView, g: int)
    requires
        0 <= g < report.results.len(),
        match report.results[g].vulnerabilities {
            Some(items) => items.len() == 0,
            None => true,
        },
    ensures
        group_rows(report, g) == Seq::<RowView>::empty(),
        rows_upto(report, g + 1) == rows_upto(report, g),
{
    assert(rows_upto(report, g + 1) =~= rows_upto(report, g));
}

/// A report without any finding flattens to no row at all.
pub proof fn no_findings_no_rows(report: ReportView, n: int)
    requires
        0 <= n <= report.results.len(),
        forall|g: int|
            0 <= g < n ==> match (#[trigger] report.results[g]).vulnerabilities {
                Some(items) => items.len() == 0,
                None => true,
            },
    ensures
        rows_upto(report, n) == Seq::<RowView>::empty(),
    decreases n,
{
    if n > 0 {
        no_findings_no_rows(report, n - 1);
        empty_group_emits_nothing(report, n - 1);
    }
}

/// Flattening is a function of the report's value: two flattenings of equal
/// reports are the same sequence of rows.
pub proof fn flatten_is_deterministic(a: Trivy, b: Trivy, rows_a: Seq<Row>, rows_b: Seq<Row>)
    requires
        a@ == b@,
        rows_view(rows_a) == flat_rows(a@),
        rows_view(rows_b) == flat_rows(b@),
    ensures
        rows_view(rows_a) == rows_view(rows_b),
        rows_a.len() == rows_b.len(),
{
    assert(rows_view(rows_a).len() == rows_a.len());
    assert(rows_view(rows_b).len() == rows_b.len());
}

/// Every row among those of the first `n` groups is a spacer, a header, or a
/// finding row that points at a finding of the report.
pub proof fn finding_rows_resolve(report: ReportView, n: int, k: int)
    requires
        0 <= n <= report.results.len(),
        0 <= k < rows_upto(report, n).len(),
    ensures
        rows_upto(report, n)[k] is Finding ==> resolves(report, rows_upto(report, n)[k]),
    decreases n,
{
    if n > 0 {
        let before = rows_upto(report, n - 1);
        if k < before.len() {
            finding_rows_resolve(report, n - 1, k);
        } else {
            let row = group_rows(report, n - 1)[k - before.len()];
            assert(rows_upto(report, n)[k] == row);
        }
    }
}

} // verus!
