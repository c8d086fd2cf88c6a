//! The colours of the table: by severity, and by which pane has the focus.

use vstd::prelude::*;

verus! {

/// A foreground colour of the viewer's palette.
#[derive(Debug, Clone, Copy, PartialEq, Eq, Structural)]
pub enum Paint {
    Red,
    Yellow,
    Blue,
    Green,
    White,
}

/// The colour of a severity: red for `CRITICAL`, yellow for `HIGH`, blue for
/// `MEDIUM`, green for `LOW`, white for any other text.
pub open spec fn severity_paint(severity: Seq<char>) -> Paint {
    if severity == "CRITICAL"@ {
        Paint::Red
    } else if severity == "HIGH"@ {
        Paint::Yellow
    } else if severity == "MEDIUM"@ {
        Paint::Blue
    } else if severity == "LOW"@ {
        Paint::Green
    } else {
        Paint::White
    }
}

/// The colour of the table by focus: white while the popup covers it, green
/// while it has the focus.
pub open spec fn focus_paint(popup: bool) -> Paint {
    if popup {
        Paint::White
    } else {
        Paint::Green
    }
}

fn same_text(a: &String, b: &str) -> (r: bool)
    ensures
        r == (a@ == b@),
{
    let other: String = b.to_owned();
    *a == other
}

/// The colour in which a severity is shown.
pub fn critical_color(critical: String) -> (paint: Paint)
    ensures
        paint == severity_paint(critical@),
{
    if same_text(&critical, "CRITICAL") {
        Paint::Red
    } else if same_text(&critical, "HIGH") {
        Paint::Yellow
    } else if same_text(&critical, "MEDIUM") {
        Paint::Blue
    } else if same_text(&critical, "LOW") {
        Paint::Green
    } else {
        Paint::White
    }
}

/// The colour of the table, by whether the popup is open.
pub fn check_focus(popup: bool) -> (paint: Paint)
    ensures
        paint == focus_paint(popup),
{
    if popup {
        Paint::White
    } else {
        Paint::Green
    }
}

/// The four severities have four different colours, and none of them is the
/// colour of unknown text.
pub proof fn known_severities_differ()
    ensures
        severity_paint("CRITICAL"@) == Paint::Red,
        severity_paint("HIGH"@) == Paint::Yellow,
        severity_paint("MEDIUM"@) == Paint::Blue,
        severity_paint("LOW"@) == Paint::Green,
        severity_paint("None"@) == Paint::White,
{
    reveal_strlit("CRITICAL");
    reveal_strlit("HIGH");
    reveal_strlit("MEDIUM");
    reveal_strlit("LOW");
    reveal_strlit("None");
    assert("None"@[0] == 'N' && "HIGH"@[0] == 'H');
    assert("CRITICAL"@.len() == 8 && "HIGH"@.len() == 4 && "MEDIUM"@.len() == 6 && "LOW"@.len() == 3);
}

} // verus!
