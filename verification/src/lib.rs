//! Core of a terminal viewer for container-image vulnerability scans: the
//! report model and its decoding, the flattening of a report into table rows,
//! the navigation state machine and the detail view of a finding.

pub mod cli;
pub mod json;
pub mod decode;
pub mod trivy;
pub mod rows;
pub mod detail;
pub mod app;
pub mod style;
pub mod layout;
pub mod scan;
