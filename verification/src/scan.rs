//! What the scanner's run means: its arguments, and how its exit code and
//! output become a report or an error.

use vstd::prelude::*;
use crate::decode::{outcome_view, parse, parsed, ParseError};
use crate::trivy::{ReportView, Trivy};

verus! {

/// Why a scan gave no output to read.
#[derive(Debug, Clone, Copy, PartialEq, Eq, Structural)]
pub enum ScanInvocationError {
    /// The scanner could not be started.
    NotStarted,
    /// The scanner ended with a code other than zero.
    Exited(i32),
    /// The scanner ended without an exit code.
    Interrupted,
}

/// Why a session could not be loaded.
#[derive(Debug, Clone, Copy, PartialEq, Eq, Structural)]
pub enum LoadError {
    Scan(ScanInvocationError),
    Parse(ParseError),
}

impl LoadError {
    /// A one-line diagnostic.
    pub fn message(&self) -> (r: &'static str)
        ensures
            r@ == match *self {
                LoadError::Scan(ScanInvocationError::NotStarted) => "the scanner could not be started"@,
                LoadError::Scan(ScanInvocationError::Exited(_)) => "the scanner exited with an error"@,
                LoadError::Scan(ScanInvocationError::Interrupted) => "the scanner was interrupted"@,
                LoadError::Parse(ParseError::Syntax) => "scanner output is not valid JSON"@,
                LoadError::Parse(ParseError::Shape) => "scanner output does not have the shape of a report"@,
            },
    {
        match self {
            LoadError::Scan(ScanInvocationError::NotStarted) => "the scanner could not be started",
            LoadError::Scan(ScanInvocationError::Exited(_)) => "the scanner exited with an error",
            LoadError::Scan(ScanInvocationError::Interrupted) => "the scanner was interrupted",
            LoadError::Parse(e) => e.message(),
        }
    }
}

/// The scanner's arguments for an image: the image subcommand, the image
/// reference, and the request for JSON output.
pub open spec fn arguments_for(image: Seq<char>) -> Seq<Seq<char>> {
    seq!["image"@, image, "--format"@, "json"@]
}

/// The texts of a list of strings, in order.
pub open spec fn texts(items: Seq<String>) -> Seq<Seq<char>> {
    items.map_values(|s: String| s@)
}

/// The arguments with which the scanner is run on an image.
pub fn scan_arguments(image_name: &str) -> (args: Vec<String>)
    ensures
        texts(args@) == arguments_for(image_name@),
{
    let mut args: Vec<String> = Vec::new();
    args.push("image".to_owned());
    args.push(image_name.to_owned());
    args.push("--format".to_owned());
    args.push("json".to_owned());
    assert(texts(args@) =~= arguments_for(image_name@));
    args
}

/// What a finished scan gives, by its exit code: with code zero, the parse of
/// its output; with another code, or none, the matching error, whatever the
/// output holds.
pub open spec fn loaded(exit_code: Option<i32>, stdout: Seq<u8>) -> Result<ReportView, LoadError> {
    match exit_code {
        Some(code) => if code == 0 {
            match parsed(stdout) {
                Ok(report) => Ok(report),
                Err(e) => Err(LoadError::Parse(e)),
            }
        } else {
            Err(LoadError::Scan(ScanInvocationError::Exited(code)))
        },
        None => Err(LoadError::Scan(ScanInvocationError::Interrupted)),
    }
}

/// The value of a load result.
pub open spec fn load_view(r: Result<Trivy, LoadError>) -> Result<ReportView, LoadError> {
    match r {
        Ok(t) => Ok(t@),
        Err(e) => Err(e),
    }
}

/// Checks how a scan ended: only an exit with code zero is a success.
pub fn check_exit(exit_code: Option<i32>) -> (r: Result<(), ScanInvocationError>)
    ensures
        r == match exit_code {
            Some(code) => if code == 0 {
                Ok::<(), ScanInvocationError>(())
            } else {
                Err(ScanInvocationError::Exited(code))
            },
            None => Err(ScanInvocationError::Interrupted),
        },
{
    match exit_code {
        Some(code) => if code == 0 {
            Ok(())
        } else {
            Err(ScanInvocationError::Exited(code))
        },
        None => Err(ScanInvocationError::Interrupted),
    }
}

/// Turns a finished scan into a report. A scan that failed is an error even
/// where its output is empty or would parse.
pub fn load(exit_code: Option<i32>, stdout: &[u8]) -> (r: Result<Trivy, LoadError>)
    ensures
        load_view(r) == loaded(exit_code, stdout@),
{
    match check_exit(exit_code) {
        Ok(_) => match parse(stdout) {
            Ok(report) => Ok(report),
            Err(e) => Err(LoadError::Parse(e)),
        },
        Err(e) => Err(LoadError::Scan(e)),
    }
}

} // verus!
