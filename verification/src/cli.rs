//! The command line's single option, as a plain value.

use vstd::prelude::*;

verus! {

/// The arguments of one session: the image to scan.
#[derive(Debug)]
pub struct Args {
    pub image_name: String,
}

} // verus!
