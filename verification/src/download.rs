//! Downloading the archive: where it is written and which responses count
//! as a failed transport. Fetching and writing are the caller's part.

use vstd::prelude::*;

use crate::error::{Stage4Error, Stage4ErrorView};
use crate::extract::unit_result_view;

verus! {

/// The local file that the archive is written to.
pub const ARCHIVE_FILE: &'static str = "stage4.tar";

/// Whether an HTTP status is in the success range, 200 to 299.
pub open spec fn is_success_status(status: u16) -> bool {
    200 <= status <= 299
}

/// The verdict on a response before its body is written: a status outside
/// the success range is a transport failure.
pub open spec fn spec_check_status(status: u16) -> Result<(), Stage4ErrorView> {
    if is_success_status(status) {
        Ok(())
    } else {
        Err(Stage4ErrorView::HttpStatus(status))
    }
}

/// Judges the status of a response. The body of a response that fails here
/// must not be written to the archive file.
pub fn check_status(status: u16) -> (r: Result<(), Stage4Error>)
    ensures
        unit_result_view(r) == spec_check_status(status),
        r is Ok <==> 200 <= status <= 299,
{
    if 200 <= status && status <= 299 {
        Ok(())
    } else {
        Err(Stage4Error::HttpStatus(status))
    }
}

} // verus!
