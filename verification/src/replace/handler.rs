//! Running the replace command over a whole report.

use vstd::prelude::*;

use crate::text::{join_strs, i64_to_decimal, signed_decimal_spec};

verus! {

/// The working directory of a replace run started at `timestamp_millis`
/// (milliseconds since the Unix epoch): `rep-<millis>`.
pub fn replace_folder_name(timestamp_millis: i64) -> (res: String)
    ensures
        res@ == "rep-"@ + signed_decimal_spec(timestamp_millis as int),
{
    join_strs("rep-", i64_to_decimal(timestamp_millis).as_str())
}

} // verus!
