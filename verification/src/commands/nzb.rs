use vstd::prelude::*;

use crate::error::{CliarrError, Result};
use crate::text::{chars_of, string_of};

verus! {

/// NZB actions need at least one download id.
pub fn require_ids(ids: &[i64]) -> (r: Result<()>)
    ensures
        r is Ok <==> ids@.len() > 0,
        r matches Err(e) ==> e is Other && e->Other_0@
            == "no download ids given (see `cliarr nzb list`)"@,
{
    if ids.len() == 0 {
        Err(CliarrError::Other(string_of(&chars_of("no download ids given (see `cliarr nzb list`)"))))
    } else {
        Ok(())
    }
}

} // verus!
