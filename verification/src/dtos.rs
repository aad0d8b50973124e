//! Input parameters of the `usp_sample_proc` stored procedure.
use vstd::prelude::*;

verus! {

/// Input parameters for `usp_sample_proc`.
#[derive(Debug)]
pub struct SampleProcRequestDto {
    /// `@input_id`: record identifier to look up.
    pub input_id: i32,
    /// `@input_name`: name filter passed to the procedure.
    pub input_name: String,
}

} // verus!
