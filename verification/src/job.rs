//! Job descriptors and the per-job error taxonomy.

use vstd::prelude::*;

verus! {

/// One generation task: which workbook and worksheet to read, which three
/// header names to bind (field name, field type, remark, in that order),
/// and the namespace, class name and output path of the generated text.
pub struct Input {
    pub headers: Vec<String>,
    pub work_sheet_name: String,
    pub class_name: String,
    pub in_path: String,
    pub out_path: String,
    pub namespace: String,
}

impl Input {
    /// A job is well formed when it declares exactly three header names
    /// and every other field is non-empty.
    pub open spec fn wf(&self) -> bool {
        &&& self.headers@.len() == 3
        &&& self.work_sheet_name@.len() > 0
        &&& self.class_name@.len() > 0
        &&& self.in_path@.len() > 0
        &&& self.out_path@.len() > 0
        &&& self.namespace@.len() > 0
    }
}

/// Checks the job invariant: exactly three declared headers, no empty field.
pub fn validate_input(job: &Input) -> (r: bool)
    ensures
        r == job.wf(),
{
    job.headers.len() == 3 && !job.work_sheet_name.as_str().is_empty()
        && !job.class_name.as_str().is_empty() && !job.in_path.as_str().is_empty()
        && !job.out_path.as_str().is_empty() && !job.namespace.as_str().is_empty()
}

/// What can go wrong while one job runs. The workbook, sheet-lookup,
/// render and output variants are raised by the surrounding program at its
/// I/O boundaries; `Validation` is raised here when a row cannot supply the
/// three required values. `row` is the offending row's position in the
/// sheet, the header row being row 0; `found` is how many values the row
/// yielded before it fell short.
#[derive(Clone, Copy, Debug, PartialEq, Eq, Structural)]
pub enum JobError {
    WorkbookOpen,
    SheetNotFound,
    Validation { row: usize, found: usize },
    Render,
    OutputIo,
}

} // verus!
