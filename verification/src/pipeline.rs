//! One job's whole extraction-and-projection pipeline, and the run
//! summary.
//!
//! The pipeline takes the sheet's rows as plain text (row 0 is the header
//! row), binds the job's three declared header names to columns, projects
//! the data rows, and renders the surviving triples. The surrounding
//! program opens workbooks, feeds each job's rows through here, and writes
//! the returned text to the job's output path.

use vstd::prelude::*;
use crate::headers::bind_columns;
use crate::headers::find_column;
use crate::headers::spec_bind;
use crate::headers::spec_find;
use crate::job::Input;
use crate::job::JobError;
use crate::rows::project_rows;
use crate::rows::spec_project;
use crate::rows::TripleV;
use crate::render::render;
use crate::render::spec_render;

verus! {

/// How many of the three declared header names head some column.
pub open spec fn spec_bound_count(row: Seq<Seq<char>>, declared: Seq<Seq<char>>) -> nat {
    (if spec_find(row, declared[0]) is Some {
        1nat
    } else {
        0nat
    }) + (if spec_find(row, declared[1]) is Some {
        1nat
    } else {
        0nat
    }) + (if spec_find(row, declared[2]) is Some {
        1nat
    } else {
        0nat
    })
}

/// The outcome one job owes for one sheet: the rendered text, or the
/// validation failure (row index and value count) that stops the job. A
/// sheet without a header row, or whose header row does not supply a
/// column for every declared name, fails at row 0 with the number of
/// names that were found.
pub open spec fn spec_process(
    declared: Seq<Seq<char>>,
    namespace: Seq<char>,
    class_name: Seq<char>,
    rows: Seq<Seq<Seq<char>>>,
) -> Result<Seq<char>, (int, nat)> {
    if rows.len() == 0 {
        Err((0, 0))
    } else {
        match spec_bind(rows[0], declared) {
            None => Err((0, spec_bound_count(rows[0], declared))),
            Some(c) => match spec_project(rows, c, 1) {
                Ok(ts) => Ok(spec_render(namespace, class_name, ts)),
                Err(e) => Err(e),
            },
        }
    }
}

/// Runs one job over its sheet's rows (`rows[0]` is the header row).
/// Binds the declared header names to columns — each role takes the
/// leftmost matching column, and the binding must be complete before any
/// data row is read — then projects the data rows and renders the
/// triples. Returns exactly what `spec_process` prescribes: the rendered
/// text, or a `Validation` error naming the offending row.
pub fn process_sheet(job: &Input, rows: &Vec<Vec<String>>) -> (r: Result<String, JobError>)
    requires
        job.wf(),
    ensures
        match r {
            Ok(text) => spec_process(
                job.headers.deep_view(),
                job.namespace@,
                job.class_name@,
                rows.deep_view(),
            ) == Ok::<_, (int, nat)>(text@),
            Err(e) => match spec_process(
                job.headers.deep_view(),
                job.namespace@,
                job.class_name@,
                rows.deep_view(),
            ) {
                Err(p) => e == (JobError::Validation { row: p.0 as usize, found: p.1 as usize }),
                Ok(_) => false,
            },
        },
{
    if rows.len() == 0 {
        return Err(JobError::Validation { row: 0, found: 0 });
    }
    let header_row = &rows[0];
    assert(header_row.deep_view() == rows.deep_view()[0]);
    match bind_columns(header_row, &job.headers) {
        Some(c) => match project_rows(rows, c) {
            Ok(ts) => Ok(render(&job.namespace, &job.class_name, &ts)),
            Err(e) => Err(e),
        },
        None => {
            let mut found: usize = 0;
            if find_column(header_row, &job.headers[0]).is_some() {
                found += 1;
            }
            if find_column(header_row, &job.headers[1]).is_some() {
                found += 1;
            }
            if find_column(header_row, &job.headers[2]).is_some() {
                found += 1;
            }
            Err(JobError::Validation { row: 0, found })
        },
    }
}

/// Generation is deterministic: two successful runs of the pipeline on
/// the same job and the same sheet contents yield character-identical
/// text, so writing it verbatim twice leaves byte-identical files.
pub proof fn lemma_generation_deterministic(
    declared: Seq<Seq<char>>,
    namespace: Seq<char>,
    class_name: Seq<char>,
    rows: Seq<Seq<Seq<char>>>,
    t1: Seq<char>,
    t2: Seq<char>,
)
    requires
        spec_process(declared, namespace, class_name, rows) == Ok::<_, (int, nat)>(t1),
        spec_process(declared, namespace, class_name, rows) == Ok::<_, (int, nat)>(t2),
    ensures
        t1 == t2,
{
}

/// Whether every job of a run succeeded; the process exit status rests on
/// this.
pub fn all_succeeded(outcomes: &Vec<bool>) -> (r: bool)
    ensures
        r == forall|i: int| 0 <= i < outcomes@.len() ==> outcomes@[i],
{
    let mut i: usize = 0;
    while i < outcomes.len()
        invariant
            i <= outcomes@.len(),
            forall|j: int| 0 <= j < i ==> outcomes@[j],
        decreases outcomes@.len() - i,
    {
        if !outcomes[i] {
            return false;
        }
        i += 1;
    }
    true
}

} // verus!
