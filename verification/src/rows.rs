//! Walking data rows: the sentinel skip rule, remark reformatting, and
//! fixed-arity triple assembly.
//!
//! Each data row either yields one (name, type, remark) triple, is skipped
//! as a legend row (its name cell begins with the two-character marker), or
//! fails validation because it cannot supply all three values.

use vstd::prelude::*;
use vstd::string::*;
use crate::headers::RoleColumns;
use crate::job::JobError;

verus! {

/// The fixed token every generated field is named by. The sheet's name
/// column carries documentation for the schema author, not the emitted
/// name, so its cell text is never used.
pub open spec fn name_token() -> Seq<char> {
    "string"@
}

/// Whether a cell's text begins with the two-character legend marker.
pub open spec fn is_sentinel(s: Seq<char>) -> bool {
    s.len() >= 2 && s[0] == '#' && s[1] == '#'
}

/// Tests the legend marker on a cell.
pub fn starts_with_sentinel(s: &String) -> (r: bool)
    ensures
        r == is_sentinel(s@),
{
    let st = s.as_str();
    if st.unicode_len() < 2 {
        false
    } else {
        st.get_char(0) == '#' && st.get_char(1) == '#'
    }
}

/// What one character of a cell contributes to the reformatted text: a
/// line break gains eight spaces of indentation and the doc-comment
/// continuation marker, so a multi-line remark renders as continued
/// doc-comment lines; every other character stands unchanged.
pub open spec fn expand_char(c: char) -> Seq<char> {
    if c == '\n' {
        "\n        /// "@
    } else {
        seq![c]
    }
}

/// The reformatted text of a whole cell.
pub open spec fn spec_reformat(s: Seq<char>) -> Seq<char>
    decreases s.len(),
{
    if s.len() == 0 {
        Seq::empty()
    } else {
        expand_char(s[0]) + spec_reformat(s.drop_first())
    }
}

/// Reformatting goes character by character: extending the input by one
/// character appends that character's expansion.
pub proof fn lemma_reformat_snoc(s: Seq<char>, c: char)
    ensures
        spec_reformat(s.push(c)) == spec_reformat(s) + expand_char(c),
    decreases s.len(),
{
    if s.len() == 0 {
        assert(s.push(c)[0] == c);
        assert(s.push(c).drop_first() =~= Seq::<char>::empty());
        assert(spec_reformat(Seq::<char>::empty()) == Seq::<char>::empty());
        assert(spec_reformat(s.push(c)) == expand_char(c) + Seq::<char>::empty());
        assert(expand_char(c) + Seq::<char>::empty() =~= expand_char(c));
        assert(spec_reformat(s) == Seq::<char>::empty());
        assert(spec_reformat(s) + expand_char(c) =~= expand_char(c));
    } else {
        lemma_reformat_snoc(s.drop_first(), c);
        assert(s.push(c)[0] == s[0]);
        assert(s.push(c).drop_first() =~= s.drop_first().push(c));
        assert(spec_reformat(s.push(c)) =~= spec_reformat(s) + expand_char(c));
    }
}

/// Rewrites a cell's text for doc comments: every line break is followed
/// by the fixed indentation and continuation marker.
pub fn reformat_cell(s: &String) -> (r: String)
    ensures
        r@ == spec_reformat(s@),
{
    let st = s.as_str();
    let n = st.unicode_len();
    let mut out = String::new();
    let mut i: usize = 0;
    while i < n
        invariant
            i <= n,
            n == s@.len(),
            st@ == s@,
            out@ == spec_reformat(s@.take(i as int)),
        decreases n - i,
    {
        let c = st.get_char(i);
        if c == '\n' {
            out.append("\n        /// ");
        } else {
            let piece = st.substring_char(i, i + 1);
            out.append(piece);
            assert(piece@ =~= seq![s@[i as int]]);
        }
        proof {
            lemma_reformat_snoc(s@.take(i as int), s@[i as int]);
            assert(s@.take(i as int).push(s@[i as int]) =~= s@.take(i + 1 as int));
        }
        i += 1;
    }
    proof {
        assert(s@.take(n as int) =~= s@);
    }
    out
}

/// The three texts that make one generated field declaration.
pub struct FieldTriple {
    pub name: String,
    pub field_type: String,
    pub remark: String,
}

/// The mathematical value of a triple.
pub struct TripleV {
    pub name: Seq<char>,
    pub field_type: Seq<char>,
    pub remark: Seq<char>,
}

impl View for FieldTriple {
    type V = TripleV;

    open spec fn view(&self) -> TripleV {
        TripleV { name: self.name@, field_type: self.field_type@, remark: self.remark@ }
    }
}

impl DeepView for FieldTriple {
    type V = TripleV;

    open spec fn deep_view(&self) -> TripleV {
        self.view()
    }
}

/// What one data row contributes under a role binding: nothing (legend
/// row), one triple, or too few readable values. `found` counts the values
/// the row could supply, in role order, before it fell short.
pub enum RowOutcome {
    Skip,
    Field(TripleV),
    Invalid { found: nat },
}

/// Projects one data row. The name cell is inspected first: a row whose
/// name cell carries the legend marker is skipped before anything else is
/// read. A surviving row's name value is always the fixed token; the type
/// and remark cells are reformatted for doc comments.
pub open spec fn spec_row(row: Seq<Seq<char>>, c: RoleColumns) -> RowOutcome {
    if c.name_col >= row.len() {
        RowOutcome::Invalid { found: 0 }
    } else if is_sentinel(row[c.name_col as int]) {
        RowOutcome::Skip
    } else if c.type_col >= row.len() {
        RowOutcome::Invalid { found: 1 }
    } else if c.remark_col >= row.len() {
        RowOutcome::Invalid { found: 2 }
    } else {
        RowOutcome::Field(
            TripleV {
                name: name_token(),
                field_type: spec_reformat(row[c.type_col as int]),
                remark: spec_reformat(row[c.remark_col as int]),
            },
        )
    }
}

/// Projects the data rows `rows[from..]` in sheet order: the triples of
/// the surviving rows, in row order, or the first row that yields too few
/// values, by its sheet row index (the header row is row 0).
pub open spec fn spec_project(rows: Seq<Seq<Seq<char>>>, c: RoleColumns, from: int) -> Result<
    Seq<TripleV>,
    (int, nat),
>
    decreases rows.len() - from,
{
    if from >= rows.len() || from < 0 {
        Ok(Seq::empty())
    } else {
        match spec_row(rows[from], c) {
            RowOutcome::Skip => spec_project(rows, c, from + 1),
            RowOutcome::Invalid { found } => Err((from, found)),
            RowOutcome::Field(t) => match spec_project(rows, c, from + 1) {
                Ok(ts) => Ok(seq![t] + ts),
                Err(e) => Err(e),
            },
        }
    }
}

/// How many of the data rows `rows[from..]` survive projection: those
/// that yield a field, as opposed to skipped legend rows.
pub open spec fn spec_surviving(rows: Seq<Seq<Seq<char>>>, c: RoleColumns, from: int) -> nat
    decreases rows.len() - from,
{
    if from >= rows.len() || from < 0 {
        0
    } else {
        (if spec_row(rows[from], c) is Field {
            1nat
        } else {
            0nat
        }) + spec_surviving(rows, c, from + 1)
    }
}

/// A successful projection yields exactly one triple per surviving row:
/// legend rows and only legend rows are dropped, and no triple is merged
/// or invented.
pub proof fn lemma_one_triple_per_surviving_row(
    rows: Seq<Seq<Seq<char>>>,
    c: RoleColumns,
    from: int,
    ts: Seq<TripleV>,
)
    requires
        spec_project(rows, c, from) == Ok::<_, (int, nat)>(ts),
    ensures
        ts.len() == spec_surviving(rows, c, from),
    decreases rows.len() - from,
{
    if from >= rows.len() || from < 0 {
    } else {
        match spec_row(rows[from], c) {
            RowOutcome::Skip => {
                lemma_one_triple_per_surviving_row(rows, c, from + 1, ts);
            },
            RowOutcome::Invalid { found } => {
                assert(false);
            },
            RowOutcome::Field(t) => {
                match spec_project(rows, c, from + 1) {
                    Ok(ts2) => {
                        lemma_one_triple_per_surviving_row(rows, c, from + 1, ts2);
                        assert(ts == seq![t] + ts2);
                    },
                    Err(_) => {
                        assert(false);
                    },
                }
            },
        }
    }
}

/// Every generated field is named by the fixed token, whatever the
/// sheet's name cells hold.
pub proof fn lemma_every_field_named_by_token(
    rows: Seq<Seq<Seq<char>>>,
    c: RoleColumns,
    from: int,
    ts: Seq<TripleV>,
)
    requires
        spec_project(rows, c, from) == Ok::<_, (int, nat)>(ts),
    ensures
        forall|k: int| 0 <= k < ts.len() ==> ts[k].name == name_token(),
    decreases rows.len() - from,
{
    if from >= rows.len() || from < 0 {
    } else {
        match spec_row(rows[from], c) {
            RowOutcome::Skip => {
                lemma_every_field_named_by_token(rows, c, from + 1, ts);
            },
            RowOutcome::Invalid { found } => {
                assert(false);
            },
            RowOutcome::Field(t) => {
                match spec_project(rows, c, from + 1) {
                    Ok(ts2) => {
                        lemma_every_field_named_by_token(rows, c, from + 1, ts2);
                        assert(ts == seq![t] + ts2);
                        assert(forall|k: int| 1 <= k < ts.len() ==> ts[k] == ts2[k - 1]);
                    },
                    Err(_) => {
                        assert(false);
                    },
                }
            },
        }
    }
}

/// Walks the data rows (everything after `rows[0]`, the header row) and
/// assembles one triple per surviving row. A row that cannot supply all
/// three values stops the job with a `Validation` error naming that row's
/// sheet index and the number of values it did yield.
pub fn project_rows(rows: &Vec<Vec<String>>, c: RoleColumns) -> (r: Result<
    Vec<FieldTriple>,
    JobError,
>)
    ensures
        match r {
            Ok(ts) => spec_project(rows.deep_view(), c, 1) == Ok::<_, (int, nat)>(ts.deep_view()),
            Err(e) => match spec_project(rows.deep_view(), c, 1) {
                Err(p) => e == (JobError::Validation { row: p.0 as usize, found: p.1 as usize })
                    && 0 <= p.0 < rows.deep_view().len(),
                Ok(_) => false,
            },
        },
{
    let ghost rv = rows.deep_view();
    let mut out: Vec<FieldTriple> = Vec::new();
    let mut i: usize = 1;
    proof {
        match spec_project(rv, c, 1) {
            Ok(ts) => {
                assert(out.deep_view() + ts =~= ts);
            },
            Err(_) => {},
        }
    }
    while i < rows.len()
        invariant
            1 <= i,
            rv == rows.deep_view(),
            rv.len() == rows@.len(),
            spec_project(rv, c, 1) == (match spec_project(rv, c, i as int) {
                Ok(ts) => Ok::<_, (int, nat)>(out.deep_view() + ts),
                Err(e) => Err(e),
            }),
        decreases rows@.len() - i,
    {
        let row = &rows[i];
        let ghost rowv = rv[i as int];
        assert(rowv.len() == row@.len());
        assert(forall|k: int| 0 <= k < row@.len() ==> rowv[k] == row@[k]@);
        if c.name_col >= row.len() {
            return Err(JobError::Validation { row: i, found: 0 });
        }
        if starts_with_sentinel(&row[c.name_col]) {
            // legend row: contributes nothing
            assert(spec_row(rowv, c) is Skip);
        } else if c.type_col >= row.len() {
            return Err(JobError::Validation { row: i, found: 1 });
        } else if c.remark_col >= row.len() {
            return Err(JobError::Validation { row: i, found: 2 });
        } else {
            let t = FieldTriple {
                name: String::from_str("string"),
                field_type: reformat_cell(&row[c.type_col]),
                remark: reformat_cell(&row[c.remark_col]),
            };
            let ghost tv = t.deep_view();
            assert(spec_row(rowv, c) == RowOutcome::Field(tv));
            let ghost out_old = out.deep_view();
            out.push(t);
            proof {
                assert(out.deep_view() =~= out_old.push(tv));
                match spec_project(rv, c, i + 1 as int) {
                    Ok(ts) => {
                        assert(out_old.push(tv) + ts =~= out_old + (seq![tv] + ts));
                    },
                    Err(_) => {},
                }
            }
        }
        i += 1;
    }
    proof {
        match spec_project(rv, c, 1) {
            Ok(ts) => {
                assert(spec_project(rv, c, i as int) == Ok::<_, (int, nat)>(Seq::<TripleV>::empty()));
                assert(out.deep_view() + Seq::<TripleV>::empty() =~= out.deep_view());
            },
            Err(_) => {},
        }
    }
    Ok(out)
}

} // verus!
