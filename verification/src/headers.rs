//! Binding declared header names to column positions in a sheet's header row.
//!
//! A job declares three header names with fixed semantic roles: the first
//! names the field-name column, the second the field-type column, the third
//! the remark column. Each role is bound to the leftmost column whose header
//! text equals the declared name, and the binding is validated for
//! completeness before any data row is read.

use vstd::prelude::*;

verus! {

/// The leftmost position in `row` whose text equals `name`, if any.
pub open spec fn spec_find(row: Seq<Seq<char>>, name: Seq<char>) -> Option<int>
    decreases row.len(),
{
    if row.len() == 0 {
        None
    } else if row[0] == name {
        Some(0)
    } else {
        match spec_find(row.drop_first(), name) {
            Some(i) => Some(i + 1),
            None => None,
        }
    }
}

/// `spec_find` returns exactly the first occurrence: `Some(i)` means the
/// text stands at `i` and nowhere earlier, `None` that it stands nowhere.
pub proof fn lemma_spec_find(row: Seq<Seq<char>>, name: Seq<char>)
    ensures
        match spec_find(row, name) {
            Some(i) => 0 <= i < row.len() && row[i] == name && (forall|j: int|
                0 <= j < i ==> row[j] != name),
            None => forall|j: int| 0 <= j < row.len() ==> row[j] != name,
        },
    decreases row.len(),
{
    if row.len() > 0 && row[0] != name {
        let rest = row.drop_first();
        lemma_spec_find(rest, name);
        assert(forall|j: int| 0 <= j < rest.len() ==> rest[j] == row[j + 1]);
        match spec_find(rest, name) {
            Some(i) => {
                assert(row[i + 1] == name);
                assert forall|j: int| 0 <= j < i + 1 implies row[j] != name by {
                    if j > 0 {
                        assert(rest[j - 1] != name);
                    }
                }
            },
            None => {
                assert forall|j: int| 0 <= j < row.len() implies row[j] != name by {
                    if j > 0 {
                        assert(rest[j - 1] != name);
                    }
                }
            },
        }
    }
}

/// The column positions the three roles are bound to.
pub struct RoleColumns {
    pub name_col: usize,
    pub type_col: usize,
    pub remark_col: usize,
}

/// The binding of the three declared names against a header row, when it is
/// complete: each role takes the leftmost column whose header equals its
/// declared name.
pub open spec fn spec_bind(row: Seq<Seq<char>>, declared: Seq<Seq<char>>) -> Option<RoleColumns> {
    match (spec_find(row, declared[0]), spec_find(row, declared[1]), spec_find(
        row,
        declared[2],
    )) {
        (Some(n), Some(t), Some(r)) => Some(
            RoleColumns { name_col: n as usize, type_col: t as usize, remark_col: r as usize },
        ),
        _ => None,
    }
}

/// Finds the leftmost column of `row` whose header text equals `name`.
pub fn find_column(row: &Vec<String>, name: &String) -> (r: Option<usize>)
    ensures
        r matches Some(i) ==> spec_find(row.deep_view(), name@) == Some(i as int),
        r is None ==> spec_find(row.deep_view(), name@) is None,
{
    proof {
        lemma_spec_find(row.deep_view(), name@);
    }
    let ghost rv = row.deep_view();
    let mut i: usize = 0;
    while i < row.len()
        invariant
            i <= row.len(),
            rv == row.deep_view(),
            rv.len() == row.len(),
            forall|j: int| 0 <= j < i ==> rv[j] != name@,
            match spec_find(rv, name@) {
                Some(k) => 0 <= k < rv.len() && rv[k] == name@ && (forall|j: int|
                    0 <= j < k ==> rv[j] != name@),
                None => forall|j: int| 0 <= j < rv.len() ==> rv[j] != name@,
            },
        decreases row.len() - i,
    {
        if row[i].eq(name) {
            assert(rv[i as int] == name@);
            return Some(i);
        }
        assert(rv[i as int] != name@);
        i += 1;
    }
    None
}

/// Resolves the three roles against the header row, leftmost occurrence
/// each; `None` when some declared name heads no column.
pub fn bind_columns(row: &Vec<String>, declared: &Vec<String>) -> (r: Option<RoleColumns>)
    requires
        declared@.len() == 3,
    ensures
        match r {
            Some(c) => {
                &&& spec_bind(row.deep_view(), declared.deep_view()) == Some(c)
                &&& c.name_col < row@.len()
                &&& c.type_col < row@.len()
                &&& c.remark_col < row@.len()
            },
            None => spec_bind(row.deep_view(), declared.deep_view()) is None,
        },
{
    proof {
        lemma_spec_find(row.deep_view(), declared.deep_view()[0]);
        lemma_spec_find(row.deep_view(), declared.deep_view()[1]);
        lemma_spec_find(row.deep_view(), declared.deep_view()[2]);
    }
    let n = find_column(row, &declared[0]);
    let t = find_column(row, &declared[1]);
    let rm = find_column(row, &declared[2]);
    match (n, t, rm) {
        (Some(n), Some(t), Some(rm)) => Some(
            RoleColumns { name_col: n, type_col: t, remark_col: rm },
        ),
        _ => None,
    }
}

} // verus!
