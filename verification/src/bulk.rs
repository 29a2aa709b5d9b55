//! The statement that stores a batch: one insert for the whole batch, with
//! one array parameter per column, bound by position.
use crate::number::{decimal, decimal_string};
use vstd::prelude::*;
use vstd::string::StringExecFns;

verus! {

/// A column of a target table: its name and the type of its values.
#[derive(Clone, Copy, Debug)]
pub struct Target {
    pub name: &'static str,
    pub sql_type: &'static str,
}

/// What a [`Target`] holds.
pub struct TargetView {
    pub name: Seq<char>,
    pub sql_type: Seq<char>,
}

impl View for Target {
    type V = TargetView;

    open spec fn view(&self) -> TargetView {
        TargetView { name: self.name@, sql_type: self.sql_type@ }
    }
}

/// The columns of a list.
pub open spec fn targets(columns: Seq<Target>) -> Seq<TargetView> {
    Seq::new(columns.len(), |i: int| columns[i]@)
}

/// The names of the first `n` columns, separated by commas.
pub open spec fn name_list(columns: Seq<TargetView>, n: int) -> Seq<char>
    decreases n,
{
    if n <= 0 {
        Seq::empty()
    } else if n == 1 {
        columns[0].name
    } else {
        name_list(columns, n - 1) + ", "@ + columns[n - 1].name
    }
}

/// The parameter for column `i`, counted from zero: a dollar sign, the
/// position counted from one, and a cast to an array of the column's type.
pub open spec fn parameter(columns: Seq<TargetView>, i: int) -> Seq<char> {
    "$"@ + decimal((i + 1) as nat) + "::"@ + columns[i].sql_type + "[]"@
}

/// The parameters for the first `n` columns, separated by commas.
pub open spec fn parameter_list(columns: Seq<TargetView>, n: int) -> Seq<char>
    decreases n,
{
    if n <= 0 {
        Seq::empty()
    } else if n == 1 {
        parameter(columns, 0)
    } else {
        parameter_list(columns, n - 1) + ", "@ + parameter(columns, n - 1)
    }
}

/// The statement that inserts a batch into `table`: the columns are named in
/// their order, and the parameter at each position is unnested into the
/// column at the same position.
pub open spec fn insert_text(table: Seq<char>, columns: Seq<TargetView>) -> Seq<char> {
    "INSERT INTO "@ + table + " ("@ + name_list(columns, columns.len() as int)
        + ") SELECT * FROM UNNEST("@ + parameter_list(columns, columns.len() as int) + ");"@
}

/// Writes the statement that inserts a batch into `table`.
pub fn insert_statement(table: &str, columns: &Vec<Target>) -> (sql: String)
    requires
        columns@.len() < u64::MAX,
    ensures
        sql@ == insert_text(table@, targets(columns@)),
{
    let ghost all = targets(columns@);
    let mut names = String::new();
    let mut parameters = String::new();
    let mut i: usize = 0;
    while i < columns.len()
        invariant
            i <= columns.len(),
            columns@.len() < u64::MAX,
            all == targets(columns@),
            names@ == name_list(all, i as int),
            parameters@ == parameter_list(all, i as int),
        decreases columns.len() - i,
    {
        if i > 0 {
            names.append(", ");
            parameters.append(", ");
        }
        names.append(columns[i].name);
        parameters.append("$");
        let position = decimal_string((i + 1) as u64);
        parameters.append(position.as_str());
        parameters.append("::");
        parameters.append(columns[i].sql_type);
        parameters.append("[]");
        i += 1;
    }
    let mut sql = String::from_str("INSERT INTO ");
    sql.append(table);
    sql.append(" (");
    sql.append(names.as_str());
    sql.append(") SELECT * FROM UNNEST(");
    sql.append(parameters.as_str());
    sql.append(");");
    sql
}

} // verus!
