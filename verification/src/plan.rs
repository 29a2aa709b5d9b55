//! Running statements one after the other: each statement is run to its end
//! before the next one starts, and the first failure ends the run.
use crate::err::AppError;
use crate::number::{decimal, decimal_string};
use vstd::prelude::*;
use vstd::string::StringExecFns;

verus! {

/// One statement of a plan.
#[derive(Clone, Copy, Debug)]
pub struct Step {
    /// The text of the statement.
    pub sql: &'static str,
    /// What the rows are that the statement affects, where their number is
    /// worth a line in the log.
    pub report: Option<&'static str>,
}

/// What is to be done next.
#[derive(Clone, Copy, Debug, PartialEq, Eq, Structural)]
pub enum Next {
    /// Run the statement at this place of the plan.
    Run(usize),
    /// Nothing is left to run.
    Finished,
}

/// What follows the statement at place `done` of a plan of `len`
/// statements.
pub open spec fn following(len: nat, done: nat) -> Next {
    if done + 1 < len {
        Next::Run((done + 1) as usize)
    } else {
        Next::Finished
    }
}

/// The line for the log after a statement that affected `rows` rows: the
/// number, a space, and what the rows are.
pub open spec fn report_text(rows: u64, what: Seq<char>) -> Seq<char> {
    decimal(rows as nat) + " "@ + what
}

/// Where a plan starts.
pub fn first(plan: &Vec<Step>) -> (next: Next)
    ensures
        next == if plan@.len() > 0 {
            Next::Run(0)
        } else {
            Next::Finished
        },
{
    if plan.len() > 0 {
        Next::Run(0)
    } else {
        Next::Finished
    }
}

/// Takes the outcome of the statement at place `done`: the number of rows
/// that it affected, or the fault with which it failed. After a failure the
/// run ends with an error that carries the fault and the text of the
/// statement. After a success the next statement is due, and the line for
/// the log is given where the statement has one.
pub fn after(plan: &Vec<Step>, done: usize, outcome: Result<u64, String>) -> (r: Result<
    (Next, Option<String>),
    AppError,
>)
    requires
        done < plan@.len(),
    ensures
        match outcome {
            Err(fault) => r matches Err(AppError::SqlxError(detail, sql)) && detail@ == fault@
                && sql@ == plan@[done as int].sql@,
            Ok(rows) => {
                &&& r matches Ok((next, line))
                &&& next == following(plan@.len(), done as nat)
                &&& match plan@[done as int].report {
                    Some(what) => line matches Some(text) && text@ == report_text(rows, what@),
                    None => line is None,
                }
            },
        },
{
    match outcome {
        Err(fault) => Err(AppError::SqlxError(fault, String::from_str(plan[done].sql))),
        Ok(rows) => {
            let next = if plan.len() - done > 1 {
                Next::Run(done + 1)
            } else {
                Next::Finished
            };
            let line = match plan[done].report {
                Some(what) => {
                    let mut text = decimal_string(rows);
                    text.append(" ");
                    text.append(what);
                    Some(text)
                },
                None => None,
            };
            Ok((next, line))
        },
    }
}

/// A plan is run in its order, one statement after the other, and ends
/// after its last statement: what follows a statement is the statement at
/// the next place, as long as there is one.
pub proof fn lemma_plan_runs_in_order(len: nat, done: nat)
    requires
        done < len,
        len <= usize::MAX,
    ensures
        following(len, done) is Finished <==> done + 1 == len,
        following(len, done) matches Next::Run(k) ==> k == done + 1,
{
}

/// What a step holds: the text of its statement, and what its rows are.
pub open spec fn shown(s: Step) -> (Seq<char>, Option<Seq<char>>) {
    (
        s.sql@,
        match s.report {
            Some(what) => Some(what@),
            None => None,
        },
    )
}

/// What the steps of a plan hold, in order.
pub open spec fn plan_view(plan: Seq<Step>) -> Seq<(Seq<char>, Option<Seq<char>>)> {
    Seq::new(plan.len(), |i: int| shown(plan[i]))
}

/// A step that leaves no line in the log.
pub fn silent(sql: &'static str) -> (s: Step)
    ensures
        shown(s) == (sql@, None::<Seq<char>>),
{
    Step { sql, report: None }
}

/// A step whose number of affected rows is worth a line in the log.
pub fn counted(sql: &'static str, what: &'static str) -> (s: Step)
    ensures
        shown(s) == (sql@, Some(what@)),
{
    Step { sql, report: Some(what) }
}

} // verus!
