//! The batch loader's decisions: every insert in order inside one
//! transaction, committed once, and rolled back at the first failure.
use vstd::prelude::*;
use crate::records::{column_count, column_names, table_name, Record};
use crate::sql::{insert_sql, Statement};

verus! {

/// What the loader does next with the open transaction.
#[derive(Clone, Copy, Debug, PartialEq, Eq, Structural)]
pub enum LoadAction {
    /// Run the statement at this position.
    Execute(usize),
    /// Every statement succeeded: commit.
    Commit,
    /// A statement failed: roll everything back.
    Rollback,
}

/// The first action of a batch of `total` statements.
pub fn first_action(total: usize) -> (a: LoadAction)
    ensures
        a == if total == 0 {
            LoadAction::Commit
        } else {
            LoadAction::Execute(0)
        },
{
    if total == 0 {
        LoadAction::Commit
    } else {
        LoadAction::Execute(0)
    }
}

/// The action after statement `done` of `total` ran, succeeding or not.
pub fn next_action(done: usize, total: usize, succeeded: bool) -> (a: LoadAction)
    requires
        done < total,
    ensures
        a == if !succeeded {
            LoadAction::Rollback
        } else if done + 1 < total {
            LoadAction::Execute((done + 1) as usize)
        } else {
            LoadAction::Commit
        },
{
    if !succeeded {
        LoadAction::Rollback
    } else if done + 1 < total {
        LoadAction::Execute(done + 1)
    } else {
        LoadAction::Commit
    }
}

/// The action a batch of `total` statements reaches when the statements run
/// so far had the outcomes `results`, in order.
pub open spec fn action_after(results: Seq<bool>, total: nat) -> LoadAction
    decreases results.len(),
{
    if results.len() == 0 {
        if total == 0 {
            LoadAction::Commit
        } else {
            LoadAction::Execute(0)
        }
    } else {
        match action_after(results.drop_last(), total) {
            LoadAction::Execute(i) => if !results.last() {
                LoadAction::Rollback
            } else if i + 1 < total {
                LoadAction::Execute((i + 1) as usize)
            } else {
                LoadAction::Commit
            },
            other => other,
        }
    }
}

/// While every statement so far succeeded, the loader runs the statements in
/// order, one after another, and commits right after the last of them.
pub proof fn lemma_all_succeeded(results: Seq<bool>, total: nat)
    requires
        results.len() <= total,
        total <= usize::MAX,
        forall|i: int| 0 <= i < results.len() ==> #[trigger] results[i],
    ensures
        action_after(results, total) == if results.len() < total {
            LoadAction::Execute(results.len() as usize)
        } else {
            LoadAction::Commit
        },
    decreases results.len(),
{
    if results.len() > 0 {
        let init = results.drop_last();
        assert forall|i: int| 0 <= i < init.len() implies #[trigger] init[i] by {
            assert(init[i] == results[i]);
        }
        lemma_all_succeeded(init, total);
        assert(results.last() == results[results.len() - 1]);
    }
}

/// Once a statement fails the loader rolls back, whatever came after.
pub proof fn lemma_failure_rolls_back(results: Seq<bool>, total: nat, failed: int)
    requires
        results.len() <= total,
        total <= usize::MAX,
        0 <= failed < results.len(),
        !results[failed],
    ensures
        action_after(results, total) == LoadAction::Rollback,
    decreases results.len(),
{
    let init = results.drop_last();
    if failed < results.len() - 1 {
        assert(init[failed] == results[failed]);
        lemma_failure_rolls_back(init, total, failed);
    } else {
        let first = choose|f: int| 0 <= f < init.len() && !init[f];
        if exists|f: int| 0 <= f < init.len() && !init[f] {
            lemma_failure_rolls_back(init, total, first);
        } else {
            lemma_all_succeeded(init, total);
        }
    }
}

/// The insert statements of `records`, one per row, in the same order.
pub fn load_plan(records: &Vec<Record>) -> (r: Vec<Statement>)
    ensures
        r@.len() == records@.len(),
        forall|i: int|
            0 <= i < r@.len() ==> (#[trigger] r@[i]).sql@ == insert_sql(
                table_name(records@[i].table())@,
                column_names(records@[i].table())@,
                column_count(records@[i].table()),
            ) && r@[i].values@ == records@[i].values(),
{
    let mut r: Vec<Statement> = Vec::new();
    let mut i: usize = 0;
    while i < records.len()
        invariant
            i <= records@.len(),
            r@.len() == i,
            forall|j: int|
                0 <= j < i ==> (#[trigger] r@[j]).sql@ == insert_sql(
                    table_name(records@[j].table())@,
                    column_names(records@[j].table())@,
                    column_count(records@[j].table()),
                ) && r@[j].values@ == records@[j].values(),
        decreases records@.len() - i,
    {
        r.push(records[i].insert_statement());
        i = i + 1;
    }
    r
}

} // verus!
