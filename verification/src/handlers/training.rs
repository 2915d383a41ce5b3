//! Training data for fine-tuning: per-task counts and export.

use vstd::prelude::*;
use vstd::string::*;

use crate::error::{AppError, STATUS_BAD_REQUEST, STATUS_NOT_FOUND};
use crate::text::{str_is, strings_view, to_chars};

verus! {

/// Query parameters for a training data export.
#[derive(Debug)]
pub struct TrainingExportQuery {
    pub task: String,
}

/// Training data available for one task.
#[derive(Debug)]
pub struct TaskInfo {
    pub task: String,
    pub total_examples: usize,
    pub user_corrections: usize,
    pub ollama_confirmed: usize,
    pub ready: bool,
    pub min_required: usize,
}

/// Training data of every task.
#[derive(Debug)]
pub struct TrainingTasksResponse {
    pub tasks: Vec<TaskInfo>,
}

/// An example's source marks it as coming from the user.
pub open spec fn is_user_source(s: Seq<char>) -> bool {
    s == "user"@ || s == "user_correction"@ || s == "user_override"@
}

/// Number of user-sourced examples.
pub open spec fn user_count(sources: Seq<Seq<char>>) -> nat
    decreases sources.len(),
{
    if sources.len() == 0 {
        0
    } else {
        user_count(sources.drop_last()) + if is_user_source(sources.last()) {
            1nat
        } else {
            0nat
        }
    }
}

/// An example from the user — "user", "user_correction" or
/// "user_override" — counts as one more user example; one confirmed by the
/// AI ("ollama") does not; and there are never more user examples than
/// examples.
pub proof fn law_user_sources_counted(sources: Seq<Seq<char>>)
    ensures
        user_count(sources.push("user"@)) == user_count(sources) + 1,
        user_count(sources.push("user_correction"@)) == user_count(sources) + 1,
        user_count(sources.push("user_override"@)) == user_count(sources) + 1,
        user_count(sources.push("ollama"@)) == user_count(sources),
        user_count(sources) <= sources.len(),
    decreases sources.len(),
{
    reveal_strlit("user");
    reveal_strlit("user_correction");
    reveal_strlit("user_override");
    reveal_strlit("ollama");
    assert(sources.push("user"@).drop_last() =~= sources);
    assert(sources.push("user_correction"@).drop_last() =~= sources);
    assert(sources.push("user_override"@).drop_last() =~= sources);
    assert(sources.push("ollama"@).drop_last() =~= sources);
    assert("ollama"@.len() == 6);
    assert("user"@.len() == 4);
    assert("user_correction"@.len() == 15);
    assert("user_override"@.len() == 13);
    if sources.len() > 0 {
        law_user_sources_counted(sources.drop_last());
    }
}

fn is_user(s: &str) -> (r: bool)
    ensures
        r == is_user_source(s@),
{
    let c = to_chars(s);
    str_is("user", &c) || str_is("user_correction", &c) || str_is("user_override", &c)
}

/// The counts of a task, given the sources of its examples: the user's
/// examples, the AI-confirmed rest, and whether there are enough.
pub fn task_info(task: &str, sources: &Vec<String>, min_required: usize) -> (r: TaskInfo)
    ensures
        r.task@ == task@,
        r.total_examples == sources@.len(),
        r.user_corrections == user_count(strings_view(sources@)),
        r.ollama_confirmed == sources@.len() - user_count(strings_view(sources@)),
        r.ready == (sources@.len() >= min_required),
        r.min_required == min_required,
{
    let mut users: usize = 0;
    let mut i: usize = 0;
    while i < sources.len()
        invariant
            i <= sources@.len(),
            users <= i,
            users == user_count(strings_view(sources@.take(i as int))),
        decreases sources.len() - i,
    {
        assert(strings_view(sources@.take(i + 1)).drop_last() =~= strings_view(
            sources@.take(i as int),
        ));
        assert(strings_view(sources@.take(i + 1)).last() == sources@[i as int]@);
        if is_user(sources[i].as_str()) {
            users = users + 1;
        }
        i = i + 1;
    }
    assert(sources@.take(sources@.len() as int) =~= sources@);
    TaskInfo {
        task: String::from_str(task),
        total_examples: sources.len(),
        user_corrections: users,
        ollama_confirmed: sources.len() - users,
        ready: sources.len() >= min_required,
        min_required,
    }
}

/// The error for an unknown training task.
pub fn unknown_task(task: &str) -> (r: AppError)
    ensures
        r@.status == STATUS_BAD_REQUEST,
        r@.message == "Unknown task: "@ + task@
            + ". Valid tasks: classify_merchant, normalize_merchant, classify_subscription"@,
{
    let mut m = String::from_str("Unknown task: ");
    m.append(task);
    m.append(". Valid tasks: classify_merchant, normalize_merchant, classify_subscription");
    AppError::bad_request(m.as_str())
}

/// The error when a task has no training data.
pub fn no_training_data(task: &str) -> (r: AppError)
    ensures
        r@.status == STATUS_NOT_FOUND,
        r@.message == "No training data available for task: "@ + task@,
{
    let mut m = String::from_str("No training data available for task: ");
    m.append(task);
    AppError::not_found(m.as_str())
}

/// The content disposition of a training export download.
pub fn export_disposition(task: &str) -> (r: String)
    ensures
        r@ == "attachment; filename=\""@ + task@ + "_training.jsonl\""@,
{
    let mut m = String::from_str("attachment; filename=\"");
    m.append(task);
    m.append("_training.jsonl\"");
    m
}

/// The advice for a task that is ready but has no promoted experiment.
pub fn first_experiment_advice(task: &str) -> (r: String)
    ensures
        r@ == "Create first experiment for "@ + task@
            + ": fetch training data and run fine-tuning"@,
{
    let mut m = String::from_str("Create first experiment for ");
    m.append(task);
    m.append(": fetch training data and run fine-tuning");
    m
}

/// Whether every task is up to date: nothing to recommend, and every task
/// ready with a promoted experiment. `tasks` holds, per task, whether it
/// is ready and whether it has a promoted experiment.
pub fn all_up_to_date(recommendations: usize, tasks: &Vec<(bool, bool)>) -> (r: bool)
    ensures
        r == (recommendations == 0 && forall|i: int|
            0 <= i < tasks@.len() ==> (#[trigger] tasks@[i]).0 && tasks@[i].1),
{
    if recommendations != 0 {
        return false;
    }
    let mut i: usize = 0;
    while i < tasks.len()
        invariant
            i <= tasks@.len(),
            forall|j: int| 0 <= j < i ==> (#[trigger] tasks@[j]).0 && tasks@[j].1,
        decreases tasks.len() - i,
    {
        let (ready, promoted) = tasks[i];
        if !(ready && promoted) {
            return false;
        }
        i = i + 1;
    }
    true
}

} // verus!
