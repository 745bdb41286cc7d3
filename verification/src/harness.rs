//! The roster of long-lived tasks and the report on those that ended.
//!
//! Every task of the roster is meant to run for as long as the device is
//! up. A task that ends is a failure, and the harness names it.

use vstd::prelude::*;

verus! {

/// The long-lived tasks.
#[derive(Clone, Copy, Debug, PartialEq, Eq, Structural)]
pub enum TaskKind {
    Button,
    Motion,
    WifiLoop,
    Display,
}

/// The roster, in the order in which the tasks are started and reported.
pub open spec fn roster() -> Seq<TaskKind> {
    seq![TaskKind::Button, TaskKind::Motion, TaskKind::WifiLoop, TaskKind::Display]
}

/// Which tasks have ended.
#[derive(Clone, Copy, Debug, PartialEq, Eq, Structural)]
pub struct TaskStatus {
    pub button_finished: bool,
    pub motion_finished: bool,
    pub wifi_loop_finished: bool,
    pub display_finished: bool,
}

/// Whether `status` says that the task has ended.
pub open spec fn has_finished(status: TaskStatus, task: TaskKind) -> bool {
    match task {
        TaskKind::Button => status.button_finished,
        TaskKind::Motion => status.motion_finished,
        TaskKind::WifiLoop => status.wifi_loop_finished,
        TaskKind::Display => status.display_finished,
    }
}

/// One task if `ended`, none otherwise.
pub open spec fn if_ended(ended: bool, task: TaskKind) -> Seq<TaskKind> {
    if ended {
        seq![task]
    } else {
        Seq::empty()
    }
}

/// The tasks that have ended, in roster order.
pub open spec fn finished(status: TaskStatus) -> Seq<TaskKind> {
    if_ended(status.button_finished, TaskKind::Button) + if_ended(
        status.motion_finished,
        TaskKind::Motion,
    ) + if_ended(status.wifi_loop_finished, TaskKind::WifiLoop) + if_ended(
        status.display_finished,
        TaskKind::Display,
    )
}

/// The line that reports a task that ended.
pub open spec fn report_text(task: TaskKind) -> Seq<char> {
    match task {
        TaskKind::Button => "button task done!"@,
        TaskKind::Motion => "motion task done"@,
        TaskKind::WifiLoop => "wifi task done"@,
        TaskKind::Display => "display task done"@,
    }
}

impl TaskKind {
    /// The line that reports the end of the task.
    pub fn report(&self) -> (text: &'static str)
        ensures
            text@ == report_text(*self),
    {
        match self {
            TaskKind::Button => "button task done!",
            TaskKind::Motion => "motion task done",
            TaskKind::WifiLoop => "wifi task done",
            TaskKind::Display => "display task done",
        }
    }
}

/// The tasks that have ended, in roster order. None that ended is left
/// out, and none that still runs is named.
pub fn finished_tasks(status: &TaskStatus) -> (tasks: Vec<TaskKind>)
    ensures
        tasks@ == finished(*status),
        forall|task: TaskKind| tasks@.contains(task) <==> has_finished(*status, task),
{
    let mut tasks: Vec<TaskKind> = Vec::new();
    if status.button_finished {
        tasks.push(TaskKind::Button);
    }
    if status.motion_finished {
        tasks.push(TaskKind::Motion);
    }
    if status.wifi_loop_finished {
        tasks.push(TaskKind::WifiLoop);
    }
    if status.display_finished {
        tasks.push(TaskKind::Display);
    }
    proof {
        assert(tasks@ =~= finished(*status));
        law_report_is_complete(*status);
    }
    tasks
}

/// The report is complete and names no task that still runs: a task is
/// among the finished ones exactly if the status says that it ended.
pub proof fn law_report_is_complete(status: TaskStatus)
    ensures
        forall|task: TaskKind| finished(status).contains(task) <==> has_finished(status, task),
{
    let tasks = finished(status);
    let b = if_ended(status.button_finished, TaskKind::Button);
    let m = if_ended(status.motion_finished, TaskKind::Motion);
    let w = if_ended(status.wifi_loop_finished, TaskKind::WifiLoop);
    let d = if_ended(status.display_finished, TaskKind::Display);
    assert forall|task: TaskKind| tasks.contains(task) <==> has_finished(status, task) by {
        if has_finished(status, task) {
            let i = match task {
                TaskKind::Button => 0int,
                TaskKind::Motion => b.len() as int,
                TaskKind::WifiLoop => (b.len() + m.len()) as int,
                TaskKind::Display => (b.len() + m.len() + w.len()) as int,
            };
            assert(tasks[i] == task);
        }
    }
}

} // verus!
