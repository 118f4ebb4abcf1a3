//! One work interval: its name, when it began and, once it is over, when it
//! ended.

use crate::clock::local_now;
use crate::clock::Timestamp;
use vstd::prelude::*;

verus! {

/// A work interval.  It is created when the work begins, with no end, and
/// finished once, when the work phase is left.
#[derive(Debug)]
pub struct Task {
    pub name: String,
    pub start_time: Timestamp,
    pub end_time: Option<Timestamp>,
}

/// What a [`Task`] is, with the name as a sequence of characters.
pub struct TaskView {
    pub name: Seq<char>,
    pub start_time: Timestamp,
    pub end_time: Option<Timestamp>,
}

impl TaskView {
    /// The task named `name` that began at `start` and has not ended.
    pub open spec fn begun(name: Seq<char>, start: Timestamp) -> TaskView {
        TaskView { name, start_time: start, end_time: None }
    }

    /// The same task, ended at `end`.
    pub open spec fn ended(self, end: Timestamp) -> TaskView {
        TaskView { end_time: Some(end), ..self }
    }

    /// The task has an end.
    pub open spec fn is_finished(self) -> bool {
        self.end_time is Some
    }

    /// If the task has an end, the end is not before the start.
    pub open spec fn ends_after_start(self) -> bool {
        self.end_time matches Some(end) ==> end.not_before(self.start_time)
    }
}

impl View for Task {
    type V = TaskView;

    open spec fn view(&self) -> TaskView {
        TaskView { name: self.name@, start_time: self.start_time, end_time: self.end_time }
    }
}

impl Task {
    /// A task that begins now: the start is the wall clock's reading, whatever
    /// it is.
    pub fn new(name: String) -> (task: Task)
        ensures
            task@ == TaskView::begun(name@, task.start_time),
    {
        let start = local_now();
        Task::started_at(name, start)
    }

    /// A task that began at `start` and has not ended.
    pub fn started_at(name: String, start: Timestamp) -> (task: Task)
        ensures
            task@ == TaskView::begun(name@, start),
    {
        Task { name, start_time: start, end_time: None }
    }

    /// Ends the task now: the end is the wall clock's reading, whatever it is.
    /// A task is ended once.
    pub fn finish(&mut self)
        requires
            !old(self)@.is_finished(),
        ensures
            final(self)@.is_finished(),
            final(self)@ == old(self)@.ended(final(self).end_time.unwrap()),
    {
        let end = local_now();
        self.finish_at(end);
    }

    /// Ends the task at `end`.  A task is ended once.
    pub fn finish_at(&mut self, end: Timestamp)
        requires
            !old(self)@.is_finished(),
        ensures
            final(self)@ == old(self)@.ended(end),
    {
        self.end_time = Some(end);
    }
}

/// Ending a task sets its end and nothing else, and the end is not before the
/// start exactly if the clock reading that ends the task is not before the
/// reading that began it.
pub proof fn lemma_end_not_before_start(task: TaskView, end: Timestamp)
    ensures
        task.ended(end).is_finished(),
        task.ended(end).ends_after_start() <==> end.not_before(task.start_time),
        task.ended(end).start_time == task.start_time,
        task.ended(end).name == task.name,
{
}

} // verus!
