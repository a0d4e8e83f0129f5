//! The set of recurring tasks to run: each with a name, an interval, an offset
//! into the interval, and the task itself.
use std::time::Duration;
use vstd::prelude::*;

use crate::duration::{duration_as_nanos, duration_from_millis, duration_nanos};

verus! {

/// A schedule is accepted when its interval is nonzero and its offset is
/// strictly less than its interval (both in nanoseconds).
pub open spec fn schedule_is_valid(interval: nat, offset: nat) -> bool {
    interval > 0 && offset < interval
}

/// Why a schedule is refused.
#[derive(Debug, Clone, Copy, PartialEq, Eq, Structural)]
pub enum ScheduleError {
    /// The interval is zero.
    ZeroInterval,
    /// The offset is not strictly less than the interval.
    OffsetNotBeforeInterval,
}

/// What `validate_schedule` answers for an interval and an offset, in
/// nanoseconds.
pub open spec fn schedule_verdict(interval: nat, offset: nat) -> Result<(), ScheduleError> {
    if interval == 0 {
        Err(ScheduleError::ZeroInterval)
    } else if offset >= interval {
        Err(ScheduleError::OffsetNotBeforeInterval)
    } else {
        Ok(())
    }
}

impl ScheduleError {
    /// The text of the refusal, as the manager reports it.
    pub fn message(&self) -> (m: &'static str)
        ensures
            *self == ScheduleError::ZeroInterval ==> m@ == "Interval must be nonzero!"@,
            *self == ScheduleError::OffsetNotBeforeInterval ==> m@
                == "Offset must be strictly less than interval!"@,
    {
        match self {
            ScheduleError::ZeroInterval => "Interval must be nonzero!",
            ScheduleError::OffsetNotBeforeInterval => "Offset must be strictly less than interval!",
        }
    }
}

/// Checks a schedule before it is added: the interval must be nonzero, and the
/// offset strictly less than the interval.
pub fn validate_schedule(interval: Duration, offset: Duration) -> (r: Result<(), ScheduleError>)
    ensures
        r == schedule_verdict(duration_nanos(interval), duration_nanos(offset)),
        r is Ok <==> schedule_is_valid(duration_nanos(interval), duration_nanos(offset)),
{
    let interval_nanos = duration_as_nanos(&interval);
    let offset_nanos = duration_as_nanos(&offset);
    if interval_nanos == 0 {
        Err(ScheduleError::ZeroInterval)
    } else if offset_nanos >= interval_nanos {
        Err(ScheduleError::OffsetNotBeforeInterval)
    } else {
        Ok(())
    }
}

/// What a managed task is, in the model: its name, its interval and offset in
/// nanoseconds, and the task.
pub struct TaskEntry<T> {
    pub name: Seq<char>,
    pub interval: nat,
    pub offset: nat,
    pub task: T,
}

/// `b` is a clone of `a`: the same name and schedule, and a clone of the task.
pub open spec fn entry_cloned<T: Clone>(a: TaskEntry<T>, b: TaskEntry<T>) -> bool {
    &&& b.name == a.name
    &&& b.interval == a.interval
    &&& b.offset == a.offset
    &&& cloned(a.task, b.task)
}

/// Holds a single user task.
pub struct ManagedTask<T> {
    name: String,
    interval: Duration,
    offset: Duration,
    task: T,
}

impl<T> View for ManagedTask<T> {
    type V = TaskEntry<T>;

    closed spec fn view(&self) -> TaskEntry<T> {
        TaskEntry {
            name: self.name@,
            interval: duration_nanos(self.interval),
            offset: duration_nanos(self.offset),
            task: self.task,
        }
    }
}

impl<T> ManagedTask<T> {
    fn new(name: String, interval: Duration, offset: Duration, task: T) -> (m: Self)
        ensures
            m@ == (TaskEntry { name: name@, interval: duration_nanos(interval), offset: duration_nanos(offset), task }),
    {
        ManagedTask { name, interval, offset, task }
    }

    /// The task's name.
    pub fn name(&self) -> (r: &str)
        ensures
            r@ == self@.name,
    {
        self.name.as_str()
    }

    /// The period at which the task runs.
    pub fn interval(&self) -> (r: Duration)
        ensures
            duration_nanos(r) == self@.interval,
    {
        self.interval
    }

    /// The offset into each interval at which the task runs.
    pub fn offset(&self) -> (r: Duration)
        ensures
            duration_nanos(r) == self@.offset,
    {
        self.offset
    }

    /// The task itself.
    pub fn task(&self) -> (r: &T)
        ensures
            *r == self@.task,
    {
        &self.task
    }
}

impl<T: Clone> Clone for ManagedTask<T> {
    /// A copy of the name and the schedule, with a clone of the task.
    fn clone(&self) -> (r: Self)
        ensures
            entry_cloned(self@, r@),
    {
        ManagedTask {
            name: self.name.clone(),
            interval: self.interval,
            offset: self.offset,
            task: self.task.clone(),
        }
    }
}

/// Task manager that schedules and runs tasks on schedule, until cancelled.
pub struct TaskManager<T> {
    tasks: Vec<ManagedTask<T>>,
}

impl<T> View for TaskManager<T> {
    type V = Seq<TaskEntry<T>>;

    closed spec fn view(&self) -> Seq<TaskEntry<T>> {
        self.tasks@.map_values(|m: ManagedTask<T>| m@)
    }
}

impl<T> TaskManager<T> {
    /// Every task held has an accepted schedule.
    #[verifier::type_invariant]
    spec fn schedules_valid(self) -> bool {
        forall|i: int|
            0 <= i < self.tasks@.len() ==> schedule_is_valid(
                #[trigger] self.tasks@[i]@.interval,
                self.tasks@[i]@.offset,
            )
    }

    /// A manager with no tasks.
    pub fn new() -> (m: Self)
        ensures
            m@ == Seq::<TaskEntry<T>>::empty(),
    {
        let m = TaskManager { tasks: Vec::new() };
        assert(m@ =~= Seq::<TaskEntry<T>>::empty());
        m
    }

    /// Add a task to be run periodically on an interval, without an offset.
    ///
    /// * `name` - Unique, descriptive name for debug + error logging
    /// * `interval` - How often the task runs
    /// * `task` - The actual task / job / work that will be run on the interval
    pub fn add(&mut self, name: &str, interval: Duration, task: T)
        requires
            duration_nanos(interval) > 0,
        ensures
            final(self)@ == old(self)@.push(
                TaskEntry { name: name@, interval: duration_nanos(interval), offset: 0, task },
            ),
    {
        let zero = duration_from_millis(0);
        self.add_offset(name, interval, zero, task)
    }

    /// Add a task to be run periodically on an interval, with an offset.
    ///
    /// * `name` - Unique, descriptive name for debug + error logging
    /// * `interval` - How often the task runs
    /// * `offset` - The offset at which this interval will begin
    /// * `task` - The actual task / job / work that will be run on the interval
    pub fn add_offset(&mut self, name: &str, interval: Duration, offset: Duration, task: T)
        requires
            schedule_is_valid(duration_nanos(interval), duration_nanos(offset)),
        ensures
            final(self)@ == old(self)@.push(
                TaskEntry {
                    name: name@,
                    interval: duration_nanos(interval),
                    offset: duration_nanos(offset),
                    task,
                },
            ),
    {
        proof {
            use_type_invariant(&*self);
        }
        let managed = ManagedTask::new(name.to_owned(), interval, offset, task);
        let mut tasks: Vec<ManagedTask<T>> = Vec::new();
        std::mem::swap(&mut tasks, &mut self.tasks);
        tasks.push(managed);
        self.tasks = tasks;
        assert(self@ =~= old(self)@.push(managed@));
    }

    /// The tasks held, in the order they were added; each has an accepted
    /// schedule.
    pub fn tasks(&self) -> (r: &Vec<ManagedTask<T>>)
        ensures
            r@.len() == self@.len(),
            forall|i: int| 0 <= i < r@.len() ==> #[trigger] r@[i]@ == self@[i],
            forall|i: int|
                0 <= i < self@.len() ==> schedule_is_valid(
                    #[trigger] self@[i].interval,
                    self@[i].offset,
                ),
    {
        proof {
            use_type_invariant(self);
        }
        &self.tasks
    }
}

impl<T: Clone> Clone for TaskManager<T> {
    /// The same tasks, in the same order and with the same names and
    /// schedules; each task itself is cloned.
    fn clone(&self) -> (r: Self)
        ensures
            r@.len() == self@.len(),
            forall|i: int| 0 <= i < self@.len() ==> entry_cloned(self@[i], #[trigger] r@[i]),
    {
        proof {
            use_type_invariant(self);
        }
        let mut tasks: Vec<ManagedTask<T>> = Vec::new();
        let n = self.tasks.len();
        for k in 0..n
            invariant
                n == self.tasks@.len(),
                tasks@.len() == k,
                forall|i: int|
                    0 <= i < self.tasks@.len() ==> schedule_is_valid(
                        #[trigger] self.tasks@[i]@.interval,
                        self.tasks@[i]@.offset,
                    ),
                forall|i: int| 0 <= i < k ==> entry_cloned(self.tasks@[i]@, #[trigger] tasks@[i]@),
        {
            let m = self.tasks[k].clone();
            tasks.push(m);
        }
        assert forall|i: int| 0 <= i < tasks@.len() implies schedule_is_valid(
            #[trigger] tasks@[i]@.interval,
            tasks@[i]@.offset,
        ) by {
            assert(entry_cloned(self.tasks@[i]@, tasks@[i]@));
        }
        let r = TaskManager { tasks };
        proof {
            assert forall|i: int| 0 <= i < self@.len() implies entry_cloned(
                self@[i],
                #[trigger] r@[i],
            ) by {
                assert(r@[i] == r.tasks@[i]@);
                assert(self@[i] == self.tasks@[i]@);
                assert(entry_cloned(self.tasks@[i]@, r.tasks@[i]@));
            }
        }
        r
    }
}

} // verus!
