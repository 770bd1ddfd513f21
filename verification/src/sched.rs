//! The frame-tick scheduler.
//!
//! The scheduler holds at most one active task — the whole current screen
//! — and is stepped exactly once per external frame signal. A step
//! resumes the active task exactly once and never more; an absent task is
//! never resumed, and a task that completes during its step leaves the
//! scheduler at once, so a completed task is never resumed either. There
//! is no queue and no priority: installing a new task replaces the old
//! one, which is the only way to abandon a running screen, and the
//! replaced task's claims must already have been unwound.

use vstd::prelude::*;

use crate::gpu::Gpu;
use crate::input::InputFrame;
use crate::task::{Resumed, ScreenTask};

verus! {

/// The slot for the single active task.
pub struct Scheduler {
    task: Option<ScreenTask>,
}

impl Scheduler {
    /// The active task, if one is installed.
    pub closed spec fn spec_task(&self) -> Option<ScreenTask> {
        self.task
    }

    pub open spec fn has_task(&self) -> bool {
        self.spec_task().is_some()
    }

    /// The stored task is live against the display and never completed,
    /// and it has headroom to be resumed again.
    pub open spec fn wf(&self, gpu: Gpu) -> bool {
        match self.spec_task() {
            Some(t) => {
                &&& t.wf(gpu)
                &&& !t.is_done()
            },
            None => true,
        }
    }

    /// A scheduler with no active task.
    pub fn new() -> (s: Scheduler)
        ensures
            !s.has_task(),
    {
        Scheduler { task: None }
    }

    /// Install a new task, discarding the previous one. The previous
    /// task's resource claims must already have been released: dropping
    /// it here runs no teardown.
    pub fn set(&mut self, task: ScreenTask)
        requires
            !task.is_done(),
        ensures
            final(self).spec_task() == Some(task),
    {
        self.task = Some(task);
    }

    /// The installed task, if any.
    pub fn task_ref(&self) -> (r: &Option<ScreenTask>)
        ensures
            *r == self.spec_task(),
    {
        &self.task
    }

    /// Whether a task is installed.
    pub fn is_active(&self) -> (r: bool)
        ensures
            r == self.has_task(),
    {
        self.task.is_some()
    }

    /// One frame tick: resume the active task exactly once.
    ///
    /// With no task installed nothing at all happens. With a task
    /// installed, the task is resumed exactly once — its resume count
    /// rises by exactly one — and if it completes during this step it is
    /// removed, so no later step can resume it again.
    pub fn step(&mut self, gpu: &mut Gpu, input: &InputFrame) -> (r: Resumed)
        requires
            old(gpu).wf(),
            old(self).wf(*old(gpu)),
        ensures
            final(gpu).wf(),
            final(self).wf(*final(gpu)),
            !old(self).has_task() ==> {
                &&& *final(self) == *old(self)
                &&& *final(gpu) == *old(gpu)
                &&& r.finished.is_none() && r.banked_item.is_none() && r.roster.is_none()
            },
            old(self).has_task() ==> {
                &&& (r.finished.is_some() ==> !final(self).has_task())
                &&& (r.finished.is_none() ==> (final(self).spec_task() matches Some(t)
                    && t.spec_resume_count() == (if old(self).spec_task().unwrap().spec_resume_count()
                    < 0xFFFF_FFFF_FFFF_FFFF {
                        old(self).spec_task().unwrap().spec_resume_count() + 1
                    } else {
                        old(self).spec_task().unwrap().spec_resume_count()
                    }) && !t.is_done()))
            },
    {
        let r = match &mut self.task {
            None => {
                return Resumed { finished: None, banked_item: None, roster: None };
            },
            Some(t) => t.resume(gpu, input),
        };
        if r.finished.is_some() {
            self.task = None;
        }
        r
    }
}

} // verus!
