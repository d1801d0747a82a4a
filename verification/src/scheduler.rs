//! The scheduling engine: decisions about when a job gets a timer, and the
//! bookkeeping of live timer handles.
//!
//! The host owns the actual clock.  It asks [`ScrapingScheduler::plan_schedule`]
//! what a job needs, creates a timer for the returned cron expression, and
//! records the timer's handle with [`ScrapingScheduler::commit_schedule`].
//! Every handle the engine hands back (the displaced binding on commit, or
//! the removed binding on unschedule) must be retired from the clock, so the
//! clock's live timers stay exactly the registry's bindings.

use vstd::prelude::*;
use vstd::string::StringExecFns;

use crate::models::ScrapingJob;
use crate::registry::JobRegistry;
use crate::schedule::cron_accepts;
use crate::schedule::parse_schedule;
use crate::schedule::spec_parse_schedule;
use crate::schedule::InvalidScheduleError;

verus! {

/// Why a job could not be scheduled.
#[derive(Debug, Clone)]
pub enum ScheduleError {
    /// The job has no persisted id; it must be stored before scheduling.
    MissingId,
    /// The job's schedule string is neither an alias nor valid cron.
    InvalidSchedule(InvalidScheduleError),
}

impl ScheduleError {
    /// A human-readable description of the error.
    pub fn message(&self) -> (r: String)
        ensures
            self is MissingId ==> r@ == "Job must have an ID to be scheduled"@,
            self matches ScheduleError::InvalidSchedule(e) ==> r@ == "Invalid schedule format: "@
                + e.schedule@,
    {
        match self {
            ScheduleError::MissingId => "Job must have an ID to be scheduled".to_owned(),
            ScheduleError::InvalidSchedule(e) => e.message(),
        }
    }
}

/// What the clock must do for a schedule request.
#[derive(Debug, Clone)]
pub enum SchedulePlan {
    /// The job is inactive: scheduling it is a successful no-op.
    SkipInactive,
    /// Create a timer firing on this cron expression for this job id, then
    /// record its handle with `commit_schedule`.
    Register { job_id: i64, cron: String },
}

/// The registry effect of a reschedule: the old binding goes; a new handle
/// is bound only while the job is active.
pub open spec fn spec_reschedule(
    handles: Map<i64, u128>,
    job_id: i64,
    active: bool,
    handle: u128,
) -> Map<i64, u128> {
    if active {
        handles.remove(job_id).insert(job_id, handle)
    } else {
        handles.remove(job_id)
    }
}

/// The engine: owns the registry of live timer handles and decides, per
/// job, whether and on what cron expression a timer runs.
pub struct ScrapingScheduler {
    registry: JobRegistry,
}

impl View for ScrapingScheduler {
    type V = Map<i64, u128>;

    closed spec fn view(&self) -> Map<i64, u128> {
        self.registry@
    }
}

impl ScrapingScheduler {
    /// The registry's bookkeeping invariant.
    pub closed spec fn wf(self) -> bool {
        self.registry.wf()
    }

    /// Creates an engine with no scheduled jobs.
    pub fn new() -> (s: ScrapingScheduler)
        ensures
            s.wf(),
            s@ == Map::<i64, u128>::empty(),
    {
        ScrapingScheduler { registry: JobRegistry::new() }
    }

    /// Decides what scheduling a job requires: nothing for an inactive job,
    /// an error for a job without an id or with a bad schedule, and
    /// otherwise a timer on the job's resolved cron expression.
    pub fn plan_schedule(&self, job: &ScrapingJob) -> (r: Result<SchedulePlan, ScheduleError>)
        ensures
            !job.is_active ==> r matches Ok(SchedulePlan::SkipInactive),
            job.is_active ==> match job.id {
                None => r matches Err(ScheduleError::MissingId),
                Some(id) => match spec_parse_schedule(job.schedule@) {
                    Some(cron) => (r matches Ok(SchedulePlan::Register { job_id, cron: c })
                        && job_id == id && c@ == cron),
                    None => (r matches Err(ScheduleError::InvalidSchedule(e)) && e.schedule@
                        == job.schedule@),
                },
            },
    {
        if !job.is_active {
            return Ok(SchedulePlan::SkipInactive);
        }
        let job_id = match job.id {
            Some(id) => id,
            None => {
                return Err(ScheduleError::MissingId);
            },
        };
        match parse_schedule(job.schedule.as_str()) {
            Ok(cron) => Ok(SchedulePlan::Register { job_id, cron }),
            Err(e) => Err(ScheduleError::InvalidSchedule(e)),
        }
    }

    /// Records the handle of a freshly created timer for a job.  The handle
    /// it returns is the binding this one displaces; the caller must retire
    /// that timer, so that the job keeps exactly one live handle.
    pub fn commit_schedule(&mut self, job_id: i64, handle: u128) -> (retired: Option<u128>)
        requires
            old(self).wf(),
        ensures
            final(self).wf(),
            final(self)@ == old(self)@.insert(job_id, handle),
            retired == (if old(self)@.dom().contains(job_id) {
                Some(old(self)@[job_id])
            } else {
                Option::<u128>::None
            }),
    {
        self.registry.put(job_id, handle)
    }

    /// Removes a job's binding and returns the handle that was live for it,
    /// which the caller must retire.  A job without a binding is left as it
    /// is, so unscheduling is idempotent.
    pub fn unschedule_job(&mut self, job_id: i64) -> (retired: Option<u128>)
        requires
            old(self).wf(),
        ensures
            final(self).wf(),
            final(self)@ == old(self)@.remove(job_id),
            retired == (if old(self)@.dom().contains(job_id) {
                Some(old(self)@[job_id])
            } else {
                Option::<u128>::None
            }),
    {
        self.registry.remove(job_id)
    }

    /// Whether a job currently holds a live handle.
    pub fn is_scheduled(&self, job_id: i64) -> (r: bool)
        ensures
            r == self@.dom().contains(job_id),
    {
        self.registry.contains(job_id)
    }

    /// The number of jobs that hold a live handle.
    pub fn scheduled_count(&self) -> (n: usize)
        requires
            self.wf(),
        ensures
            n == self@.dom().len(),
    {
        self.registry.len()
    }

    /// The ids of all jobs that hold a live handle, without duplicates.
    pub fn get_scheduled_jobs(&self) -> (r: Vec<i64>)
        requires
            self.wf(),
        ensures
            r@.no_duplicates(),
            forall|i: int| 0 <= i < r@.len() ==> self@.dom().contains(#[trigger] r@[i]),
            forall|k: i64| self@.dom().contains(k) ==> r@.contains(k),
    {
        self.registry.job_ids()
    }

    /// Resolves a schedule string and checks that the cron grammar accepts
    /// the resolved expression, registering nothing.
    pub fn validate_cron_expression(&self, expression: &str) -> (r: Result<
        bool,
        InvalidScheduleError,
    >)
        ensures
            match r {
                Ok(b) => b && (spec_parse_schedule(expression@) matches Some(cron)
                    && cron_accepts(cron)),
                Err(e) => e.schedule@ == expression@ && match spec_parse_schedule(expression@) {
                    Some(cron) => !cron_accepts(cron),
                    None => true,
                },
            },
    {
        let cron = match parse_schedule(expression) {
            Ok(c) => c,
            Err(e) => {
                return Err(e);
            },
        };
        if crate::schedule::cron_expression_accepted(cron.as_str()) {
            Ok(true)
        } else {
            Err(InvalidScheduleError { schedule: String::from_str(expression) })
        }
    }
}

/// Scheduling a job and then unscheduling it leaves the registry with no
/// handle for that id, whatever was bound before.
pub proof fn law_schedule_then_unschedule(handles: Map<i64, u128>, job_id: i64, handle: u128)
    ensures
        !handles.insert(job_id, handle).remove(job_id).dom().contains(job_id),
{
}

/// A reschedule leaves at most one binding for the job: exactly the new
/// handle while the job is active, none otherwise; other jobs keep their
/// bindings.  An active reschedule has the same effect on the registry as
/// binding the new handle directly.
pub proof fn law_reschedule_single_handle(
    handles: Map<i64, u128>,
    job_id: i64,
    active: bool,
    handle: u128,
)
    ensures
        active ==> spec_reschedule(handles, job_id, active, handle).dom().contains(job_id)
            && spec_reschedule(handles, job_id, active, handle)[job_id] == handle,
        !active ==> !spec_reschedule(handles, job_id, active, handle).dom().contains(job_id),
        active ==> spec_reschedule(handles, job_id, active, handle) == handles.insert(
            job_id,
            handle,
        ),
        forall|other: i64|
            other != job_id ==> spec_reschedule(handles, job_id, active, handle).dom().contains(
                other,
            ) == handles.dom().contains(other),
        forall|other: i64|
            other != job_id && handles.dom().contains(other) ==> spec_reschedule(
                handles,
                job_id,
                active,
                handle,
            )[other] == handles[other],
{
    if active {
        assert(spec_reschedule(handles, job_id, active, handle) =~= handles.insert(
            job_id,
            handle,
        ));
    }
}

/// However many times a job is rescheduled in a row, the registry ends as
/// after the last reschedule alone.
pub proof fn law_reschedule_last_wins(
    handles: Map<i64, u128>,
    job_id: i64,
    first_active: bool,
    first_handle: u128,
    second_active: bool,
    second_handle: u128,
)
    ensures
        spec_reschedule(
            spec_reschedule(handles, job_id, first_active, first_handle),
            job_id,
            second_active,
            second_handle,
        ) == spec_reschedule(handles, job_id, second_active, second_handle),
{
    assert(spec_reschedule(
        spec_reschedule(handles, job_id, first_active, first_handle),
        job_id,
        second_active,
        second_handle,
    ) =~= spec_reschedule(handles, job_id, second_active, second_handle));
}

} // verus!
