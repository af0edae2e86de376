//! A bounded pool of archive jobs and the laws it keeps.

use vstd::prelude::*;

use crate::checker::WebsiteStatus;
use crate::command::local_run_date;
use crate::job::{ArchiveJob, JobAction, JobEvent, JobOutcome, JobPhase};
use crate::website::Website;

verus! {

/// Jobs holding a worker permit.
pub open spec fn permit_holders(jobs: Seq<ArchiveJob>) -> nat
    decreases jobs.len(),
{
    if jobs.len() == 0 {
        0
    } else {
        permit_holders(jobs.drop_last()) + if jobs.last().phase.holds_permit() {
            1nat
        } else {
            0nat
        }
    }
}

/// Jobs whose archive program is running.
pub open spec fn running_jobs(jobs: Seq<ArchiveJob>) -> nat
    decreases jobs.len(),
{
    if jobs.len() == 0 {
        0
    } else {
        running_jobs(jobs.drop_last()) + if jobs.last().phase is Running {
            1nat
        } else {
            0nat
        }
    }
}

pub open spec fn holds_count(j: ArchiveJob) -> nat {
    if j.phase.holds_permit() {
        1
    } else {
        0
    }
}

proof fn lemma_holders_update(jobs: Seq<ArchiveJob>, k: int, x: ArchiveJob)
    requires
        0 <= k < jobs.len(),
    ensures
        permit_holders(jobs.update(k, x)) + holds_count(jobs[k]) == permit_holders(jobs)
            + holds_count(x),
    decreases jobs.len(),
{
    if k == jobs.len() - 1 {
        assert(jobs.update(k, x).drop_last() =~= jobs.drop_last());
    } else {
        lemma_holders_update(jobs.drop_last(), k, x);
        assert(jobs.update(k, x).drop_last() =~= jobs.drop_last().update(k, x));
    }
}

proof fn lemma_holders_push(jobs: Seq<ArchiveJob>, x: ArchiveJob)
    ensures
        permit_holders(jobs.push(x)) == permit_holders(jobs) + holds_count(x),
{
    assert(jobs.push(x).drop_last() =~= jobs);
}

proof fn lemma_running_within_holders(jobs: Seq<ArchiveJob>)
    ensures
        running_jobs(jobs) <= permit_holders(jobs),
    decreases jobs.len(),
{
    if jobs.len() > 0 {
        lemma_running_within_holders(jobs.drop_last());
    }
}

proof fn lemma_no_holders_when_finished(jobs: Seq<ArchiveJob>)
    requires
        forall|k: int| 0 <= k < jobs.len() ==> (#[trigger] jobs[k]).phase is Finished,
    ensures
        permit_holders(jobs) == 0,
    decreases jobs.len(),
{
    if jobs.len() > 0 {
        let rest = jobs.drop_last();
        assert forall|k: int| 0 <= k < rest.len() implies (#[trigger] rest[k]).phase is Finished by {
            assert(rest[k] == jobs[k]);
        }
        lemma_no_holders_when_finished(rest);
        assert(jobs.last() == jobs[jobs.len() - 1]);
    }
}

/// A pool of archive jobs sharing a fixed number of worker permits. Each
/// job is driven by events; a permit is held only while the archive program
/// runs and its output is moved.
#[derive(Debug)]
pub struct ArchiveController {
    pub program: String,
    /// Arguments of the archive program, with `{url}` placeholders.
    pub args: Vec<String>,
    pub output_root: String,
    /// The date of the run, `YYYY-MM-DD`.
    pub run_date: String,
    pub num_workers: usize,
    pub permits_in_use: usize,
    pub jobs: Vec<ArchiveJob>,
}

impl ArchiveController {
    pub open spec fn wf(&self) -> bool {
        &&& forall|k: int| 0 <= k < self.jobs@.len() ==> (#[trigger] self.jobs@[k]).wf()
        &&& self.permits_in_use == permit_holders(self.jobs@)
        &&& self.permits_in_use <= self.num_workers
    }

    /// Program, arguments, paths and pool size are those it was made with.
    pub open spec fn same_setup(&self, other: &ArchiveController) -> bool {
        &&& self.program == other.program
        &&& self.args == other.args
        &&& self.output_root == other.output_root
        &&& self.run_date == other.run_date
        &&& self.num_workers == other.num_workers
    }

    pub open spec fn all_finished(&self) -> bool {
        forall|k: int| 0 <= k < self.jobs@.len() ==> (#[trigger] self.jobs@[k]).phase is Finished
    }

    /// A pool dated with the given run date.
    pub fn with_run_date(
        program: String,
        args: Vec<String>,
        output_root: String,
        run_date: String,
        num_workers: usize,
    ) -> (r: ArchiveController)
        ensures
            r.wf(),
            r.program == program,
            r.args == args,
            r.output_root == output_root,
            r.run_date == run_date,
            r.num_workers == num_workers,
            r.permits_in_use == 0,
            r.jobs@.len() == 0,
    {
        ArchiveController {
            program,
            args,
            output_root,
            run_date,
            num_workers,
            permits_in_use: 0,
            jobs: Vec::new(),
        }
    }

    /// A pool dated with today's local date.
    pub fn new(program: String, args: Vec<String>, output_root: String, num_workers: usize) -> (r:
        ArchiveController)
        ensures
            r.wf(),
            r.program == program,
            r.args == args,
            r.output_root == output_root,
            r.num_workers == num_workers,
            r.permits_in_use == 0,
            r.jobs@.len() == 0,
    {
        let run_date = local_run_date();
        Self::with_run_date(program, args, output_root, run_date, num_workers)
    }

    /// Schedules a job for `website` and returns its index with the probe
    /// it asks for.
    pub fn archive(&mut self, website: Website) -> (r: (usize, JobAction))
        requires
            old(self).wf(),
            old(self).jobs@.len() < usize::MAX,
        ensures
            final(self).wf(),
            final(self).same_setup(old(self)),
            final(self).permits_in_use == old(self).permits_in_use,
            r.0 == old(self).jobs@.len(),
            final(self).jobs@.len() == old(self).jobs@.len() + 1,
            forall|k: int| 0 <= k < r.0 ==> final(self).jobs@[k] == old(self).jobs@[k],
            final(self).jobs@[r.0 as int].website == website,
            final(self).jobs@[r.0 as int].phase is Checking,
            final(self).jobs@[r.0 as int].store_writes == 0,
            final(self).jobs@[r.0 as int].spawns == 0,
            final(self).jobs@[r.0 as int].permits_acquired == 0,
            final(self).jobs@[r.0 as int].permits_released == 0,
            r.1 == (JobAction::Check { url: website.url }),
    {
        let url = website.url.clone();
        let job = ArchiveJob::new(website);
        let idx = self.jobs.len();
        proof {
            lemma_holders_push(self.jobs@, job);
        }
        self.jobs.push(job);
        (idx, JobAction::Check { url })
    }

    /// Hands job `job` the event it waits for and returns the outside work
    /// it asks for next. An event the job does not wait for (an index out of
    /// range, a second probe result, a late report) changes nothing. A job
    /// that ends while holding a permit gives it back.
    pub fn handle(&mut self, job: usize, event: JobEvent) -> (r: Option<JobAction>)
        requires
            old(self).wf(),
        ensures
            final(self).wf(),
            final(self).same_setup(old(self)),
            final(self).jobs@.len() == old(self).jobs@.len(),
            !(job < old(self).jobs@.len() && old(self).jobs@[job as int].phase.accepts(&event)) ==> {
                &&& *final(self) == *old(self)
                &&& r is None
            },
            job < old(self).jobs@.len() && old(self).jobs@[job as int].phase.accepts(&event) ==> {
                &&& ArchiveJob::stepped(
                    old(self).jobs@[job as int],
                    final(self).jobs@[job as int],
                    event,
                    r,
                    old(self).output_root@,
                    old(self).run_date@,
                )
                &&& final(self).jobs@ == old(self).jobs@.update(
                    job as int,
                    final(self).jobs@[job as int],
                )
                &&& final(self).permits_in_use == old(self).permits_in_use - holds_count(
                    old(self).jobs@[job as int],
                ) + holds_count(final(self).jobs@[job as int])
            },
    {
        if job >= self.jobs.len() || !self.jobs[job].phase.waits_for(&event) {
            return None;
        }
        let ghost before = self.jobs@;
        let held = self.jobs[job].phase.holds();
        let act = self.jobs[job].on_event(event, self.output_root.as_str(), self.run_date.as_str());
        let holds_now = self.jobs[job].phase.holds();
        proof {
            assert(self.jobs@ =~= before.update(job as int, self.jobs@[job as int]));
            lemma_holders_update(before, job as int, self.jobs@[job as int]);
            assert forall|k: int| 0 <= k < self.jobs@.len() implies (#[trigger] self.jobs@[k]).wf() by {
                if k != job {
                    assert(self.jobs@[k] == before[k]);
                }
            }
        }
        if held && !holds_now {
            self.permits_in_use = self.permits_in_use - 1;
        }
        act
    }
    /// The first job waiting for a permit, in scheduling order.
    pub fn first_waiting(&self) -> (r: Option<usize>)
        ensures
            match r {
                Some(g) => {
                    &&& g < self.jobs@.len()
                    &&& self.jobs@[g as int].phase is WaitingPermit
                    &&& forall|k: int| 0 <= k < g ==> !(#[trigger] self.jobs@[k].phase is WaitingPermit)
                },
                None => forall|k: int|
                    0 <= k < self.jobs@.len() ==> !(#[trigger] self.jobs@[k].phase is WaitingPermit),
            },
    {
        let mut k: usize = 0;
        while k < self.jobs.len()
            invariant
                k <= self.jobs@.len(),
                forall|j: int| 0 <= j < k ==> !(#[trigger] self.jobs@[j].phase is WaitingPermit),
            decreases self.jobs@.len() - k,
        {
            if self.jobs[k].phase.is_waiting() {
                return Some(k);
            }
            k = k + 1;
        }
        None
    }

    /// Grants a free permit to the first waiting job and returns the run of
    /// the archive program it asks for. Returns none, changing nothing, when
    /// every permit is taken or no job waits.
    pub fn dispatch(&mut self) -> (r: Option<(usize, JobAction)>)
        requires
            old(self).wf(),
        ensures
            final(self).wf(),
            final(self).same_setup(old(self)),
            final(self).jobs@.len() == old(self).jobs@.len(),
            match r {
                None => {
                    &&& *final(self) == *old(self)
                    &&& (old(self).permits_in_use == old(self).num_workers || forall|k: int|
                        0 <= k < old(self).jobs@.len() ==> !(
                        #[trigger] old(self).jobs@[k].phase is WaitingPermit))
                },
                Some((g, act)) => {
                    &&& g < old(self).jobs@.len()
                    &&& old(self).permits_in_use < old(self).num_workers
                    &&& old(self).jobs@[g as int].phase is WaitingPermit
                    &&& forall|k: int|
                        0 <= k < g ==> !(#[trigger] old(self).jobs@[k].phase is WaitingPermit)
                    &&& final(self).jobs@ == old(self).jobs@.update(
                        g as int,
                        ArchiveJob {
                            phase: JobPhase::Running,
                            spawns: 1,
                            permits_acquired: 1,
                            ..old(self).jobs@[g as int]
                        },
                    )
                    &&& final(self).permits_in_use == old(self).permits_in_use + 1
                    &&& ArchiveJob::spawns_for(
                        act,
                        old(self).program,
                        old(self).args,
                        old(self).jobs@[g as int].resolved_url@,
                    )
                },
            },
    {
        if self.permits_in_use >= self.num_workers {
            return None;
        }
        match self.first_waiting() {
            None => None,
            Some(g) => {
                let ghost before = self.jobs@;
                let act = self.jobs[g].start(&self.program, &self.args);
                proof {
                    assert(self.jobs@ =~= before.update(g as int, self.jobs@[g as int]));
                    lemma_holders_update(before, g as int, self.jobs@[g as int]);
                    assert forall|k: int| 0 <= k < self.jobs@.len() implies (
                    #[trigger] self.jobs@[k]).wf() by {
                        if k != g {
                            assert(self.jobs@[k] == before[k]);
                        }
                    }
                }
                self.permits_in_use = self.permits_in_use + 1;
                Some((g, act))
            },
        }
    }

    /// Every scheduled job has ended.
    pub fn is_finished(&self) -> (r: bool)
        ensures
            r == self.all_finished(),
    {
        let mut k: usize = 0;
        while k < self.jobs.len()
            invariant
                k <= self.jobs@.len(),
                forall|j: int| 0 <= j < k ==> (#[trigger] self.jobs@[j]).phase is Finished,
            decreases self.jobs@.len() - k,
        {
            if !self.jobs[k].phase.is_finished() {
                return false;
            }
            k = k + 1;
        }
        true
    }
}

/// Jobs of `jobs` that `pred` picks.
pub open spec fn count_jobs(jobs: Seq<ArchiveJob>, pred: spec_fn(ArchiveJob) -> bool) -> nat
    decreases jobs.len(),
{
    if jobs.len() == 0 {
        0
    } else {
        count_jobs(jobs.drop_last(), pred) + if pred(jobs.last()) {
            1nat
        } else {
            0nat
        }
    }
}

pub open spec fn is_archived(j: ArchiveJob) -> bool {
    j.phase matches JobPhase::Finished(JobOutcome::Archived { .. })
}

pub open spec fn is_skipped_dead(j: ArchiveJob) -> bool {
    j.phase matches JobPhase::Finished(JobOutcome::SkippedDead)
}

pub open spec fn is_failed(j: ArchiveJob) -> bool {
    j.phase is Finished && !is_archived(j) && !is_skipped_dead(j)
}

proof fn lemma_count_bounded(jobs: Seq<ArchiveJob>, pred: spec_fn(ArchiveJob) -> bool)
    ensures
        count_jobs(jobs, pred) <= jobs.len(),
    decreases jobs.len(),
{
    if jobs.len() > 0 {
        lemma_count_bounded(jobs.drop_last(), pred);
    }
}

/// Jobs of a run by how they ended.
#[derive(Debug)]
pub struct RunSummary {
    pub archived: usize,
    pub skipped_dead: usize,
    pub failed: usize,
}

impl ArchiveController {
    /// Counts the ended jobs: archived, skipped as dead, and failed.
    pub fn summary(&self) -> (r: RunSummary)
        ensures
            r.archived == count_jobs(self.jobs@, |j: ArchiveJob| is_archived(j)),
            r.skipped_dead == count_jobs(self.jobs@, |j: ArchiveJob| is_skipped_dead(j)),
            r.failed == count_jobs(self.jobs@, |j: ArchiveJob| is_failed(j)),
    {
        let ghost archived_p = |j: ArchiveJob| is_archived(j);
        let ghost dead_p = |j: ArchiveJob| is_skipped_dead(j);
        let ghost failed_p = |j: ArchiveJob| is_failed(j);
        let mut r = RunSummary { archived: 0, skipped_dead: 0, failed: 0 };
        let mut k: usize = 0;
        while k < self.jobs.len()
            invariant
                k <= self.jobs@.len(),
                archived_p == (|j: ArchiveJob| is_archived(j)),
                dead_p == (|j: ArchiveJob| is_skipped_dead(j)),
                failed_p == (|j: ArchiveJob| is_failed(j)),
                r.archived == count_jobs(self.jobs@.take(k as int), archived_p),
                r.skipped_dead == count_jobs(self.jobs@.take(k as int), dead_p),
                r.failed == count_jobs(self.jobs@.take(k as int), failed_p),
            decreases self.jobs@.len() - k,
        {
            proof {
                let next = self.jobs@.take(k + 1);
                assert(next.drop_last() =~= self.jobs@.take(k as int));
                assert(next.last() == self.jobs@[k as int]);
                lemma_count_bounded(next, archived_p);
                lemma_count_bounded(next, dead_p);
                lemma_count_bounded(next, failed_p);
                assert(count_jobs(next, archived_p) == r.archived + if is_archived(self.jobs@[k as int]) {
                    1nat
                } else {
                    0nat
                });
                assert(count_jobs(next, dead_p) == r.skipped_dead + if is_skipped_dead(self.jobs@[k as int]) {
                    1nat
                } else {
                    0nat
                });
                assert(count_jobs(next, failed_p) == r.failed + if is_failed(self.jobs@[k as int]) {
                    1nat
                } else {
                    0nat
                });
            }
            match &self.jobs[k].phase {
                JobPhase::Finished(JobOutcome::Archived { .. }) => {
                    r.archived = r.archived + 1;
                },
                JobPhase::Finished(JobOutcome::SkippedDead) => {
                    r.skipped_dead = r.skipped_dead + 1;
                },
                JobPhase::Finished(_) => {
                    r.failed = r.failed + 1;
                },
                _ => {},
            }
            k = k + 1;
        }
        proof {
            assert(self.jobs@.take(k as int) =~= self.jobs@);
        }
        r
    }
}

/// A job takes one probe result: once it has one, a further result is not
/// one it waits for.
pub proof fn lemma_single_outcome(
    a: ArchiveJob,
    b: ArchiveJob,
    first: WebsiteStatus,
    act: Option<JobAction>,
    root: Seq<char>,
    date: Seq<char>,
    second: WebsiteStatus,
)
    requires
        a.phase is Checking,
        ArchiveJob::stepped(a, b, JobEvent::Checked(first), act, root, date),
    ensures
        !b.phase.accepts(&JobEvent::Checked(second)),
{
}

/// The store is written once for a job whose probe changed the liveness
/// flag, and never for one whose probe left it as stored or failed.
pub proof fn lemma_store_write_iff_changed(c: ArchiveController, k: int)
    requires
        c.wf(),
        0 <= k < c.jobs@.len(),
        c.jobs@[k].phase is Finished,
    ensures
        c.jobs@[k].store_writes == (if !c.jobs@[k].phase.is_check_failed() && c.jobs@[k].stale() {
            1u32
        } else {
            0u32
        }),
{
    assert(c.jobs@[k].wf());
}

/// However many jobs are scheduled, no more archive programs run at once,
/// and no more permits are out, than the pool has workers.
pub proof fn lemma_processes_within_workers(c: ArchiveController)
    requires
        c.wf(),
    ensures
        running_jobs(c.jobs@) <= c.num_workers,
        permit_holders(c.jobs@) <= c.num_workers,
{
    lemma_running_within_holders(c.jobs@);
}

/// A website found dead is never archived.
pub proof fn lemma_dead_never_spawns(c: ArchiveController, k: int)
    requires
        c.wf(),
        0 <= k < c.jobs@.len(),
        !c.jobs@[k].is_valid,
    ensures
        c.jobs@[k].spawns == 0,
        c.jobs@[k].permits_acquired == 0,
{
    assert(c.jobs@[k].wf());
}

/// A redirected website counts as reachable and is archived under the URL
/// the redirect ended on.
pub proof fn lemma_redirect_uses_final_url(
    a: ArchiveJob,
    b: ArchiveJob,
    url: String,
    act: Option<JobAction>,
    root: Seq<char>,
    date: Seq<char>,
)
    requires
        a.phase is Checking,
        ArchiveJob::stepped(a, b, JobEvent::Checked(WebsiteStatus::Redirected(url)), act, root, date),
    ensures
        b.is_valid,
        b.resolved_url == url,
{
}

/// Once every job has ended, each permit taken has been given back exactly
/// once and none is out.
pub proof fn lemma_permits_balanced(c: ArchiveController)
    requires
        c.wf(),
        c.all_finished(),
    ensures
        c.permits_in_use == 0,
        forall|k: int|
            0 <= k < c.jobs@.len() ==> (#[trigger] c.jobs@[k]).permits_released
                == c.jobs@[k].permits_acquired && c.jobs@[k].permits_acquired <= 1,
{
    lemma_no_holders_when_finished(c.jobs@);
    assert forall|k: int| 0 <= k < c.jobs@.len() implies (#[trigger] c.jobs@[k]).permits_released
        == c.jobs@[k].permits_acquired && c.jobs@[k].permits_acquired <= 1 by {
        assert(c.jobs@[k].wf());
        assert(c.jobs@[k].phase is Finished);
    }
}

} // verus!
