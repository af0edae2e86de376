//! One website's archive job as a state machine driven by outside events.

use vstd::prelude::*;

use crate::checker::WebsiteStatus;
use crate::command::{destination, destination_path, host_of, substitute_url, substituted, url_host};
use crate::website::Website;

verus! {

/// How an archive job ended.
#[derive(Debug)]
pub enum JobOutcome {
    /// The archive was produced and moved; `clean_exit` tells whether the
    /// archive program exited with success.
    Archived { clean_exit: bool },
    /// The website is not reachable: nothing to archive.
    SkippedDead,
    /// The liveness probe failed; the website is left as it is.
    CheckFailed { error: String },
    /// Writing the new liveness flag to the store failed.
    StoreFailed { error: String },
    /// No archive location can be derived from the resolved URL.
    NoHost,
    /// The archive program could not be started.
    SpawnFailed { error: String },
    /// Creating the destination or moving the archive failed.
    RelocationFailed { error: String },
}

/// Where an archive job stands.
#[derive(Debug)]
pub enum JobPhase {
    /// Waiting for the liveness probe.
    Checking,
    /// Waiting for the store to record a changed liveness flag.
    Syncing,
    /// Waiting for a worker permit.
    WaitingPermit,
    /// Holding a permit while the archive program runs.
    Running,
    /// Holding a permit while the destination directory is made.
    CreatingDir,
    /// Holding a permit while the archive is moved into place.
    Moving,
    Finished(JobOutcome),
}

/// What the outside world reports back to a job.
#[derive(Debug)]
pub enum JobEvent {
    Checked(WebsiteStatus),
    StoreUpdated(Result<(), String>),
    /// The archive program exited (`Ok`, with whether it succeeded) or could
    /// not be started (`Err`).
    ProcessExited(Result<bool, String>),
    DirCreated(Result<(), String>),
    Moved(Result<(), String>),
}

/// Outside work a job asks for.
#[derive(Debug)]
pub enum JobAction {
    Check { url: String },
    UpdateStore { id: String, is_valid: bool },
    Spawn { program: String, args: Vec<String> },
    CreateDir { path: String },
    Move { from: String, to: String },
}

impl JobPhase {
    pub open spec fn holds_permit(&self) -> bool {
        self is Running || self is CreatingDir || self is Moving
    }

    /// The event is the one this phase waits for.
    pub open spec fn accepts(&self, event: &JobEvent) -> bool {
        match event {
            JobEvent::Checked(_) => self is Checking,
            JobEvent::StoreUpdated(_) => self is Syncing,
            JobEvent::ProcessExited(_) => self is Running,
            JobEvent::DirCreated(_) => self is CreatingDir,
            JobEvent::Moved(_) => self is Moving,
        }
    }

    pub open spec fn is_check_failed(&self) -> bool {
        self matches JobPhase::Finished(JobOutcome::CheckFailed { .. })
    }

    pub fn waits_for(&self, event: &JobEvent) -> (r: bool)
        ensures
            r == self.accepts(event),
    {
        match event {
            JobEvent::Checked(_) => matches!(self, JobPhase::Checking),
            JobEvent::StoreUpdated(_) => matches!(self, JobPhase::Syncing),
            JobEvent::ProcessExited(_) => matches!(self, JobPhase::Running),
            JobEvent::DirCreated(_) => matches!(self, JobPhase::CreatingDir),
            JobEvent::Moved(_) => matches!(self, JobPhase::Moving),
        }
    }

    pub fn is_finished(&self) -> (r: bool)
        ensures
            r == (self is Finished),
    {
        matches!(self, JobPhase::Finished(_))
    }

    pub fn is_waiting(&self) -> (r: bool)
        ensures
            r == (self is WaitingPermit),
    {
        matches!(self, JobPhase::WaitingPermit)
    }

    pub fn holds(&self) -> (r: bool)
        ensures
            r == self.holds_permit(),
    {
        matches!(self, JobPhase::Running | JobPhase::CreatingDir | JobPhase::Moving)
    }
}

/// The work of one run on one website: check, sync the store, archive,
/// relocate. The counters record the outside work the job has asked for.
#[derive(Debug)]
pub struct ArchiveJob {
    /// The record as it was scheduled.
    pub website: Website,
    pub phase: JobPhase,
    /// The URL the probe ended on.
    pub resolved_url: String,
    /// Whether the probe found the website reachable.
    pub is_valid: bool,
    pub clean_exit: bool,
    /// Where the archive program leaves its output.
    pub source_path: String,
    /// Where the output is moved to.
    pub dest_path: String,
    pub store_writes: u32,
    pub spawns: u32,
    pub permits_acquired: u32,
    pub permits_released: u32,
}

impl ArchiveJob {
    /// The probe disagrees with the stored flag.
    pub open spec fn stale(&self) -> bool {
        self.website.is_valid != self.is_valid
    }

    /// The probe has answered.
    pub open spec fn checked(&self) -> bool {
        !(self.phase is Checking) && !self.phase.is_check_failed()
    }

    pub open spec fn wf(&self) -> bool {
        &&& self.permits_acquired <= 1
        &&& self.spawns == self.permits_acquired
        &&& self.permits_released <= self.permits_acquired
        &&& (self.phase.holds_permit() <==> (self.permits_acquired == 1 && self.permits_released
            == 0))
        &&& (self.permits_acquired == 1 ==> self.is_valid)
        &&& (self.phase is WaitingPermit ==> self.is_valid && self.permits_acquired == 0)
        &&& (self.phase is Syncing ==> self.stale() && self.permits_acquired == 0)
        &&& (!self.checked() ==> self.store_writes == 0 && self.permits_acquired == 0)
        &&& (self.checked() ==> self.store_writes == (if self.stale() {
            1u32
        } else {
            0u32
        }))
        &&& (self.phase matches JobPhase::Finished(JobOutcome::SkippedDead) ==> !self.is_valid)
    }

    /// What a settled probe leads to: nothing more for a dead website or
    /// one without a host; a wait for a permit otherwise.
    pub open spec fn proceeded(
        a: ArchiveJob,
        b: ArchiveJob,
        root: Seq<char>,
        date: Seq<char>,
    ) -> bool {
        if !a.is_valid {
            b == ArchiveJob { phase: JobPhase::Finished(JobOutcome::SkippedDead), ..a }
        } else {
            match url_host(a.resolved_url@) {
                None => b == ArchiveJob { phase: JobPhase::Finished(JobOutcome::NoHost), ..a },
                Some(h) => {
                    &&& b.phase is WaitingPermit
                    &&& b.source_path@ == h
                    &&& b.dest_path@ == destination(root, a.website.id@, date)
                    &&& b == ArchiveJob {
                        phase: b.phase,
                        source_path: b.source_path,
                        dest_path: b.dest_path,
                        ..a
                    }
                },
            }
        }
    }

    /// The probe answered with `url`, reachable or not.
    pub open spec fn resolved(
        a: ArchiveJob,
        b: ArchiveJob,
        url: String,
        valid: bool,
        act: Option<JobAction>,
        root: Seq<char>,
        date: Seq<char>,
    ) -> bool {
        let mid = ArchiveJob { resolved_url: url, is_valid: valid, ..a };
        if a.website.is_valid != valid {
            &&& b == ArchiveJob { phase: JobPhase::Syncing, store_writes: 1, ..mid }
            &&& act == Some(JobAction::UpdateStore { id: a.website.id, is_valid: valid })
        } else {
            &&& act is None
            &&& Self::proceeded(mid, b, root, date)
        }
    }

    /// The job gives its permit back and ends with `outcome`.
    pub open spec fn released(a: ArchiveJob, b: ArchiveJob, outcome: JobOutcome) -> bool {
        b == ArchiveJob {
            phase: JobPhase::Finished(outcome),
            permits_released: (a.permits_released + 1) as u32,
            ..a
        }
    }

    /// One step of a job on the event it waits for.
    pub open spec fn stepped(
        a: ArchiveJob,
        b: ArchiveJob,
        event: JobEvent,
        act: Option<JobAction>,
        root: Seq<char>,
        date: Seq<char>,
    ) -> bool {
        match event {
            JobEvent::Checked(status) => match status {
                WebsiteStatus::Valid(u) => Self::resolved(a, b, u, true, act, root, date),
                WebsiteStatus::Redirected(u) => Self::resolved(a, b, u, true, act, root, date),
                WebsiteStatus::Dead(u) => Self::resolved(a, b, u, false, act, root, date),
                WebsiteStatus::Failed(error) => {
                    &&& act is None
                    &&& b == ArchiveJob {
                        phase: JobPhase::Finished(JobOutcome::CheckFailed { error }),
                        ..a
                    }
                },
            },
            JobEvent::StoreUpdated(res) => match res {
                Ok(_) => act is None && Self::proceeded(a, b, root, date),
                Err(error) => act is None && b == ArchiveJob {
                    phase: JobPhase::Finished(JobOutcome::StoreFailed { error }),
                    ..a
                },
            },
            JobEvent::ProcessExited(res) => match res {
                Ok(success) => {
                    &&& act == Some(JobAction::CreateDir { path: a.dest_path })
                    &&& b == ArchiveJob { phase: JobPhase::CreatingDir, clean_exit: success, ..a }
                },
                Err(error) => act is None && Self::released(
                    a,
                    b,
                    JobOutcome::SpawnFailed { error },
                ),
            },
            JobEvent::DirCreated(res) => match res {
                Ok(_) => {
                    &&& act == Some(JobAction::Move { from: a.source_path, to: a.dest_path })
                    &&& b == ArchiveJob { phase: JobPhase::Moving, ..a }
                },
                Err(error) => act is None && Self::released(
                    a,
                    b,
                    JobOutcome::RelocationFailed { error },
                ),
            },
            JobEvent::Moved(res) => match res {
                Ok(_) => act is None && Self::released(
                    a,
                    b,
                    JobOutcome::Archived { clean_exit: a.clean_exit },
                ),
                Err(error) => act is None && Self::released(
                    a,
                    b,
                    JobOutcome::RelocationFailed { error },
                ),
            },
        }
    }

    /// A fresh job for `website`, about to be checked.
    pub fn new(website: Website) -> (r: ArchiveJob)
        ensures
            r.wf(),
            r.website == website,
            r.phase is Checking,
            r.is_valid == website.is_valid,
            r.store_writes == 0,
            r.spawns == 0,
            r.permits_acquired == 0,
            r.permits_released == 0,
    {
        let is_valid = website.is_valid;
        ArchiveJob {
            website,
            phase: JobPhase::Checking,
            resolved_url: String::new(),
            is_valid,
            clean_exit: false,
            source_path: String::new(),
            dest_path: String::new(),
            store_writes: 0,
            spawns: 0,
            permits_acquired: 0,
            permits_released: 0,
        }
    }
    /// Settles the job after its probe: ends it for a dead website or one
    /// without a host, otherwise fixes its paths and lets it wait for a permit.
    fn proceed(&mut self, root: &str, date: &str)
        requires
            old(self).phase is Checking || old(self).phase is Syncing,
        ensures
            Self::proceeded(*old(self), *final(self), root@, date@),
    {
        if !self.is_valid {
            self.phase = JobPhase::Finished(JobOutcome::SkippedDead);
            return ;
        }
        let host = host_of(self.resolved_url.as_str());
        self.place(host, root, date);
    }

    /// Places a reachable job's archive by the host of its resolved URL:
    /// the output is expected at `host` and moves to `<root>/<id>/<date>`.
    /// Without a host the job ends.
    pub fn place(&mut self, host: Option<String>, root: &str, date: &str)
        requires
            old(self).phase is Checking || old(self).phase is Syncing,
        ensures
            match host {
                None => *final(self) == (ArchiveJob {
                    phase: JobPhase::Finished(JobOutcome::NoHost),
                    ..*old(self)
                }),
                Some(h) => {
                    &&& final(self).phase is WaitingPermit
                    &&& final(self).source_path == h
                    &&& final(self).dest_path@ == destination(root@, old(self).website.id@, date@)
                    &&& *final(self) == (ArchiveJob {
                        phase: final(self).phase,
                        source_path: final(self).source_path,
                        dest_path: final(self).dest_path,
                        ..*old(self)
                    })
                },
            },
    {
        match host {
            None => {
                self.phase = JobPhase::Finished(JobOutcome::NoHost);
            },
            Some(h) => {
                self.dest_path = destination_path(root, self.website.id.as_str(), date);
                self.source_path = h;
                self.phase = JobPhase::WaitingPermit;
            },
        }
    }

    fn resolve(&mut self, url: String, valid: bool, root: &str, date: &str) -> (r: Option<
        JobAction,
    >)
        requires
            old(self).phase is Checking,
        ensures
            Self::resolved(*old(self), *final(self), url, valid, r, root@, date@),
    {
        self.resolved_url = url;
        self.is_valid = valid;
        if self.website.is_stale(valid) {
            self.store_writes = 1;
            self.phase = JobPhase::Syncing;
            Some(JobAction::UpdateStore { id: self.website.id.clone(), is_valid: valid })
        } else {
            self.proceed(root, date);
            None
        }
    }

    fn finish_holding(&mut self, outcome: JobOutcome)
        requires
            old(self).wf(),
            old(self).phase.holds_permit(),
        ensures
            Self::released(*old(self), *final(self), outcome),
    {
        self.permits_released = self.permits_released + 1;
        self.phase = JobPhase::Finished(outcome);
    }

    /// Advances the job on the event it waits for and returns the outside
    /// work it asks for next, if any. `root` and `date` place the archive.
    pub fn on_event(&mut self, event: JobEvent, root: &str, date: &str) -> (r: Option<JobAction>)
        requires
            old(self).wf(),
            old(self).phase.accepts(&event),
        ensures
            final(self).wf(),
            Self::stepped(*old(self), *final(self), event, r, root@, date@),
    {
        match event {
            JobEvent::Checked(status) => match status {
                WebsiteStatus::Valid(u) => self.resolve(u, true, root, date),
                WebsiteStatus::Redirected(u) => self.resolve(u, true, root, date),
                WebsiteStatus::Dead(u) => self.resolve(u, false, root, date),
                WebsiteStatus::Failed(error) => {
                    self.phase = JobPhase::Finished(JobOutcome::CheckFailed { error });
                    None
                },
            },
            JobEvent::StoreUpdated(res) => match res {
                Ok(_) => {
                    self.proceed(root, date);
                    None
                },
                Err(error) => {
                    self.phase = JobPhase::Finished(JobOutcome::StoreFailed { error });
                    None
                },
            },
            JobEvent::ProcessExited(res) => match res {
                Ok(success) => {
                    self.clean_exit = success;
                    self.phase = JobPhase::CreatingDir;
                    Some(JobAction::CreateDir { path: self.dest_path.clone() })
                },
                Err(error) => {
                    self.finish_holding(JobOutcome::SpawnFailed { error });
                    None
                },
            },
            JobEvent::DirCreated(res) => match res {
                Ok(_) => {
                    self.phase = JobPhase::Moving;
                    Some(
                        JobAction::Move {
                            from: self.source_path.clone(),
                            to: self.dest_path.clone(),
                        },
                    )
                },
                Err(error) => {
                    self.finish_holding(JobOutcome::RelocationFailed { error });
                    None
                },
            },
            JobEvent::Moved(res) => match res {
                Ok(_) => {
                    let clean_exit = self.clean_exit;
                    self.finish_holding(JobOutcome::Archived { clean_exit });
                    None
                },
                Err(error) => {
                    self.finish_holding(JobOutcome::RelocationFailed { error });
                    None
                },
            },
        }
    }

    /// Hands the job a permit and asks for the archive program to be run on
    /// the resolved URL.
    pub fn start(&mut self, program: &String, template: &Vec<String>) -> (r: JobAction)
        requires
            old(self).wf(),
            old(self).phase is WaitingPermit,
        ensures
            final(self).wf(),
            *final(self) == (ArchiveJob {
                phase: JobPhase::Running,
                spawns: 1,
                permits_acquired: 1,
                ..*old(self)
            }),
            Self::spawns_for(r, *program, *template, old(self).resolved_url@),
    {
        self.spawns = 1;
        self.permits_acquired = 1;
        self.phase = JobPhase::Running;
        let args = substitute_url(template, self.resolved_url.as_str());
        JobAction::Spawn { program: program.clone(), args }
    }

    /// The action runs `program` with the template filled in with `url`.
    pub open spec fn spawns_for(
        act: JobAction,
        program: String,
        template: Vec<String>,
        url: Seq<char>,
    ) -> bool {
        &&& act matches JobAction::Spawn { program: p, args }
        &&& p == program
        &&& args@.len() == template@.len()
        &&& forall|k: int|
            0 <= k < args@.len() ==> #[trigger] args@[k]@ == substituted(template@[k]@, url)
    }
}

} // verus!
