//! The job controller: which runs a clip job makes, in which order, and what becomes of
//! the shared slots (active process, output path) at each step.
use vstd::prelude::*;
use crate::aggregate::{overall, overall_percent, PhaseSlot, HALF};
use crate::cleanup::{artifact_paths, artifacts, temp_path, temp_path_for};
use crate::commands::{
    fetch_args, fetch_invocation, local_args, local_invocation, reencode_args,
    reencode_invocation, ContainerFormat, Invocation, Platform, Tool,
};
use crate::progress::{
    decode_status, decode_structured, is_structured, label_for, record_holds, share,
    status_position, status_rate, status_total, structured_eta, structured_percent,
    structured_rate, structured_total, unknown_eta, ProgressRecord, FULL,
};
use crate::quality::{reencode_required, QualityTier};
use crate::text::texts;

verus! {

/// Where a job stands.
#[derive(Clone, Copy, Debug, PartialEq, Eq, Structural)]
pub enum PipelineState {
    Idle,
    Phase1Running,
    Phase1Done,
    Phase2Running,
    Succeeded,
    Failed,
    Cancelled,
}

/// How a job gets its clip: cut from a local file, fetched as it is, or fetched and then
/// converted.
#[derive(Clone, Copy, Debug, PartialEq, Eq, Structural)]
pub enum Route {
    Local,
    Direct,
    TwoPhase,
}

/// The kind of run a failure happened in.
#[derive(Clone, Copy, Debug, PartialEq, Eq, Structural)]
pub enum Stage {
    Fetch,
    Encode,
}

#[derive(Clone, Debug, PartialEq, Eq)]
pub enum PipelineError {
    /// The program of a run could not be started.
    SpawnFailure(Stage),
    /// A run ended unsuccessfully; its diagnostic output is kept.
    ExecutionFailure(Stage, String),
    /// A job was started while another one was active.
    StateConflict,
    /// The shared state could not be locked.
    LockFailure,
    /// The job was cancelled while it ran.
    Cancelled,
}

/// A request for one clip; times are in milliseconds from the start of the source.
#[derive(Clone, Debug)]
pub struct ClipRequest {
    pub source: String,
    pub title: String,
    pub start_ms: u64,
    pub end_ms: u64,
    pub quality: QualityTier,
    pub container: ContainerFormat,
    pub job_id: String,
}

/// What the caller does after a run has ended.
#[derive(Debug)]
pub enum Step {
    /// The first of two runs succeeded: report `percent`, then start `next`.
    Continue { percent: u32, next: Invocation },
    /// The job is done: report `percent` and remove `remove`, if any.
    Finished { percent: u32, path: String, remove: Option<String> },
    /// The job failed: remove `remove`, if any, and report `error`.
    Failed { error: PipelineError, remove: Option<String> },
}

/// What cancelling asks of the caller: stop the process `kill`, then remove the files
/// `remove` (each on its own, a missing one being no error), then report `cleanup_done`.
#[derive(Debug)]
pub struct Cancellation {
    pub kill: Option<u32>,
    pub remove: Vec<String>,
}

/// The state of the one job slot, shared by the job and its cancellation.
pub struct Controller {
    pub platform: Platform,
    pub state: PipelineState,
    pub route: Route,
    pub active_pid: Option<u32>,
    pub output_path: Option<String>,
    pub temp_path: String,
    pub job_id: String,
    pub duration_ms: u64,
}

pub open spec fn opt_text(o: Option<String>) -> Option<Seq<char>> {
    match o {
        Some(s) => Some(s@),
        None => None,
    }
}

/// `step` ends the job with `error`, asking for the removal of `remove`.
pub open spec fn fails_with(step: Step, error: PipelineError, remove: Option<Seq<char>>) -> bool {
    match step {
        Step::Failed { error: e, remove: r } => e == error && opt_text(r) == remove,
        _ => false,
    }
}

/// `step` ends the job with the output `path`, reported at `FULL`.
pub open spec fn finishes_with(step: Step, path: Seq<char>, remove: Option<Seq<char>>) -> bool {
    match step {
        Step::Finished { percent, path: p, remove: r } => percent == FULL && p@ == path
            && opt_text(r) == remove,
        _ => false,
    }
}

/// `step` ends the job with a failed run of kind `stage` that printed `diagnostic`.
pub open spec fn fails_in_run(
    step: Step,
    stage: Stage,
    diagnostic: Seq<char>,
    remove: Option<Seq<char>>,
) -> bool {
    match step {
        Step::Failed { error: PipelineError::ExecutionFailure(st, d), remove: r } => st == stage
            && d@ == diagnostic && opt_text(r) == remove,
        _ => false,
    }
}

/// `step` reports `HALF` and starts the run `tool args`.
pub open spec fn continues_with(step: Step, tool: Tool, args: Seq<Seq<char>>) -> bool {
    match step {
        Step::Continue { percent, next } => percent == HALF && next.tool == tool && texts(
            next.args@,
        ) == args,
        _ => false,
    }
}

/// What cancelling removes for a job in the slot `output`.
pub open spec fn cancel_targets(output: Option<String>, route: Route) -> Seq<Seq<char>> {
    match output {
        Some(p) => artifacts(p@, route == Route::TwoPhase),
        None => Seq::empty(),
    }
}

pub open spec fn is_running(s: PipelineState) -> bool {
    s == PipelineState::Phase1Running || s == PipelineState::Phase1Done || s
        == PipelineState::Phase2Running
}

/// A run is under way and its process has yet to end.
pub open spec fn is_in_run(s: PipelineState) -> bool {
    s == PipelineState::Phase1Running || s == PipelineState::Phase2Running
}

pub open spec fn route_for(source_is_local: bool, tier: QualityTier) -> Route {
    if source_is_local {
        Route::Local
    } else if reencode_required(tier) {
        Route::TwoPhase
    } else {
        Route::Direct
    }
}

/// The program of the first run of a job.
pub open spec fn first_tool(route: Route) -> Tool {
    if route == Route::Local {
        Tool::Encoder
    } else {
        Tool::Downloader
    }
}

/// The arguments of the first run of a job that writes `output`.
pub open spec fn first_args(req: ClipRequest, route: Route, output: Seq<char>) -> Seq<Seq<char>> {
    match route {
        Route::Local => local_args(
            req.source@,
            req.start_ms as nat,
            req.end_ms as nat,
            req.quality,
            req.container,
            output,
        ),
        Route::Direct => fetch_args(
            req.source@,
            req.start_ms as nat,
            req.end_ms as nat,
            req.quality,
            req.container,
            output,
        ),
        Route::TwoPhase => fetch_args(
            req.source@,
            req.start_ms as nat,
            req.end_ms as nat,
            req.quality,
            req.container,
            temp_path(output),
        ),
    }
}

/// The kind of the run that `state` stands in.
pub open spec fn stage_of(state: PipelineState, route: Route) -> Stage {
    if state == PipelineState::Phase1Running && route != Route::Local {
        Stage::Fetch
    } else {
        Stage::Encode
    }
}

pub open spec fn slot_of(state: PipelineState, route: Route) -> PhaseSlot {
    if route != Route::TwoPhase {
        PhaseSlot::Only
    } else if state == PipelineState::Phase1Running {
        PhaseSlot::FirstOfTwo
    } else {
        PhaseSlot::SecondOfTwo
    }
}

impl Controller {
    /// The slots hold a job while it runs, and after its cancellation until the caller has
    /// stopped its process and removed its files; they hold a process only while it runs
    /// or is being stopped.
    pub open spec fn wf(&self) -> bool {
        &&& is_running(self.state) ==> self.output_path is Some
        &&& self.output_path is Some ==> is_running(self.state) || self.state
            == PipelineState::Cancelled
        &&& self.active_pid is Some ==> is_in_run(self.state) || self.state
            == PipelineState::Cancelled
        &&& self.active_pid is Some ==> self.output_path is Some
        &&& self.output_path matches Some(p) ==> self.temp_path@ == temp_path(p@)
    }

    /// The same job as `before` holds the slots: only the phase and the process may differ.
    pub open spec fn same_job(&self, before: &Controller) -> bool {
        &&& self.platform == before.platform
        &&& self.route == before.route
        &&& self.output_path == before.output_path
        &&& self.temp_path == before.temp_path
        &&& self.job_id == before.job_id
        &&& self.duration_ms == before.duration_ms
    }

    /// The two slots are empty and nothing else changed.
    pub open spec fn released(&self, before: &Controller, state: PipelineState) -> bool {
        &&& self.state == state
        &&& self.active_pid is None
        &&& self.output_path is None
        &&& self.platform == before.platform
        &&& self.route == before.route
        &&& self.temp_path == before.temp_path
        &&& self.job_id == before.job_id
        &&& self.duration_ms == before.duration_ms
    }

    pub fn new(platform: Platform) -> (r: Controller)
        ensures
            r.wf(),
            r.state == PipelineState::Idle,
            r.platform == platform,
            r.active_pid is None,
            r.output_path is None,
    {
        Controller {
            platform,
            state: PipelineState::Idle,
            route: Route::Direct,
            active_pid: None,
            output_path: None,
            temp_path: String::new(),
            job_id: String::new(),
            duration_ms: 0,
        }
    }

    pub fn is_busy(&self) -> (r: bool)
        ensures
            r == is_running(self.state),
    {
        match self.state {
            PipelineState::Phase1Running | PipelineState::Phase1Done
            | PipelineState::Phase2Running => true,
            _ => false,
        }
    }

    /// Starts a job that writes `output`: returns its first run. Refused while another
    /// job holds the slots, running or being cancelled.
    pub fn start(&mut self, req: &ClipRequest, source_is_local: bool, output: &str) -> (r: Result<
        Invocation,
        PipelineError,
    >)
        requires
            old(self).wf(),
            req.start_ms < req.end_ms,
        ensures
            final(self).wf(),
            old(self).output_path is Some ==> r == Err::<Invocation, PipelineError>(
                PipelineError::StateConflict,
            ) && *final(self) == *old(self),
            old(self).output_path is None ==> {
                let route = route_for(source_is_local, req.quality);
                &&& r matches Ok(inv) && inv.tool == first_tool(route) && texts(inv.args@)
                    == first_args(*req, route, output@)
                &&& final(self).state == PipelineState::Phase1Running
                &&& final(self).route == route
                &&& final(self).active_pid is None
                &&& final(self).output_path matches Some(p) && p@ == output@
                &&& final(self).job_id@ == req.job_id@
                &&& final(self).duration_ms == req.end_ms - req.start_ms
                &&& final(self).platform == old(self).platform
            },
    {
        if self.output_path.is_some() {
            return Err(PipelineError::StateConflict);
        }
        let route = if source_is_local {
            Route::Local
        } else if req.quality.needs_reencode() {
            Route::TwoPhase
        } else {
            Route::Direct
        };
        let temp = temp_path_for(output);
        let inv = match route {
            Route::Local => local_invocation(
                req.source.as_str(),
                req.start_ms,
                req.end_ms,
                req.quality,
                req.container,
                output,
            ),
            Route::Direct => fetch_invocation(
                req.source.as_str(),
                req.start_ms,
                req.end_ms,
                req.quality,
                req.container,
                output,
            ),
            Route::TwoPhase => fetch_invocation(
                req.source.as_str(),
                req.start_ms,
                req.end_ms,
                req.quality,
                req.container,
                temp.as_str(),
            ),
        };
        self.state = PipelineState::Phase1Running;
        self.route = route;
        self.active_pid = None;
        self.output_path = Some(output.to_owned());
        self.temp_path = temp;
        self.job_id = req.job_id.clone();
        self.duration_ms = req.end_ms - req.start_ms;
        Ok(inv)
    }

    /// Records the process of the run just started. Refused (`false`: the caller stops
    /// that process) unless a run was waiting for its process.
    pub fn spawned(&mut self, pid: u32) -> (r: bool)
        requires
            old(self).wf(),
        ensures
            final(self).wf(),
            r == ((old(self).state == PipelineState::Phase1Running && old(self).active_pid is None)
                || old(self).state == PipelineState::Phase1Done),
            r ==> final(self).active_pid == Some(pid),
            r && old(self).state == PipelineState::Phase1Done ==> final(self).state
                == PipelineState::Phase2Running,
            r && old(self).state == PipelineState::Phase1Running ==> final(self).state
                == PipelineState::Phase1Running,
            r ==> final(self).same_job(&*old(self)),
            !r ==> *final(self) == *old(self),
    {
        match self.state {
            PipelineState::Phase1Running => {
                if self.active_pid.is_some() {
                    return false;
                }
            },
            PipelineState::Phase1Done => {
                self.state = PipelineState::Phase2Running;
            },
            _ => {
                return false;
            },
        }
        self.active_pid = Some(pid);
        true
    }

    /// The run that was to start could not be started: the job fails. The intermediate
    /// file of a converting job is removed once the conversion cannot happen.
    pub fn spawn_failed(&mut self) -> (r: Step)
        requires
            old(self).wf(),
        ensures
            final(self).wf(),
            old(self).state == PipelineState::Phase1Running && old(self).active_pid is None ==> {
                &&& fails_with(
                    r,
                    PipelineError::SpawnFailure(stage_of(old(self).state, old(self).route)),
                    None,
                )
                &&& final(self).released(&*old(self), PipelineState::Failed)
            },
            old(self).state == PipelineState::Phase1Done ==> {
                &&& fails_with(
                    r,
                    PipelineError::SpawnFailure(Stage::Encode),
                    Some(old(self).temp_path@),
                )
                &&& final(self).released(&*old(self), PipelineState::Failed)
            },
            !(old(self).state == PipelineState::Phase1Running && old(self).active_pid is None)
                && old(self).state != PipelineState::Phase1Done ==> fails_with(
                r,
                PipelineError::Cancelled,
                None,
            ) && *final(self) == *old(self),
    {
        let waiting = match self.state {
            PipelineState::Phase1Running => self.active_pid.is_none(),
            PipelineState::Phase1Done => true,
            _ => false,
        };
        if !waiting {
            return Step::Failed { error: PipelineError::Cancelled, remove: None };
        }
        let second = self.state == PipelineState::Phase1Done;
        let stage = if second || self.route == Route::Local {
            Stage::Encode
        } else {
            Stage::Fetch
        };
        self.state = PipelineState::Failed;
        self.active_pid = None;
        self.output_path = None;
        let remove = if second {
            Some(self.temp_path.clone())
        } else {
            None
        };
        Step::Failed { error: PipelineError::SpawnFailure(stage), remove }
    }

    /// The run under way has ended, successfully or not. Each run's end clears the active
    /// process; the job's end clears the output slot too.
    pub fn exited(&mut self, success: bool, diagnostic: &str) -> (r: Step)
        requires
            old(self).wf(),
        ensures
            final(self).wf(),
            !is_in_run(old(self).state) ==> fails_with(r, PipelineError::Cancelled, None)
                && *final(self) == *old(self),
            is_in_run(old(self).state) && success ==> match old(self).output_path {
                Some(out) => if old(self).state == PipelineState::Phase1Running && old(self).route
                    == Route::TwoPhase {
                    &&& continues_with(
                        r,
                        Tool::Encoder,
                        reencode_args(old(self).temp_path@, out@, old(self).platform),
                    )
                    &&& final(self).state == PipelineState::Phase1Done
                    &&& final(self).active_pid is None
                    &&& final(self).same_job(&*old(self))
                } else {
                    &&& finishes_with(
                        r,
                        out@,
                        if old(self).state == PipelineState::Phase2Running {
                            Some(old(self).temp_path@)
                        } else {
                            None
                        },
                    )
                    &&& final(self).released(&*old(self), PipelineState::Succeeded)
                },
                None => false,
            },
            is_in_run(old(self).state) && !success ==> {
                &&& fails_in_run(
                    r,
                    stage_of(old(self).state, old(self).route),
                    diagnostic@,
                    if old(self).state == PipelineState::Phase2Running {
                        Some(old(self).temp_path@)
                    } else {
                        None
                    },
                )
                &&& final(self).released(&*old(self), PipelineState::Failed)
            },
    {
        let second = match self.state {
            PipelineState::Phase1Running => false,
            PipelineState::Phase2Running => true,
            _ => {
                return Step::Failed { error: PipelineError::Cancelled, remove: None };
            },
        };
        let out = match &self.output_path {
            Some(p) => p.clone(),
            None => {
                return Step::Failed { error: PipelineError::Cancelled, remove: None };
            },
        };
        self.active_pid = None;
        let remove = if second {
            Some(self.temp_path.clone())
        } else {
            None
        };
        if !success {
            let stage = if second || self.route == Route::Local {
                Stage::Encode
            } else {
                Stage::Fetch
            };
            self.state = PipelineState::Failed;
            self.output_path = None;
            return Step::Failed {
                error: PipelineError::ExecutionFailure(stage, diagnostic.to_owned()),
                remove,
            };
        }
        if !second && self.route == Route::TwoPhase {
            let next = reencode_invocation(self.temp_path.as_str(), out.as_str(), self.platform);
            self.state = PipelineState::Phase1Done;
            return Step::Continue { percent: HALF, next };
        }
        self.state = PipelineState::Succeeded;
        self.output_path = None;
        Step::Finished { percent: FULL, path: out, remove }
    }

    /// Decodes one output line of the run under way into a progress record of the whole
    /// job. Downloader runs speak the structured grammar, encoder runs the free-text one.
    pub fn decode_line(&self, line: &str) -> (r: Option<ProgressRecord>)
        ensures
            !is_in_run(self.state) ==> r is None,
            is_in_run(self.state) && stage_of(self.state, self.route) == Stage::Fetch ==> {
                &&& r is Some <==> is_structured(line@)
                &&& r matches Some(rec) ==> record_holds(
                    rec,
                    overall(slot_of(self.state, self.route), structured_percent(line@)),
                    structured_rate(line@),
                    structured_eta(line@),
                    structured_total(line@),
                    self.job_id@,
                )
            },
            is_in_run(self.state) && stage_of(self.state, self.route) == Stage::Encode ==> {
                &&& r is Some <==> (self.duration_ms > 0 && status_position(line@) is Some)
                &&& r matches Some(rec) ==> record_holds(
                    rec,
                    overall(
                        slot_of(self.state, self.route),
                        share(status_position(line@)->0, self.duration_ms as nat),
                    ),
                    status_rate(line@),
                    unknown_eta(),
                    status_total(),
                    self.job_id@,
                )
            },
    {
        let first = match self.state {
            PipelineState::Phase1Running => true,
            PipelineState::Phase2Running => false,
            _ => {
                return None;
            },
        };
        let slot = if self.route != Route::TwoPhase {
            PhaseSlot::Only
        } else if first {
            PhaseSlot::FirstOfTwo
        } else {
            PhaseSlot::SecondOfTwo
        };
        let decoded = if first && self.route != Route::Local {
            decode_structured(line, self.job_id.as_str())
        } else {
            decode_status(line, self.duration_ms, self.job_id.as_str())
        };
        match decoded {
            Some(rec) => {
                let percent = overall_percent(slot, rec.percent_hundredths);
                Some(
                    ProgressRecord {
                        percent_hundredths: percent,
                        rate: rec.rate,
                        eta: rec.eta,
                        downloaded: label_for(percent),
                        total: rec.total,
                        job_id: rec.job_id,
                    },
                )
            },
            None => None,
        }
    }

    /// Cancels the active job, if any: hands back the process to stop and every file the
    /// job may have left. The slots stay taken, so that no job starts before the caller has
    /// stopped the process, removed the files and called `cleanup_done`. Without a job in
    /// the slots nothing changes.
    pub fn cancel(&mut self) -> (r: Cancellation)
        requires
            old(self).wf(),
        ensures
            final(self).wf(),
            r.kill == old(self).active_pid,
            texts(r.remove@) == cancel_targets(old(self).output_path, old(self).route),
            final(self).state == if is_running(old(self).state) {
                PipelineState::Cancelled
            } else {
                old(self).state
            },
            final(self).active_pid == old(self).active_pid,
            final(self).same_job(&*old(self)),
    {
        let kill = self.active_pid;
        let remove = match &self.output_path {
            Some(p) => artifact_paths(p.as_str(), self.route == Route::TwoPhase),
            None => Vec::new(),
        };
        proof {
            if old(self).output_path is None {
                assert(texts(remove@) =~= Seq::<Seq<char>>::empty());
            }
        }
        if self.is_busy() {
            self.state = PipelineState::Cancelled;
        }
        Cancellation { kill, remove }
    }

    /// The caller has stopped the cancelled job's process and removed its files: both
    /// slots are emptied. Outside a cancellation nothing changes.
    pub fn cleanup_done(&mut self)
        requires
            old(self).wf(),
        ensures
            final(self).wf(),
            old(self).state == PipelineState::Cancelled ==> final(self).released(
                &*old(self),
                PipelineState::Cancelled,
            ),
            old(self).state != PipelineState::Cancelled ==> *final(self) == *old(self),
    {
        if self.state == PipelineState::Cancelled {
            self.active_pid = None;
            self.output_path = None;
        }
    }
}

} // verus!
