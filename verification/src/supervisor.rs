//! The task supervisor: the decisions that carry one job through its
//! attempts. Whoever runs the encoder reports each thing that happened as an
//! event and is told what to do next.

use crate::command::{attempt_notice, build_args, command_line, plan_for, AttemptPlan, PlanView};
use crate::decimal::{signed_decimal_digits, signed_decimal_text};
use crate::progress::{after_line, ConversionStatus, ProgressView, StatusView, FULL_PERCENTAGE};
use crate::task::{ConversionTask, TaskView};
use crate::text::{append_text, join, joined, texts};
use crate::validate::{
    check_size, probe_args, probe_command, probe_problem, size_problem, validate_output,
};
use vstd::prelude::*;

verus! {

/// How the encoder process ended.
#[derive(Debug)]
pub enum ProcessExit {
    /// It reported success.
    Success,
    /// It reported failure, with this exit code if it had one.
    Failure(Option<i32>),
    /// Its end could not be awaited.
    WaitFailed(String),
}

pub enum ExitView {
    Success,
    Failure(Option<i32>),
    WaitFailed(Seq<char>),
}

impl View for ProcessExit {
    type V = ExitView;

    open spec fn view(&self) -> ExitView {
        match self {
            ProcessExit::Success => ExitView::Success,
            ProcessExit::Failure(code) => ExitView::Failure(*code),
            ProcessExit::WaitFailed(e) => ExitView::WaitFailed(e@),
        }
    }
}

/// What happened since the supervisor's last answer.
#[derive(Debug)]
pub enum SupervisorEvent {
    /// The next attempt may start.
    Begin,
    /// The encoder could not be started.
    SpawnFailed(String),
    /// The encoder runs, under this process id if the host gave one.
    Spawned(Option<u32>),
    /// The encoder printed a diagnostic line.
    OutputLine(String),
    /// The encoder closed its diagnostics and ended.
    Exited(ProcessExit),
    /// The size of the output file in bytes, or why it could not be had.
    OutputStat(Result<u64, String>),
    /// What the decode probe printed, or why it could not be started.
    ProbeFinished(Result<String, String>),
}

pub enum EventView {
    Begin,
    SpawnFailed(Seq<char>),
    Spawned(Option<u32>),
    OutputLine(Seq<char>),
    Exited(ExitView),
    OutputStat(Result<u64, Seq<char>>),
    ProbeFinished(Result<Seq<char>, Seq<char>>),
}

impl View for SupervisorEvent {
    type V = EventView;

    open spec fn view(&self) -> EventView {
        match self {
            SupervisorEvent::Begin => EventView::Begin,
            SupervisorEvent::SpawnFailed(e) => EventView::SpawnFailed(e@),
            SupervisorEvent::Spawned(pid) => EventView::Spawned(*pid),
            SupervisorEvent::OutputLine(line) => EventView::OutputLine(line@),
            SupervisorEvent::Exited(exit) => EventView::Exited(exit@),
            SupervisorEvent::OutputStat(size) => EventView::OutputStat(
                match size {
                    Ok(n) => Ok(*n),
                    Err(e) => Err(e@),
                },
            ),
            SupervisorEvent::ProbeFinished(outcome) => EventView::ProbeFinished(
                match outcome {
                    Ok(d) => Ok(d@),
                    Err(e) => Err(e@),
                },
            ),
        }
    }
}

/// What to do next.
#[derive(Debug)]
pub enum SupervisorAction {
    /// Start `program` with `args` and report `Spawned` or `SpawnFailed`.
    Spawn { program: String, args: Vec<String> },
    /// Read the encoder's diagnostics, reporting each line as `OutputLine`;
    /// when they end, await the process and report `Exited`.
    ReadOutput,
    /// The job has ended but its process has not: signal the process to
    /// stop, await it and report `Exited`.
    Terminate { pid: Option<u32> },
    /// Look up the size of the file at `path` and report `OutputStat`.
    StatOutput { path: String },
    /// Run `program` with `args`, keep what it prints as diagnostics, and
    /// report `ProbeFinished`.
    Probe { program: String, args: Vec<String> },
    /// Delete the partial file at `path`, then report `Begin`.
    DiscardOutput { path: String },
    /// Nothing is left to do for this job.
    Finish,
}

pub enum ActionView {
    Spawn { program: Seq<char>, args: Seq<Seq<char>> },
    ReadOutput,
    Terminate { pid: Option<u32> },
    StatOutput { path: Seq<char> },
    Probe { program: Seq<char>, args: Seq<Seq<char>> },
    DiscardOutput { path: Seq<char> },
    Finish,
}

impl View for SupervisorAction {
    type V = ActionView;

    open spec fn view(&self) -> ActionView {
        match self {
            SupervisorAction::Spawn { program, args } => ActionView::Spawn {
                program: program@,
                args: texts(args@),
            },
            SupervisorAction::ReadOutput => ActionView::ReadOutput,
            SupervisorAction::Terminate { pid } => ActionView::Terminate { pid: *pid },
            SupervisorAction::StatOutput { path } => ActionView::StatOutput { path: path@ },
            SupervisorAction::Probe { program, args } => ActionView::Probe {
                program: program@,
                args: texts(args@),
            },
            SupervisorAction::DiscardOutput { path } => ActionView::DiscardOutput { path: path@ },
            SupervisorAction::Finish => ActionView::Finish,
        }
    }
}

/// The supervisor of one job: its plan and the index of the attempt that
/// is under way or due next.
#[derive(Debug)]
pub struct Supervisor {
    pub plan: AttemptPlan,
    pub attempt: usize,
}

/// The outcome of one step: the attempt index, the job and the action that
/// follow an event.
pub struct Step {
    pub attempt: int,
    pub task: TaskView,
    pub action: ActionView,
}

/// The log line that records an attempt's argument list.
pub open spec fn args_notice(args: Seq<Seq<char>>) -> Seq<char> {
    "FFmpeg args: "@ + joined(args, " "@)
}

pub open spec fn start_retry_notice(error: Seq<char>) -> Seq<char> {
    "FFmpeg start failed ("@ + error + "). Will retry..."@
}

pub open spec fn start_failure(error: Seq<char>, program: Seq<char>) -> Seq<char> {
    "Failed to start ffmpeg: "@ + error + " (path: "@ + program + ")"@
}

/// The failure that an exit stands for, if it is one.
pub open spec fn exit_failure(exit: ExitView) -> Option<Seq<char>> {
    match exit {
        ExitView::Success => None,
        ExitView::Failure(code) => Some(
            "FFmpeg exited with code: "@ + match code {
                Some(c) => signed_decimal_digits(c as int),
                None => "None"@,
            },
        ),
        ExitView::WaitFailed(e) => Some("Failed to wait for FFmpeg process: "@ + e),
    }
}

pub open spec fn validation_notice(problem: Seq<char>) -> Seq<char> {
    "Output validation failed: "@ + problem + ". Retrying..."@
}

pub open spec fn validation_failure(problem: Seq<char>) -> Seq<char> {
    "Conversion produced corrupt output: "@ + problem
}

/// Another attempt follows the one with index `attempt`.
pub open spec fn attempts_remain(plan: PlanView, attempt: int) -> bool {
    attempt + 1 < plan.max_attempts
}

/// The job with `text` appended to its log.
pub open spec fn logged(task: TaskView, text: Seq<char>) -> TaskView {
    TaskView { progress: ProgressView { log: task.progress.log.push(text), ..task.progress }, ..task }
}

/// The job failed for good, for the given reason.
pub open spec fn failed(task: TaskView, reason: Seq<char>) -> TaskView {
    TaskView {
        progress: ProgressView {
            status: StatusView::Failed(reason),
            error_message: Some(reason),
            ..task.progress
        },
        ..task
    }
}

/// The job at the start of an attempt: running, its visible progress back
/// at zero, no error standing, and the attempt and its arguments logged.
pub open spec fn begun(plan: PlanView, task: TaskView, attempt: int) -> TaskView {
    TaskView {
        progress: ProgressView {
            status: StatusView::Running,
            percentage: 0,
            current_time: 0,
            duration: 0,
            error_message: None,
            log: task.progress.log.push(attempt_notice(plan, attempt)).push(
                args_notice(command_line(plan, task, attempt)),
            ),
            ..task.progress
        },
        ..task
    }
}

/// The job done: completed, at the full percentage.
pub open spec fn completed(task: TaskView) -> TaskView {
    TaskView {
        progress: ProgressView {
            status: StatusView::Completed,
            percentage: FULL_PERCENTAGE,
            ..task.progress
        },
        ..task
    }
}

/// What follows `Begin`.
pub open spec fn on_begin(plan: PlanView, attempt: int, task: TaskView) -> Step {
    if attempt < plan.max_attempts {
        Step {
            attempt,
            task: begun(plan, task, attempt),
            action: ActionView::Spawn {
                program: task.ffmpeg_path,
                args: command_line(plan, task, attempt),
            },
        }
    } else {
        Step { attempt, task, action: ActionView::Finish }
    }
}

/// What follows a failed start: the next attempt while one remains, the
/// job's failure otherwise.
pub open spec fn on_spawn_failed(plan: PlanView, attempt: int, task: TaskView, error: Seq<char>) -> Step {
    if attempts_remain(plan, attempt) {
        Step {
            attempt: attempt + 1,
            task: logged(task, start_retry_notice(error)),
            action: ActionView::DiscardOutput { path: task.output_file },
        }
    } else {
        Step {
            attempt,
            task: failed(task, start_failure(error, task.ffmpeg_path)),
            action: ActionView::Finish,
        }
    }
}

/// What follows the end of the encoder process.
pub open spec fn on_exit(plan: PlanView, attempt: int, task: TaskView, exit: ExitView) -> Step {
    match exit_failure(exit) {
        None => Step { attempt, task, action: ActionView::StatOutput { path: task.output_file } },
        Some(reason) => if attempts_remain(plan, attempt) {
            Step {
                attempt: attempt + 1,
                task: TaskView {
                    progress: ProgressView { error_message: Some(reason), ..task.progress },
                    ..task
                },
                action: ActionView::DiscardOutput { path: task.output_file },
            }
        } else {
            Step { attempt, task: failed(task, reason), action: ActionView::Finish }
        },
    }
}

/// What follows the discovery that the output is bad.
pub open spec fn on_bad_output(plan: PlanView, attempt: int, task: TaskView, problem: Seq<char>) -> Step {
    let noted = logged(task, validation_notice(problem));
    if attempts_remain(plan, attempt) {
        Step {
            attempt: attempt + 1,
            task: noted,
            action: ActionView::DiscardOutput { path: task.output_file },
        }
    } else {
        Step {
            attempt,
            task: failed(noted, validation_failure(problem)),
            action: ActionView::Finish,
        }
    }
}

/// What follows an event for a job that has not ended.
pub open spec fn live_step(plan: PlanView, attempt: int, task: TaskView, event: EventView) -> Step {
    match event {
        EventView::Begin => on_begin(plan, attempt, task),
        EventView::SpawnFailed(error) => on_spawn_failed(plan, attempt, task, error),
        EventView::Spawned(pid) => Step {
            attempt,
            task: TaskView { pid, ..task },
            action: ActionView::ReadOutput,
        },
        EventView::OutputLine(line) => Step {
            attempt,
            task: TaskView { progress: after_line(task.progress, line), ..task },
            action: ActionView::ReadOutput,
        },
        EventView::Exited(exit) => on_exit(plan, attempt, TaskView { pid: None, ..task }, exit),
        EventView::OutputStat(size) => match size_problem(size) {
            Some(problem) => on_bad_output(plan, attempt, task, problem),
            None => Step {
                attempt,
                task,
                action: ActionView::Probe {
                    program: task.ffmpeg_path,
                    args: probe_command(task.output_file),
                },
            },
        },
        EventView::ProbeFinished(outcome) => match probe_problem(outcome) {
            Some(problem) => on_bad_output(plan, attempt, task, problem),
            None => Step { attempt, task: completed(task), action: ActionView::Finish },
        },
    }
}

/// What follows an event for a job that has ended: nothing about the job
/// changes but the process id, which follows the process; a process that
/// still runs is to be stopped.
pub open spec fn ended_step(attempt: int, task: TaskView, event: EventView) -> Step {
    match event {
        EventView::Spawned(pid) => Step {
            attempt,
            task: TaskView { pid, ..task },
            action: ActionView::Terminate { pid },
        },
        EventView::OutputLine(_) => Step {
            attempt,
            task,
            action: ActionView::Terminate { pid: task.pid },
        },
        EventView::Exited(_) => Step {
            attempt,
            task: TaskView { pid: None, ..task },
            action: ActionView::Finish,
        },
        _ => Step { attempt, task, action: ActionView::Finish },
    }
}

/// The supervisor's answer to an event.
pub open spec fn step(plan: PlanView, attempt: int, task: TaskView, event: EventView) -> Step {
    if task.progress.status.is_terminal() {
        ended_step(attempt, task, event)
    } else {
        live_step(plan, attempt, task, event)
    }
}

fn failure_text(exit: &ProcessExit) -> (reason: Option<String>)
    ensures
        reason.deep_view() == exit_failure(exit@),
{
    match exit {
        ProcessExit::Success => None,
        ProcessExit::Failure(code) => {
            let shown = match code {
                Some(c) => signed_decimal_text(*c),
                None => "None".to_owned(),
            };
            Some(append_text("FFmpeg exited with code: ", shown.as_str()))
        },
        ProcessExit::WaitFailed(e) => Some(append_text("Failed to wait for FFmpeg process: ", e.as_str())),
    }
}

impl Supervisor {
    /// A supervisor with the plan that `encoder` calls for, before its first
    /// attempt.
    pub fn new(encoder: &str) -> (s: Self)
        ensures
            s.plan@ == plan_for(encoder@),
            s.attempt == 0,
    {
        Supervisor { plan: AttemptPlan::for_encoder(encoder), attempt: 0 }
    }

    /// Whether another attempt follows the current one.
    pub fn attempts_remain(&self) -> (r: bool)
        ensures
            r == attempts_remain(self.plan@, self.attempt as int),
    {
        self.plan.max_attempts > 0 && self.attempt < self.plan.max_attempts - 1
    }

    fn fail(task: &mut ConversionTask, reason: String)
        ensures
            final(task)@ == failed(old(task)@, reason@),
    {
        task.progress.status = ConversionStatus::Failed(reason.clone());
        task.progress.error_message = Some(reason);
    }

    fn begin(&mut self, task: &mut ConversionTask) -> (action: SupervisorAction)
        ensures
            final(self).plan == old(self).plan,
            (Step { attempt: final(self).attempt as int, task: final(task)@, action: action@ })
                == on_begin(old(self).plan@, old(self).attempt as int, old(task)@),
    {
        if self.attempt < self.plan.max_attempts {
            let args = build_args(&self.plan, task, self.attempt);
            let notice = self.plan.notice(self.attempt);
            let listing = join(&args, " ");
            let args_line = append_text("FFmpeg args: ", listing.as_str());
            task.progress.status = ConversionStatus::Running;
            task.progress.percentage = 0;
            task.progress.current_time = 0;
            task.progress.duration = 0;
            task.progress.error_message = None;
            task.progress.push_log(notice);
            task.progress.push_log(args_line);
            SupervisorAction::Spawn { program: task.ffmpeg_path.clone(), args }
        } else {
            SupervisorAction::Finish
        }
    }

    fn spawn_failed(&mut self, task: &mut ConversionTask, error: &str) -> (action: SupervisorAction)
        ensures
            final(self).plan == old(self).plan,
            (Step { attempt: final(self).attempt as int, task: final(task)@, action: action@ })
                == on_spawn_failed(old(self).plan@, old(self).attempt as int, old(task)@, error@),
    {
        if self.attempts_remain() {
            let notice = append_text(append_text("FFmpeg start failed (", error).as_str(), "). Will retry...");
            task.progress.push_log(notice);
            self.attempt = self.attempt + 1;
            SupervisorAction::DiscardOutput { path: task.output_file.clone() }
        } else {
            let head = append_text(append_text("Failed to start ffmpeg: ", error).as_str(), " (path: ");
            let reason = append_text(append_text(head.as_str(), task.ffmpeg_path.as_str()).as_str(), ")");
            Supervisor::fail(task, reason);
            SupervisorAction::Finish
        }
    }

    fn exited(&mut self, task: &mut ConversionTask, exit: &ProcessExit) -> (action: SupervisorAction)
        ensures
            final(self).plan == old(self).plan,
            (Step { attempt: final(self).attempt as int, task: final(task)@, action: action@ })
                == on_exit(
                old(self).plan@,
                old(self).attempt as int,
                (TaskView { pid: None, ..old(task)@ }),
                exit@,
            ),
    {
        task.pid = None;
        match failure_text(exit) {
            None => SupervisorAction::StatOutput { path: task.output_file.clone() },
            Some(reason) => {
                if self.attempts_remain() {
                    task.progress.error_message = Some(reason);
                    self.attempt = self.attempt + 1;
                    SupervisorAction::DiscardOutput { path: task.output_file.clone() }
                } else {
                    Supervisor::fail(task, reason);
                    SupervisorAction::Finish
                }
            },
        }
    }

    fn bad_output(&mut self, task: &mut ConversionTask, problem: &str) -> (action: SupervisorAction)
        ensures
            final(self).plan == old(self).plan,
            (Step { attempt: final(self).attempt as int, task: final(task)@, action: action@ })
                == on_bad_output(old(self).plan@, old(self).attempt as int, old(task)@, problem@),
    {
        let notice = append_text(append_text("Output validation failed: ", problem).as_str(), ". Retrying...");
        task.progress.push_log(notice);
        if self.attempts_remain() {
            self.attempt = self.attempt + 1;
            SupervisorAction::DiscardOutput { path: task.output_file.clone() }
        } else {
            let reason = append_text("Conversion produced corrupt output: ", problem);
            Supervisor::fail(task, reason);
            SupervisorAction::Finish
        }
    }

    fn live(&mut self, task: &mut ConversionTask, event: &SupervisorEvent) -> (action:
        SupervisorAction)
        ensures
            final(self).plan == old(self).plan,
            (Step { attempt: final(self).attempt as int, task: final(task)@, action: action@ })
                == live_step(old(self).plan@, old(self).attempt as int, old(task)@, event@),
    {
        match event {
            SupervisorEvent::Begin => self.begin(task),
            SupervisorEvent::SpawnFailed(error) => self.spawn_failed(task, error.as_str()),
            SupervisorEvent::Spawned(pid) => {
                task.pid = *pid;
                SupervisorAction::ReadOutput
            },
            SupervisorEvent::OutputLine(line) => {
                task.progress.record_line(line.as_str());
                SupervisorAction::ReadOutput
            },
            SupervisorEvent::Exited(exit) => self.exited(task, exit),
            SupervisorEvent::OutputStat(size) => match check_size(size) {
                Some(problem) => self.bad_output(task, problem.as_str()),
                None => SupervisorAction::Probe {
                    program: task.ffmpeg_path.clone(),
                    args: probe_args(task.output_file.as_str()),
                },
            },
            SupervisorEvent::ProbeFinished(outcome) => match validate_output(outcome) {
                Some(problem) => self.bad_output(task, problem.as_str()),
                None => {
                    task.progress.status = ConversionStatus::Completed;
                    task.progress.percentage = FULL_PERCENTAGE;
                    SupervisorAction::Finish
                },
            },
        }
    }

    fn ended(task: &mut ConversionTask, event: &SupervisorEvent) -> (action: SupervisorAction)
        ensures
            final(task)@ == ended_step(0, old(task)@, event@).task,
            action@ == ended_step(0, old(task)@, event@).action,
    {
        match event {
            SupervisorEvent::Spawned(pid) => {
                task.pid = *pid;
                SupervisorAction::Terminate { pid: *pid }
            },
            SupervisorEvent::OutputLine(_) => SupervisorAction::Terminate { pid: task.pid },
            SupervisorEvent::Exited(_) => {
                task.pid = None;
                SupervisorAction::Finish
            },
            _ => SupervisorAction::Finish,
        }
    }

    /// Takes an event for the job in hand, brings the job up to date, and
    /// says what to do next. A job that has ended keeps its status whatever
    /// is reported.
    pub fn step(&mut self, task: &mut ConversionTask, event: &SupervisorEvent) -> (action:
        SupervisorAction)
        ensures
            final(self).plan == old(self).plan,
            (Step { attempt: final(self).attempt as int, task: final(task)@, action: action@ })
                == step(old(self).plan@, old(self).attempt as int, old(task)@, event@),
    {
        if task.progress.status.is_terminal() {
            Supervisor::ended(task, event)
        } else {
            self.live(task, event)
        }
    }
}

/// Where a run of events has brought a job.
pub struct Run {
    pub attempt: int,
    pub task: TaskView,
    /// How often the supervisor has asked for the output to be discarded
    /// and the next attempt to begin.
    pub retries: nat,
}

/// Where the events, taken in order, bring a job.
pub open spec fn after_events(plan: PlanView, attempt: int, task: TaskView, events: Seq<EventView>) -> Run
    decreases events.len(),
{
    if events.len() == 0 {
        Run { attempt, task, retries: 0 }
    } else {
        let before = after_events(plan, attempt, task, events.drop_last());
        let next = step(plan, before.attempt, before.task, events.last());
        Run {
            attempt: next.attempt,
            task: next.task,
            retries: if next.action is DiscardOutput {
                before.retries + 1
            } else {
                before.retries
            },
        }
    }
}

/// Whatever is reported and in whatever order, a job that starts with its
/// first attempt is retried once for each step up the ladder and never
/// leaves the plan: with a plan of `n` attempts it is retried at most
/// `n - 1` times.
pub proof fn lemma_run_stays_in_plan(plan: PlanView, task: TaskView, events: Seq<EventView>)
    requires
        plan.max_attempts >= 1,
    ensures
        after_events(plan, 0, task, events).retries == after_events(plan, 0, task, events).attempt,
        after_events(plan, 0, task, events).attempt < plan.max_attempts,
    decreases events.len(),
{
    if events.len() > 0 {
        let front = events.drop_last();
        lemma_run_stays_in_plan(plan, task, front);
        let before = after_events(plan, 0, task, front);
        lemma_attempts_stay_in_plan(plan, before.attempt, before.task, events.last());
    }
}

/// Once a run of events has brought a job to an end, nothing that follows
/// changes the job's status.
pub proof fn lemma_run_keeps_ended_status(
    plan: PlanView,
    attempt: int,
    task: TaskView,
    events: Seq<EventView>,
    i: int,
)
    requires
        0 <= i <= events.len(),
        after_events(plan, attempt, task, events.take(i)).task.progress.status.is_terminal(),
    ensures
        after_events(plan, attempt, task, events).task.progress == after_events(
            plan,
            attempt,
            task,
            events.take(i),
        ).task.progress,
    decreases events.len(),
{
    if i == events.len() {
        assert(events.take(i) =~= events);
    } else {
        let front = events.drop_last();
        assert(front.take(i) =~= events.take(i));
        lemma_run_keeps_ended_status(plan, attempt, task, front, i);
        let before = after_events(plan, attempt, task, front);
        lemma_ended_job_stays_ended(plan, before.attempt, before.task, events.last());
    }
}

/// Once a job is completed, failed or cancelled, no event changes its
/// status, nor anything else of its progress record or the attempt index.
pub proof fn lemma_ended_job_stays_ended(
    plan: PlanView,
    attempt: int,
    task: TaskView,
    event: EventView,
)
    requires
        task.progress.status.is_terminal(),
    ensures
        step(plan, attempt, task, event).task.progress == task.progress,
        step(plan, attempt, task, event).attempt == attempt,
        !(step(plan, attempt, task, event).action is Spawn),
        !(step(plan, attempt, task, event).action is Probe),
{
}

/// A job leaves the running state only for an end state, and its fixed
/// fields never change.
pub proof fn lemma_step_moves_forward(plan: PlanView, attempt: int, task: TaskView, event: EventView)
    ensures
        ({
            let next = step(plan, attempt, task, event).task;
            &&& !(next.progress.status is Pending) || task.progress.status is Pending
            &&& next.id == task.id
            &&& next.input_file == task.input_file
            &&& next.output_file == task.output_file
            &&& next.ffmpeg_path == task.ffmpeg_path
            &&& next.encoder == task.encoder
            &&& next.preset == task.preset
            &&& next.adobe_preset == task.adobe_preset
            &&& next.output_ext == task.output_ext
            &&& next.progress.task_id == task.progress.task_id
        }),
{
}

/// The attempt index only grows, by one at a time, and never reaches the
/// planned number of attempts: a plan of `n` attempts starts the encoder at
/// most `n` times.
pub proof fn lemma_attempts_stay_in_plan(
    plan: PlanView,
    attempt: int,
    task: TaskView,
    event: EventView,
)
    requires
        0 <= attempt < plan.max_attempts,
    ensures
        attempt <= step(plan, attempt, task, event).attempt <= attempt + 1,
        step(plan, attempt, task, event).attempt < plan.max_attempts,
        step(plan, attempt, task, event).action is DiscardOutput <==> step(
            plan,
            attempt,
            task,
            event,
        ).attempt == attempt + 1,
{
}

/// No step takes the percentage out of its range.
pub proof fn lemma_step_keeps_percentage_in_range(
    plan: PlanView,
    attempt: int,
    task: TaskView,
    event: EventView,
)
    requires
        task.progress.percentage <= FULL_PERCENTAGE,
    ensures
        step(plan, attempt, task, event).task.progress.percentage <= FULL_PERCENTAGE,
{
}

/// While a job runs, diagnostic lines are the only events that move its
/// elapsed time and percentage, and they move them forward only; the
/// start of an attempt sets both back to zero.
pub proof fn lemma_progress_moves_forward_within_attempt(
    plan: PlanView,
    attempt: int,
    task: TaskView,
    event: EventView,
)
    requires
        !task.progress.status.is_terminal(),
        task.progress.tracks_time(),
        !(event is Begin),
        step(plan, attempt, task, event).task.progress.status is Running,
    ensures
        step(plan, attempt, task, event).task.progress.percentage >= task.progress.percentage,
        step(plan, attempt, task, event).task.progress.current_time >= task.progress.current_time,
        step(plan, attempt, task, event).task.progress.tracks_time(),
{
    if let EventView::OutputLine(line) = event {
        crate::progress::lemma_line_keeps_progress_monotonic(task.progress, line);
    }
}

/// A job is marked completed only by a probe that found nothing wrong, and
/// then stands at the full percentage.
pub proof fn lemma_completion_needs_sound_output(
    plan: PlanView,
    attempt: int,
    task: TaskView,
    event: EventView,
)
    requires
        !task.progress.status.is_terminal(),
        step(plan, attempt, task, event).task.progress.status is Completed,
    ensures
        event matches EventView::ProbeFinished(outcome) && probe_problem(outcome) is None,
        step(plan, attempt, task, event).task.progress.percentage == FULL_PERCENTAGE,
        step(plan, attempt, task, event).action is Finish,
{
}

/// A job is marked failed only when no attempt remains.
pub proof fn lemma_failure_needs_exhaustion(
    plan: PlanView,
    attempt: int,
    task: TaskView,
    event: EventView,
)
    requires
        !task.progress.status.is_terminal(),
        step(plan, attempt, task, event).task.progress.status is Failed,
    ensures
        !attempts_remain(plan, attempt),
        step(plan, attempt, task, event).action is Finish,
        step(plan, attempt, task, event).task.progress.error_message is Some,
{
}

} // verus!
