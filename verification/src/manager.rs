//! The manager: the registry of all jobs, by id. Jobs are added when they
//! start and are never removed, so a job that has ended can still be asked
//! about.

use crate::command::plan_for;
use crate::error::{AppError, AppErrorView};
use crate::progress::{ConversionProgress, ConversionStatus, ProgressView, StatusView};
use crate::supervisor::{
    lemma_ended_job_stays_ended, step, Supervisor, SupervisorAction, SupervisorEvent,
};
use crate::task::{initial_task, ConversionTask, TaskRequest, TaskView};
use vstd::prelude::*;

verus! {

/// The registry of jobs.
pub struct FfmpegManager {
    tasks: Vec<ConversionTask>,
}

/// Some job of `tasks` has the id `id`.
pub open spec fn has_id(tasks: Seq<ConversionTask>, id: Seq<char>) -> bool {
    exists|i: int| 0 <= i < tasks.len() && (#[trigger] tasks[i]).id@ == id
}

/// No two jobs of `tasks` share an id.
pub open spec fn distinct_ids(tasks: Seq<ConversionTask>) -> bool {
    forall|i: int, j: int|
        0 <= i < j < tasks.len() ==> (#[trigger] tasks[i]).id@ != (#[trigger] tasks[j]).id@
}

/// Where the job with id `id` stands in `tasks`.
pub open spec fn position(tasks: Seq<ConversionTask>, id: Seq<char>) -> int {
    choose|i: int| 0 <= i < tasks.len() && (#[trigger] tasks[i]).id@ == id
}

/// The jobs of `tasks` by id.
pub open spec fn registry(tasks: Seq<ConversionTask>) -> Map<Seq<char>, TaskView> {
    Map::new(|id: Seq<char>| has_id(tasks, id), |id: Seq<char>| tasks[position(tasks, id)]@)
}

/// The job after a request to cancel it: cancelled, unless it had ended.
pub open spec fn cancelled(task: TaskView) -> TaskView {
    if task.progress.status.is_terminal() {
        task
    } else {
        TaskView {
            progress: ProgressView { status: StatusView::Cancelled, ..task.progress },
            ..task
        }
    }
}

/// The process to signal when a job is cancelled: the live process of a job
/// that had not ended.
pub open spec fn process_to_stop(task: TaskView) -> Option<u32> {
    if task.progress.status.is_terminal() {
        None
    } else {
        task.pid
    }
}

/// Every job that had ended in `before` is in `after` with the same status.
pub open spec fn ended_jobs_kept(
    before: Map<Seq<char>, TaskView>,
    after: Map<Seq<char>, TaskView>,
) -> bool {
    forall|id: Seq<char>|
        before.contains_key(id) && (#[trigger] before[id]).progress.status.is_terminal()
            ==> after.contains_key(id) && after[id].progress.status == before[id].progress.status
}

proof fn lemma_registry_at(tasks: Seq<ConversionTask>, k: int)
    requires
        distinct_ids(tasks),
        0 <= k < tasks.len(),
    ensures
        registry(tasks).contains_key(tasks[k].id@),
        registry(tasks)[tasks[k].id@] == tasks[k]@,
        position(tasks, tasks[k].id@) == k,
{
    let id = tasks[k].id@;
    let p = position(tasks, id);
    assert(0 <= p < tasks.len() && tasks[p].id@ == id);
    if p < k {
        assert(tasks[p].id@ != tasks[k].id@);
    } else if k < p {
        assert(tasks[k].id@ != tasks[p].id@);
    }
}

proof fn lemma_registry_without(tasks: Seq<ConversionTask>, id: Seq<char>)
    requires
        forall|i: int| 0 <= i < tasks.len() ==> (#[trigger] tasks[i]).id@ != id,
    ensures
        !registry(tasks).contains_key(id),
{
}

proof fn lemma_registry_update(tasks: Seq<ConversionTask>, k: int, task: ConversionTask)
    requires
        distinct_ids(tasks),
        0 <= k < tasks.len(),
        task.id@ == tasks[k].id@,
    ensures
        distinct_ids(tasks.update(k, task)),
        registry(tasks.update(k, task)) == registry(tasks).insert(task.id@, task@),
{
    let after = tasks.update(k, task);
    assert forall|i: int, j: int| 0 <= i < j < after.len() implies (#[trigger] after[i]).id@ != (
    #[trigger] after[j]).id@ by {
        assert(after[i].id@ == tasks[i].id@);
        assert(after[j].id@ == tasks[j].id@);
    }
    assert forall|id: Seq<char>| has_id(after, id) <==> has_id(tasks, id) by {
        if has_id(after, id) {
            let i = choose|i: int| 0 <= i < after.len() && (#[trigger] after[i]).id@ == id;
            assert(tasks[i].id@ == id);
        }
        if has_id(tasks, id) {
            let i = choose|i: int| 0 <= i < tasks.len() && (#[trigger] tasks[i]).id@ == id;
            assert(after[i].id@ == id);
        }
    }
    lemma_registry_at(tasks, k);
    assert forall|id: Seq<char>| has_id(after, id) implies #[trigger] registry(after)[id]
        == registry(tasks).insert(task.id@, task@)[id] by {
        let p = position(after, id);
        assert(0 <= p < after.len() && after[p].id@ == id);
        assert(tasks[p].id@ == id);
        lemma_registry_at(tasks, p);
        lemma_registry_at(after, p);
    }
    assert(registry(after) =~= registry(tasks).insert(task.id@, task@));
}

proof fn lemma_registry_push(tasks: Seq<ConversionTask>, task: ConversionTask)
    requires
        distinct_ids(tasks),
        forall|i: int| 0 <= i < tasks.len() ==> (#[trigger] tasks[i]).id@ != task.id@,
    ensures
        distinct_ids(tasks.push(task)),
        registry(tasks.push(task)) == registry(tasks).insert(task.id@, task@),
{
    let after = tasks.push(task);
    assert forall|i: int, j: int| 0 <= i < j < after.len() implies (#[trigger] after[i]).id@ != (
    #[trigger] after[j]).id@ by {
        assert(after[i] == tasks[i]);
        if j < tasks.len() {
            assert(after[j] == tasks[j]);
        }
    }
    assert forall|id: Seq<char>| has_id(after, id) <==> (has_id(tasks, id) || id == task.id@) by {
        if has_id(after, id) {
            let i = choose|i: int| 0 <= i < after.len() && (#[trigger] after[i]).id@ == id;
            if i < tasks.len() {
                assert(tasks[i].id@ == id);
            }
        }
        if has_id(tasks, id) {
            let i = choose|i: int| 0 <= i < tasks.len() && (#[trigger] tasks[i]).id@ == id;
            assert(after[i].id@ == id);
        }
        if id == task.id@ {
            assert(after[tasks.len() as int].id@ == id);
        }
    }
    assert forall|id: Seq<char>| has_id(after, id) implies #[trigger] registry(after)[id]
        == registry(tasks).insert(task.id@, task@)[id] by {
        let p = position(after, id);
        assert(0 <= p < after.len() && after[p].id@ == id);
        lemma_registry_at(after, p);
        if p < tasks.len() {
            assert(tasks[p].id@ == id);
            lemma_registry_at(tasks, p);
        }
    }
    assert(registry(after) =~= registry(tasks).insert(task.id@, task@));
}

impl FfmpegManager {
    /// No two registered jobs share an id.
    pub closed spec fn wf(&self) -> bool {
        distinct_ids(self.tasks@)
    }

    /// The registered jobs, by id.
    pub closed spec fn view(&self) -> Map<Seq<char>, TaskView> {
        registry(self.tasks@)
    }

    /// An empty registry.
    pub fn new() -> (m: Self)
        ensures
            m.wf(),
            m@ == Map::<Seq<char>, TaskView>::empty(),
    {
        let m = FfmpegManager { tasks: Vec::new() };
        assert(m@ =~= Map::<Seq<char>, TaskView>::empty());
        m
    }

    fn find(&self, task_id: &str) -> (found: Option<usize>)
        requires
            self.wf(),
        ensures
            match found {
                Some(k) => k < self.tasks.len() && self.tasks@[k as int].id@ == task_id@
                    && self@.contains_key(task_id@) && self@[task_id@] == self.tasks@[k as int]@,
                None => !self@.contains_key(task_id@) && forall|i: int|
                    0 <= i < self.tasks.len() ==> (#[trigger] self.tasks@[i]).id@ != task_id@,
            },
    {
        let mut i: usize = 0;
        while i < self.tasks.len()
            invariant
                self.wf(),
                i <= self.tasks.len(),
                forall|j: int| 0 <= j < i ==> (#[trigger] self.tasks@[j]).id@ != task_id@,
            decreases self.tasks.len() - i,
        {
            if crate::text::str_eq(self.tasks[i].id.as_str(), task_id) {
                proof {
                    lemma_registry_at(self.tasks@, i as int);
                }
                return Some(i);
            }
            i = i + 1;
        }
        proof {
            lemma_registry_without(self.tasks@, task_id@);
        }
        None
    }

    /// Whether a job with this id is registered.
    pub fn contains(&self, task_id: &str) -> (r: bool)
        requires
            self.wf(),
        ensures
            r == self@.contains_key(task_id@),
    {
        self.find(task_id).is_some()
    }

    /// Registers a pending job under `task_id`, for the caller to hand to a
    /// supervisor. An id that is already registered is refused and the
    /// registry left as it was: a registered job is never replaced.
    pub fn start_conversion(
        &mut self,
        task_id: String,
        input_file: String,
        output_file: String,
        ffmpeg_path: String,
        encoder: String,
        gpu_index: Option<u32>,
        cpu_threads: Option<u32>,
        preset: String,
        is_adobe_preset: bool,
    ) -> (r: Result<(), AppError>)
        requires
            old(self).wf(),
        ensures
            final(self).wf(),
            r is Err <==> old(self)@.contains_key(task_id@),
            r is Err ==> final(self)@ == old(self)@ && r->Err_0@ == AppErrorView::Internal(
                "Task already exists"@,
            ),
            r is Ok ==> exists|extension: Option<Seq<char>>|
                final(self)@ == old(self)@.insert(
                    task_id@,
                    #[trigger] initial_task(
                        TaskRequest {
                            task_id: task_id@,
                            input_file: input_file@,
                            output_file: output_file@,
                            ffmpeg_path: ffmpeg_path@,
                            encoder: encoder@,
                            gpu_index,
                            cpu_threads,
                            preset: preset@,
                            is_adobe_preset,
                        },
                        extension,
                    ),
                ),
            ended_jobs_kept(old(self)@, final(self)@),
    {
        if self.find(task_id.as_str()).is_some() {
            return Err(AppError::Internal("Task already exists".to_owned()));
        }
        let task = ConversionTask::new(
            task_id,
            input_file,
            output_file,
            ffmpeg_path,
            encoder,
            gpu_index,
            cpu_threads,
            preset,
            is_adobe_preset,
        );
        proof {
            lemma_registry_push(self.tasks@, task);
        }
        self.tasks.push(task);
        Ok(())
    }

    /// A copy of a job's progress record, or `None` for an id that is not
    /// registered.
    pub fn get_progress(&self, task_id: &str) -> (r: Option<ConversionProgress>)
        requires
            self.wf(),
        ensures
            match r {
                Some(p) => self@.contains_key(task_id@) && p@ == self@[task_id@].progress,
                None => !self@.contains_key(task_id@),
            },
    {
        match self.find(task_id) {
            Some(k) => Some(self.tasks[k].progress.snapshot()),
            None => None,
        }
    }

    /// A supervisor for the job with id `task_id`, with the plan that the
    /// job's encoder calls for and before its first attempt; `None` for an
    /// id that is not registered.
    pub fn supervisor_for(&self, task_id: &str) -> (r: Option<Supervisor>)
        requires
            self.wf(),
        ensures
            match r {
                Some(s) => self@.contains_key(task_id@) && s.plan@ == plan_for(
                    self@[task_id@].encoder,
                ) && s.attempt == 0,
                None => !self@.contains_key(task_id@),
            },
    {
        match self.find(task_id) {
            Some(k) => Some(Supervisor::new(self.tasks[k].encoder.as_str())),
            None => None,
        }
    }

    /// Cancels a job. A job that has not ended becomes cancelled, and the
    /// id of its live process, if it has one, is returned for the caller to
    /// signal. A job that has ended is left as it is. An id that is not
    /// registered is an error.
    pub fn cancel_conversion(&mut self, task_id: &str) -> (r: Result<Option<u32>, AppError>)
        requires
            old(self).wf(),
        ensures
            final(self).wf(),
            match r {
                Ok(pid) => old(self)@.contains_key(task_id@) && pid == process_to_stop(
                    old(self)@[task_id@],
                ) && final(self)@ == old(self)@.insert(task_id@, cancelled(old(self)@[task_id@])),
                Err(e) => !old(self)@.contains_key(task_id@) && final(self)@ == old(self)@ && e@
                    == AppErrorView::Internal("Task not found"@),
            },
            ended_jobs_kept(old(self)@, final(self)@),
    {
        match self.find(task_id) {
            None => Err(AppError::Internal("Task not found".to_owned())),
            Some(k) => {
                let ghost before = self.tasks@;
                let task = &mut self.tasks[k];
                let mut pid: Option<u32> = None;
                if !task.progress.status.is_terminal() {
                    pid = task.pid;
                    task.progress.status = ConversionStatus::Cancelled;
                }
                proof {
                    assert(self.tasks@ =~= before.update(k as int, self.tasks@[k as int]));
                    lemma_registry_update(before, k as int, self.tasks@[k as int]);
                }
                Ok(pid)
            },
        }
    }

    /// Cancels every job. Returns the ids of all live processes, for the
    /// caller to signal; afterwards every job has ended.
    pub fn cancel_all(&mut self) -> (pids: Vec<u32>)
        requires
            old(self).wf(),
        ensures
            final(self).wf(),
            final(self)@.dom() == old(self)@.dom(),
            forall|id: Seq<char>|
                old(self)@.contains_key(id) ==> #[trigger] final(self)@[id] == cancelled(
                    old(self)@[id],
                ),
            forall|id: Seq<char>|
                final(self)@.contains_key(id) ==> (#[trigger] final(self)@[id]).progress.status.is_terminal(),
            forall|p: u32|
                pids@.contains(p) <==> exists|id: Seq<char>|
                    old(self)@.contains_key(id) && (#[trigger] old(self)@[id]).pid == Some(p),
            ended_jobs_kept(old(self)@, final(self)@),
    {
        let ghost before = self.tasks@;
        let mut pids: Vec<u32> = Vec::new();
        let mut i: usize = 0;
        while i < self.tasks.len()
            invariant
                i <= self.tasks.len(),
                self.tasks.len() == before.len(),
                distinct_ids(before),
                forall|j: int| 0 <= j < before.len() ==> (#[trigger] self.tasks@[j]).id@ == before[j].id@,
                forall|j: int| 0 <= j < i ==> (#[trigger] self.tasks@[j])@ == cancelled(before[j]@),
                forall|j: int| i <= j < before.len() ==> (#[trigger] self.tasks@[j]) == before[j],
                forall|p: u32|
                    pids@.contains(p) <==> exists|j: int|
                        0 <= j < i && (#[trigger] before[j]).pid == Some(p),
            decreases self.tasks.len() - i,
        {
            let ghost seen = pids@;
            let task = &mut self.tasks[i];
            if let Some(pid) = task.pid {
                pids.push(pid);
            }
            if !task.progress.status.is_terminal() {
                task.progress.status = ConversionStatus::Cancelled;
            }
            proof {
                assert forall|p: u32|
                    pids@.contains(p) <==> exists|j: int|
                        0 <= j < i + 1 && (#[trigger] before[j]).pid == Some(p) by {
                    if pids@.contains(p) {
                        if seen.contains(p) {
                            let j = choose|j: int| 0 <= j < i && (#[trigger] before[j]).pid == Some(p);
                            assert(0 <= j < i + 1 && before[j].pid == Some(p));
                        } else {
                            let at = choose|at: int| 0 <= at < pids@.len() && pids@[at] == p;
                            if at < seen.len() {
                                assert(seen[at] == p);
                                assert(seen.contains(p));
                            }
                            assert(before[i as int].pid == Some(p));
                        }
                    }
                    if exists|j: int| 0 <= j < i + 1 && (#[trigger] before[j]).pid == Some(p) {
                        let j = choose|j: int| 0 <= j < i + 1 && (#[trigger] before[j]).pid == Some(p);
                        if j < i {
                            assert(seen.contains(p));
                            let at = choose|at: int| 0 <= at < seen.len() && seen[at] == p;
                            assert(pids@[at] == p);
                        } else {
                            assert(pids@[pids@.len() - 1] == p);
                        }
                    }
                }
            }
            i = i + 1;
        }
        proof {
            let after = self.tasks@;
            assert forall|k: int, j: int| 0 <= k < j < after.len() implies (#[trigger] after[k]).id@
                != (#[trigger] after[j]).id@ by {
                assert(before[k].id@ != before[j].id@);
            }
            assert forall|id: Seq<char>| has_id(after, id) <==> has_id(before, id) by {
                if has_id(after, id) {
                    let j = choose|j: int| 0 <= j < after.len() && (#[trigger] after[j]).id@ == id;
                    assert(before[j].id@ == id);
                }
                if has_id(before, id) {
                    let j = choose|j: int| 0 <= j < before.len() && (#[trigger] before[j]).id@ == id;
                    assert(after[j].id@ == id);
                }
            }
            assert(registry(after).dom() =~= registry(before).dom());
            assert forall|id: Seq<char>| registry(before).contains_key(id) implies #[trigger] registry(
                after,
            )[id] == cancelled(registry(before)[id]) by {
                let p = position(before, id);
                assert(0 <= p < before.len() && before[p].id@ == id);
                assert(after[p].id@ == id);
                lemma_registry_at(before, p);
                lemma_registry_at(after, p);
            }
            assert forall|p: u32|
                pids@.contains(p) <==> exists|id: Seq<char>|
                    registry(before).contains_key(id) && (#[trigger] registry(before)[id]).pid
                        == Some(p) by {
                if pids@.contains(p) {
                    let j = choose|j: int| 0 <= j < before.len() && (#[trigger] before[j]).pid == Some(p);
                    lemma_registry_at(before, j);
                    assert(registry(before)[before[j].id@].pid == Some(p));
                }
                if exists|id: Seq<char>|
                    registry(before).contains_key(id) && (#[trigger] registry(before)[id]).pid
                        == Some(p) {
                    let id = choose|id: Seq<char>|
                        registry(before).contains_key(id) && (#[trigger] registry(before)[id]).pid
                            == Some(p);
                    let q = position(before, id);
                    assert(0 <= q < before.len() && before[q].id@ == id);
                    lemma_registry_at(before, q);
                    assert(before[q].pid == Some(p));
                }
            }
        }
        pids
    }

    /// Hands an event to the supervisor of the job with id `task_id` and
    /// returns the supervisor's answer, or `None` for an id that is not
    /// registered.
    pub fn supervise(
        &mut self,
        task_id: &str,
        supervisor: &mut Supervisor,
        event: &SupervisorEvent,
    ) -> (r: Option<SupervisorAction>)
        requires
            old(self).wf(),
        ensures
            final(self).wf(),
            final(supervisor).plan == old(supervisor).plan,
            match r {
                Some(action) => old(self)@.contains_key(task_id@) && ({
                    let next = step(
                        old(supervisor).plan@,
                        old(supervisor).attempt as int,
                        old(self)@[task_id@],
                        event@,
                    );
                    &&& final(self)@ == old(self)@.insert(task_id@, next.task)
                    &&& final(supervisor).attempt == next.attempt
                    &&& action@ == next.action
                }),
                None => !old(self)@.contains_key(task_id@) && final(self)@ == old(self)@ && final(supervisor).attempt == old(supervisor).attempt,
            },
            ended_jobs_kept(old(self)@, final(self)@),
    {
        match self.find(task_id) {
            None => None,
            Some(k) => {
                let ghost before = self.tasks@;
                let task = &mut self.tasks[k];
                let action = supervisor.step(task, event);
                proof {
                    assert(self.tasks@ =~= before.update(k as int, self.tasks@[k as int]));
                    crate::supervisor::lemma_step_moves_forward(
                        old(supervisor).plan@,
                        old(supervisor).attempt as int,
                        before[k as int]@,
                        event@,
                    );
                    lemma_registry_update(before, k as int, self.tasks@[k as int]);
                    if before[k as int]@.progress.status.is_terminal() {
                        lemma_ended_job_stays_ended(
                            old(supervisor).plan@,
                            old(supervisor).attempt as int,
                            before[k as int]@,
                            event@,
                        );
                    }
                }
                Some(action)
            },
        }
    }
}

} // verus!
