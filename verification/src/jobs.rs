//! The job table: the single authoritative record of live child processes.
//!
//! A [`Job`] tracks one child process; the [`JobManager`] holds the live
//! jobs in launch order together with the foreground slot.  Its invariant
//! (`wf`): pids and job ids are unique among live jobs, job ids grow along
//! the table, and the foreground slot points at exactly the job whose state
//! is `FG`, when one exists.

use vstd::prelude::*;
use vstd::string::StringExecFns;

use crate::render::render_spec;

verus! {

/// The state of a tracked job: foreground, background (running), stopped.
#[derive(Clone, Copy, PartialEq, Eq, Structural, Debug)]
pub enum States {
    FG,
    BG,
    ST,
}

/// One tracked child process: its OS pid, its shell-level job id, its
/// state, and the command line it was launched with (kept for display).
#[derive(Debug)]
pub struct Job {
    pub pid: i32,
    pub jid: u32,
    pub state: States,
    pub cmd: String,
}

impl Job {
    /// A job as the launcher hands it to the table: the job id is a
    /// placeholder that `add_job` replaces with the next free id.
    pub fn new(pid: i32, state: States, cmd: String) -> (j: Job)
        ensures
            j.pid == pid,
            j.state == state,
            j.cmd == cmd,
            j.jid == u32::MAX,
    {
        Job { pid, jid: u32::MAX, state, cmd }
    }
}

/// Whether some live job in `s` has OS pid `pid`.
pub open spec fn has_pid(s: Seq<Job>, pid: i32) -> bool {
    exists|i: int| 0 <= i < s.len() && s[i].pid == pid
}

/// The index of the live job with OS pid `pid` (unique under `wf`).
pub open spec fn pid_index(s: Seq<Job>, pid: i32) -> int {
    choose|i: int| 0 <= i < s.len() && s[i].pid == pid
}

/// Whether some live job in `s` has job id `jid`.
pub open spec fn has_jid(s: Seq<Job>, jid: u32) -> bool {
    exists|i: int| 0 <= i < s.len() && s[i].jid == jid
}

/// The index of the live job with job id `jid` (unique under `wf`).
pub open spec fn jid_index(s: Seq<Job>, jid: u32) -> int {
    choose|i: int| 0 <= i < s.len() && s[i].jid == jid
}

/// The job table: live jobs in launch order, plus the foreground slot.
pub struct JobManager {
    fg: Option<i32>,
    jobs: Vec<Job>,
}

impl JobManager {
    /// The live jobs, in launch order.
    pub closed spec fn jobs_view(self) -> Seq<Job> {
        self.jobs@
    }

    /// The foreground slot: the pid of the foreground job, if one exists.
    pub closed spec fn fg_view(self) -> Option<i32> {
        self.fg
    }

    /// The table invariant: pids positive and unique, job ids at least 1
    /// and strictly increasing in launch order, and the foreground slot
    /// set exactly when some job has state `FG`, pointing at that job.
    pub open spec fn wf(self) -> bool {
        &&& forall|i: int, j: int|
            0 <= i < j < self.jobs_view().len() ==> self.jobs_view()[i].jid < self.jobs_view()[j].jid
        &&& forall|i: int, j: int|
            0 <= i < self.jobs_view().len() && 0 <= j < self.jobs_view().len() && i != j
                ==> self.jobs_view()[i].pid != self.jobs_view()[j].pid
        &&& forall|i: int|
            0 <= i < self.jobs_view().len()
                ==> self.jobs_view()[i].pid > 0 && self.jobs_view()[i].jid >= 1
        &&& forall|i: int|
            0 <= i < self.jobs_view().len() && self.jobs_view()[i].state == States::FG
                ==> self.fg_view() == Some(self.jobs_view()[i].pid)
        &&& match self.fg_view() {
            Some(p) => exists|i: int|
                0 <= i < self.jobs_view().len() && self.jobs_view()[i].pid == p
                    && self.jobs_view()[i].state == States::FG,
            None => true,
        }
    }

    /// An empty table: no jobs, no foreground slot.
    pub fn new() -> (m: JobManager)
        ensures
            m.jobs_view() == Seq::<Job>::empty(),
            m.fg_view() is None,
            m.wf(),
    {
        let m = JobManager { fg: None, jobs: Vec::new() };
        proof {
            assert(m.jobs_view() =~= Seq::<Job>::empty());
        }
        m
    }

    /// The id the next added job will receive: one past the newest live
    /// job id, or 1 for an empty table.
    pub open spec fn next_jid_spec(self) -> int {
        if self.jobs_view().len() == 0 {
            1
        } else {
            self.jobs_view().last().jid + 1
        }
    }

    /// The job id that the next `add_job` will assign.
    pub fn next_jid(&self) -> (jid: u32)
        requires
            self.next_jid_spec() <= u32::MAX,
        ensures
            jid == self.next_jid_spec(),
    {
        if self.jobs.len() == 0 {
            1
        } else {
            self.jobs[self.jobs.len() - 1].jid + 1
        }
    }

    /// Whether the next job id still fits its type (false only once the
    /// newest live job holds the largest representable id).  Callers test
    /// this before registering a launch.
    pub fn next_jid_fits(&self) -> (r: bool)
        ensures
            r == (self.next_jid_spec() <= u32::MAX),
    {
        self.jobs.len() == 0 || self.jobs[self.jobs.len() - 1].jid < u32::MAX
    }

    /// The pid in the foreground slot, if any.
    pub fn current(&self) -> (r: Option<i32>)
        ensures
            r == self.fg_view(),
    {
        self.fg
    }

    /// The position of the job with this pid, scanning in launch order.
    fn index_of_pid(&self, pid: i32) -> (r: Option<usize>)
        ensures
            match r {
                Some(i) => i < self.jobs_view().len() && self.jobs_view()[i as int].pid == pid,
                None => !has_pid(self.jobs_view(), pid),
            },
    {
        let mut i: usize = 0;
        while i < self.jobs.len()
            invariant
                i <= self.jobs_view().len(),
                forall|j: int| 0 <= j < i ==> self.jobs_view()[j].pid != pid,
            decreases self.jobs_view().len() - i,
        {
            if self.jobs[i].pid == pid {
                return Some(i);
            }
            i = i + 1;
        }
        None
    }

    /// The position of the job with this job id, scanning in launch order.
    fn index_of_jid(&self, jid: u32) -> (r: Option<usize>)
        ensures
            match r {
                Some(i) => i < self.jobs_view().len() && self.jobs_view()[i as int].jid == jid,
                None => !has_jid(self.jobs_view(), jid),
            },
    {
        let mut i: usize = 0;
        while i < self.jobs.len()
            invariant
                i <= self.jobs_view().len(),
                forall|j: int| 0 <= j < i ==> self.jobs_view()[j].jid != jid,
            decreases self.jobs_view().len() - i,
        {
            if self.jobs[i].jid == jid {
                return Some(i);
            }
            i = i + 1;
        }
        None
    }

    /// Registers a freshly launched job under the next free job id.
    ///
    /// Fails exactly when the job is to run in the foreground while a
    /// foreground job already exists; the table is then unchanged.  On
    /// success the job is appended with the assigned id, and a foreground
    /// launch takes the foreground slot.
    pub fn add_job(&mut self, job: Job) -> (r: Result<u32, ()>)
        requires
            old(self).wf(),
            job.pid > 0,
            old(self).next_jid_spec() <= u32::MAX,
            !has_pid(old(self).jobs_view(), job.pid),
        ensures
            final(self).wf(),
            match r {
                Ok(jid) => {
                    &&& !(job.state == States::FG && old(self).fg_view() is Some)
                    &&& jid == old(self).next_jid_spec()
                    &&& final(self).jobs_view() =~= old(self).jobs_view().push(
                        (Job { pid: job.pid, jid, state: job.state, cmd: job.cmd }),
                    )
                    &&& final(self).fg_view() == (if job.state == States::FG {
                        Some(job.pid)
                    } else {
                        old(self).fg_view()
                    })
                },
                Err(()) => {
                    &&& job.state == States::FG && old(self).fg_view() is Some
                    &&& *final(self) == *old(self)
                },
            },
    {
        let jid = self.next_jid();
        if let States::FG = job.state {
            if self.fg.is_some() {
                return Err(());
            }
            self.fg = Some(job.pid);
        }
        self.jobs.push(Job { pid: job.pid, jid, state: job.state, cmd: job.cmd });
        proof {
            let s_old = old(self).jobs_view();
            let s_new = self.jobs_view();
            assert forall|i: int, j: int| 0 <= i < j < s_new.len() implies s_new[i].jid
                < s_new[j].jid by {
                if j == s_new.len() - 1 && i < s_old.len() - 1 {
                    assert(s_old[i].jid < s_old[s_old.len() - 1].jid);
                }
            }
            assert forall|i: int|
                0 <= i < s_new.len() && s_new[i].state == States::FG implies self.fg_view() == Some(
                s_new[i].pid,
            ) by {
                if i < s_old.len() {
                    assert(s_old[i] == s_new[i]);
                }
            }
            if let Some(p) = self.fg_view() {
                if job.state == States::FG {
                    assert(s_new[s_new.len() - 1].pid == p);
                } else {
                    let k = choose|i: int|
                        0 <= i < s_old.len() && s_old[i].pid == p && s_old[i].state == States::FG;
                    assert(s_new[k].pid == p && s_new[k].state == States::FG);
                }
            }
        }
        Ok(jid)
    }

    /// Deletes the job with this pid; fails exactly when no live job has
    /// it, leaving the table unchanged.  Removing the foreground job
    /// clears the foreground slot.
    pub fn remove_job(&mut self, pid: i32) -> (r: Result<(), ()>)
        requires
            old(self).wf(),
        ensures
            final(self).wf(),
            match r {
                Ok(()) => {
                    &&& has_pid(old(self).jobs_view(), pid)
                    &&& final(self).jobs_view() =~= old(self).jobs_view().remove(
                        pid_index(old(self).jobs_view(), pid),
                    )
                    &&& final(self).fg_view() == (if old(self).fg_view() == Some(pid) {
                        Option::<i32>::None
                    } else {
                        old(self).fg_view()
                    })
                },
                Err(()) => {
                    &&& !has_pid(old(self).jobs_view(), pid)
                    &&& *final(self) == *old(self)
                },
            },
    {
        let index = match self.index_of_pid(pid) {
            Some(index) => index,
            None => {
                return Err(());
            },
        };
        if let Some(fg) = self.fg {
            if fg == pid {
                self.fg = None;
            }
        }
        proof {
            assert(pid_index(self.jobs_view(), pid) == index);
        }
        self.jobs.remove(index);
        proof {
            let s_old = old(self).jobs_view();
            let s_new = self.jobs_view();
            assert(s_new =~= s_old.remove(index as int));
            assert forall|i: int|
                0 <= i < s_new.len() && s_new[i].state == States::FG implies self.fg_view() == Some(
                s_new[i].pid,
            ) by {
                if i < index {
                    assert(s_new[i] == s_old[i]);
                } else {
                    assert(s_new[i] == s_old[i + 1]);
                }
            }
            if let Some(p) = self.fg_view() {
                let k = choose|i: int|
                    0 <= i < s_old.len() && s_old[i].pid == p && s_old[i].state == States::FG;
                if k < index {
                    assert(s_new[k].pid == p && s_new[k].state == States::FG);
                } else {
                    assert(s_new[k - 1].pid == p && s_new[k - 1].state == States::FG);
                }
            }
        }
        Ok(())
    }

    /// The live job with this pid, or an error when none has it.
    pub fn get_pid(&self, pid: i32) -> (r: Result<&Job, ()>)
        requires
            self.wf(),
        ensures
            match r {
                Ok(j) => has_pid(self.jobs_view(), pid) && *j == self.jobs_view()[pid_index(
                    self.jobs_view(),
                    pid,
                )],
                Err(()) => !has_pid(self.jobs_view(), pid),
            },
    {
        match self.index_of_pid(pid) {
            Some(index) => {
                proof {
                    assert(pid_index(self.jobs_view(), pid) == index);
                }
                Ok(&self.jobs[index])
            },
            None => Err(()),
        }
    }

    /// The live job with this job id, or an error when none has it.
    pub fn get_jid(&self, jid: u32) -> (r: Result<&Job, ()>)
        requires
            self.wf(),
        ensures
            match r {
                Ok(j) => has_jid(self.jobs_view(), jid) && *j == self.jobs_view()[jid_index(
                    self.jobs_view(),
                    jid,
                )],
                Err(()) => !has_jid(self.jobs_view(), jid),
            },
    {
        match self.index_of_jid(jid) {
            Some(index) => {
                proof {
                    assert(jid_index(self.jobs_view(), jid) == index);
                }
                Ok(&self.jobs[index])
            },
            None => Err(()),
        }
    }

    /// Moves the job with this pid to `state`; fails exactly when no live
    /// job has it, leaving the table unchanged.  Leaving the foreground
    /// state vacates the foreground slot; entering it takes the slot (the
    /// caller must not create a second foreground job, so the slot must be
    /// free or already held by this pid).
    pub fn set_state(&mut self, pid: i32, state: States) -> (r: Result<u32, ()>)
        requires
            old(self).wf(),
            state == States::FG ==> old(self).fg_view() is None || old(self).fg_view() == Some(
                pid,
            ),
        ensures
            final(self).wf(),
            match r {
                Ok(jid) => {
                    &&& has_pid(old(self).jobs_view(), pid)
                    &&& jid == old(self).jobs_view()[pid_index(old(self).jobs_view(), pid)].jid
                    &&& final(self).jobs_view() =~= old(self).jobs_view().update(
                        pid_index(old(self).jobs_view(), pid),
                        (Job {
                            state,
                            ..old(self).jobs_view()[pid_index(old(self).jobs_view(), pid)]
                        }),
                    )
                    &&& final(self).fg_view() == (if state == States::FG {
                        Some(pid)
                    } else if old(self).fg_view() == Some(pid) {
                        Option::<i32>::None
                    } else {
                        old(self).fg_view()
                    })
                },
                Err(()) => {
                    &&& !has_pid(old(self).jobs_view(), pid)
                    &&& *final(self) == *old(self)
                },
            },
    {
        let index = match self.index_of_pid(pid) {
            Some(index) => index,
            None => {
                return Err(());
            },
        };
        proof {
            assert(pid_index(self.jobs_view(), pid) == index);
        }
        if let Some(fg) = self.fg {
            if fg == pid {
                self.fg = None;
            }
        }
        if let States::FG = state {
            self.fg = Some(pid);
        }
        let jid = self.jobs[index].jid;
        let old_job = self.jobs.remove(index);
        self.jobs.insert(index, Job { state, ..old_job });
        proof {
            let s_old = old(self).jobs_view();
            let s_new = self.jobs_view();
            assert(s_new =~= s_old.update(index as int, (Job { state, ..s_old[index as int] })));
            assert forall|i: int, j: int| 0 <= i < j < s_new.len() implies s_new[i].jid
                < s_new[j].jid by {
                assert(s_old[i].jid < s_old[j].jid);
            }
            assert forall|i: int|
                0 <= i < s_new.len() && s_new[i].state == States::FG implies self.fg_view() == Some(
                s_new[i].pid,
            ) by {
                if i != index {
                    assert(s_new[i] == s_old[i]);
                    if state != States::FG && old(self).fg_view() == Some(pid) {
                        assert(s_old[index as int].state == States::FG);
                    }
                }
            }
            if let Some(p) = self.fg_view() {
                if state == States::FG {
                    assert(s_new[index as int].pid == p && s_new[index as int].state
                        == States::FG);
                } else {
                    let k = choose|i: int|
                        0 <= i < s_old.len() && s_old[i].pid == p && s_old[i].state == States::FG;
                    assert(s_new[k].pid == p && s_new[k].state == States::FG);
                }
            }
        }
        Ok(jid)
    }

    /// The listing: one line per live job, in launch order, each line
    /// `[job_id] (pid) state-label command` followed by a newline.
    pub fn list(&self) -> (r: String)
        requires
            self.wf(),
        ensures
            r@ == render_spec(self.jobs_view()),
    {
        let mut res = String::new();
        let mut i: usize = 0;
        while i < self.jobs.len()
            invariant
                self.wf(),
                i <= self.jobs_view().len(),
                res@ == render_spec(self.jobs_view().take(i as int)),
            decreases self.jobs_view().len() - i,
        {
            let line = self.jobs[i].render_line();
            res.append(line.as_str());
            res.append("\n");
            proof {
                let t = self.jobs_view().take(i + 1);
                assert(t.drop_last() =~= self.jobs_view().take(i as int));
                assert(t.last() == self.jobs_view()[i as int]);
                assert(res@ =~= render_spec(t));
            }
            i = i + 1;
        }
        proof {
            assert(self.jobs_view().take(self.jobs_view().len() as int) =~= self.jobs_view());
        }
        res
    }

    /// Law: however the table was built, at most one job is foreground,
    /// and live jobs have pairwise distinct pids and distinct job ids.
    /// (Every mutating operation preserves `wf`, which yields this.)
    pub proof fn lemma_uniqueness(self, i: int, j: int)
        requires
            self.wf(),
            0 <= i < self.jobs_view().len(),
            0 <= j < self.jobs_view().len(),
            i != j,
        ensures
            self.jobs_view()[i].pid != self.jobs_view()[j].pid,
            self.jobs_view()[i].jid != self.jobs_view()[j].jid,
            !(self.jobs_view()[i].state == States::FG && self.jobs_view()[j].state == States::FG),
    {
    }

    /// Law: a job added to an empty table receives job id 1.
    pub proof fn lemma_first_jid(self)
        requires
            self.jobs_view().len() == 0,
        ensures
            self.next_jid_spec() == 1,
    {
    }

    /// Law: the next assigned id exceeds every live job id, so an added
    /// job never reuses the id of a job that is still live.
    pub proof fn lemma_next_jid_fresh(self, i: int)
        requires
            self.wf(),
            0 <= i < self.jobs_view().len(),
        ensures
            self.jobs_view()[i].jid < self.next_jid_spec(),
    {
        if i < self.jobs_view().len() - 1 {
            assert(self.jobs_view()[i].jid < self.jobs_view()[self.jobs_view().len() - 1].jid);
        }
    }

    /// Law: ids are never reused while a higher id is live.  Removing any
    /// job but the newest leaves the next assigned id what it was, so
    /// after jobs `1..=n` were added and one of `1..n` was removed, the
    /// next added job still receives `n + 1`.
    pub proof fn lemma_id_not_reused(self, other: JobManager, pid: i32)
        requires
            self.wf(),
            has_pid(self.jobs_view(), pid),
            pid_index(self.jobs_view(), pid) < self.jobs_view().len() - 1,
            other.jobs_view() == self.jobs_view().remove(pid_index(self.jobs_view(), pid)),
        ensures
            other.next_jid_spec() == self.next_jid_spec(),
    {
        assert(other.jobs_view().last() == self.jobs_view().last());
    }

    /// Points the foreground slot at this pid.  Under the invariant this
    /// is only meaningful for the job that already holds state `FG`.
    pub fn set_fg(&mut self, pid: i32)
        requires
            old(self).wf(),
            has_pid(old(self).jobs_view(), pid),
            old(self).jobs_view()[pid_index(old(self).jobs_view(), pid)].state == States::FG,
        ensures
            final(self).wf(),
            final(self).jobs_view() == old(self).jobs_view(),
            final(self).fg_view() == Some(pid),
    {
        self.fg = Some(pid);
    }
}

} // verus!
