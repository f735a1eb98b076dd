//! The event-processor step and the launch registration.
//!
//! Asynchronous process-state notifications arrive as [`Message`] values.
//! [`process_message`] applies one message to the job table and returns the
//! [`StepActions`] the surrounding loop must carry out: a notice to print,
//! a signal to forward to the foreground process group, and whether to
//! release the foreground waiter.  [`register_launch`] is the table side of
//! launching an external command.

use vstd::prelude::*;
use vstd::string::StringExecFns;

use crate::jobs::{has_pid, pid_index, Job, JobManager, States};
use crate::render::{dec_spec, trim_end_spec, trim_end_str, u32_to_string};

verus! {

/// A tagged event produced by the signal handlers and consumed serially
/// by the event processor.
pub enum Message {
    ChildExited { pid: i32 },
    ChildStopped { pid: i32, signal: i32 },
    ChildSignaled { pid: i32, signal: i32 },
    KeyboardSignal { signal: i32 },
}

/// What the event-processor loop must do after one step: print a notice,
/// forward a signal to a process group (a negative pid and the signal
/// number), and release the foreground waiter.
pub struct StepActions {
    pub notice: Option<String>,
    pub forward: Option<(i32, i32)>,
    pub release: bool,
}

/// The notice for a job stopped by a signal.
pub open spec fn stopped_notice_spec(jid: u32, pid: i32, signal: i32) -> Seq<char> {
    "Job ["@ + dec_spec(jid as nat) + "] ("@ + dec_spec(pid as nat) + ") stopped by signal "@
        + dec_spec(signal as nat)
}

/// The notice for a job terminated by a signal.
pub open spec fn terminated_notice_spec(jid: u32, pid: i32, signal: i32) -> Seq<char> {
    "Job ["@ + dec_spec(jid as nat) + "] ("@ + dec_spec(pid as nat) + ") terminated by signal "@
        + dec_spec(signal as nat)
}

fn stopped_notice(jid: u32, pid: i32, signal: i32) -> (r: String)
    requires
        pid > 0,
        signal >= 0,
    ensures
        r@ == stopped_notice_spec(jid, pid, signal),
{
    let mut s = "Job [".to_owned();
    let jid_s = u32_to_string(jid);
    s.append(jid_s.as_str());
    s.append("] (");
    let pid_s = u32_to_string(pid as u32);
    s.append(pid_s.as_str());
    s.append(") stopped by signal ");
    let sig_s = u32_to_string(signal as u32);
    s.append(sig_s.as_str());
    proof {
        assert(s@ =~= stopped_notice_spec(jid, pid, signal));
    }
    s
}

fn terminated_notice(jid: u32, pid: i32, signal: i32) -> (r: String)
    requires
        pid > 0,
        signal >= 0,
    ensures
        r@ == terminated_notice_spec(jid, pid, signal),
{
    let mut s = "Job [".to_owned();
    let jid_s = u32_to_string(jid);
    s.append(jid_s.as_str());
    s.append("] (");
    let pid_s = u32_to_string(pid as u32);
    s.append(pid_s.as_str());
    s.append(") terminated by signal ");
    let sig_s = u32_to_string(signal as u32);
    s.append(sig_s.as_str());
    proof {
        assert(s@ =~= terminated_notice_spec(jid, pid, signal));
    }
    s
}

/// Applies one asynchronous event to the job table.
///
/// A child message for a pid no live job has fails and leaves the table
/// unchanged.  Otherwise: an exit removes the job silently; a termination
/// by signal prints the terminated notice and removes the job; a stop
/// moves the job to `Stopped` and prints the stopped notice.  For each of
/// the three, the foreground waiter is released exactly when a foreground
/// job existed when the step began.  A keyboard signal never touches the
/// table: it is forwarded to the foreground job's entire process group
/// (the negative of its pid), or dropped when no job is foreground.
pub fn process_message(mgr: &mut JobManager, msg: Message) -> (r: Result<StepActions, ()>)
    requires
        old(mgr).wf(),
        match msg {
            Message::ChildStopped { signal, .. } => signal >= 0,
            Message::ChildSignaled { signal, .. } => signal >= 0,
            _ => true,
        },
    ensures
        final(mgr).wf(),
        match msg {
            Message::ChildExited { pid } => match r {
                Ok(a) => {
                    &&& has_pid(old(mgr).jobs_view(), pid)
                    &&& final(mgr).jobs_view() =~= old(mgr).jobs_view().remove(
                        pid_index(old(mgr).jobs_view(), pid),
                    )
                    &&& final(mgr).fg_view() == (if old(mgr).fg_view() == Some(pid) {
                        Option::<i32>::None
                    } else {
                        old(mgr).fg_view()
                    })
                    &&& a.notice is None
                    &&& a.forward is None
                    &&& a.release == (old(mgr).fg_view() is Some)
                },
                Err(()) => !has_pid(old(mgr).jobs_view(), pid) && *final(mgr) == *old(mgr),
            },
            Message::ChildSignaled { pid, signal } => match r {
                Ok(a) => {
                    &&& has_pid(old(mgr).jobs_view(), pid)
                    &&& final(mgr).jobs_view() =~= old(mgr).jobs_view().remove(
                        pid_index(old(mgr).jobs_view(), pid),
                    )
                    &&& final(mgr).fg_view() == (if old(mgr).fg_view() == Some(pid) {
                        Option::<i32>::None
                    } else {
                        old(mgr).fg_view()
                    })
                    &&& match a.notice {
                        Some(n) => n@ == terminated_notice_spec(
                            old(mgr).jobs_view()[pid_index(old(mgr).jobs_view(), pid)].jid,
                            pid,
                            signal,
                        ),
                        None => false,
                    }
                    &&& a.forward is None
                    &&& a.release == (old(mgr).fg_view() is Some)
                },
                Err(()) => !has_pid(old(mgr).jobs_view(), pid) && *final(mgr) == *old(mgr),
            },
            Message::ChildStopped { pid, signal } => match r {
                Ok(a) => {
                    &&& has_pid(old(mgr).jobs_view(), pid)
                    &&& final(mgr).jobs_view() =~= old(mgr).jobs_view().update(
                        pid_index(old(mgr).jobs_view(), pid),
                        (Job {
                            state: States::ST,
                            ..old(mgr).jobs_view()[pid_index(old(mgr).jobs_view(), pid)]
                        }),
                    )
                    &&& final(mgr).fg_view() == (if old(mgr).fg_view() == Some(pid) {
                        Option::<i32>::None
                    } else {
                        old(mgr).fg_view()
                    })
                    &&& match a.notice {
                        Some(n) => n@ == stopped_notice_spec(
                            old(mgr).jobs_view()[pid_index(old(mgr).jobs_view(), pid)].jid,
                            pid,
                            signal,
                        ),
                        None => false,
                    }
                    &&& a.forward is None
                    &&& a.release == (old(mgr).fg_view() is Some)
                },
                Err(()) => !has_pid(old(mgr).jobs_view(), pid) && *final(mgr) == *old(mgr),
            },
            Message::KeyboardSignal { signal } => {
                &&& *final(mgr) == *old(mgr)
                &&& match r {
                    Ok(a) => {
                        &&& a.notice is None
                        &&& a.release == false
                        &&& a.forward == (match old(mgr).fg_view() {
                            Some(p) => Some((((0 - p) as i32), signal)),
                            None => Option::<(i32, i32)>::None,
                        })
                    },
                    Err(()) => false,
                }
            },
        },
{
    let fgpid = mgr.current();
    match msg {
        Message::ChildExited { pid } => {
            match mgr.remove_job(pid) {
                Ok(()) => Ok(
                    StepActions { notice: None, forward: None, release: fgpid.is_some() },
                ),
                Err(()) => Err(()),
            }
        },
        Message::ChildSignaled { pid, signal } => {
            let jid = match mgr.get_pid(pid) {
                Ok(job) => job.jid,
                Err(()) => {
                    return Err(());
                },
            };
            let notice = terminated_notice(jid, pid, signal);
            match mgr.remove_job(pid) {
                Ok(()) => Ok(
                    StepActions {
                        notice: Some(notice),
                        forward: None,
                        release: fgpid.is_some(),
                    },
                ),
                Err(()) => Err(()),
            }
        },
        Message::ChildStopped { pid, signal } => {
            match mgr.set_state(pid, States::ST) {
                Ok(jid) => {
                    let notice = stopped_notice(jid, pid, signal);
                    Ok(
                        StepActions {
                            notice: Some(notice),
                            forward: None,
                            release: fgpid.is_some(),
                        },
                    )
                },
                Err(()) => Err(()),
            }
        },
        Message::KeyboardSignal { signal } => {
            match fgpid {
                Some(p) => {
                    proof {
                        let k = choose|i: int|
                            0 <= i < mgr.jobs_view().len() && mgr.jobs_view()[i].pid == p
                                && mgr.jobs_view()[i].state == States::FG;
                        assert(mgr.jobs_view()[k].pid > 0);
                    }
                    Ok(StepActions { notice: None, forward: Some((-p, signal)), release: false })
                },
                None => Ok(StepActions { notice: None, forward: None, release: false }),
            }
        },
    }
}

/// The echo printed for a background launch: `[job_id] (pid) command`
/// with trailing whitespace removed from the command line.
pub open spec fn bg_echo_spec(jid: u32, pid: i32, line: Seq<char>) -> Seq<char> {
    "["@ + dec_spec(jid as nat) + "] ("@ + dec_spec(pid as nat) + ") "@ + trim_end_spec(line)
}

/// What the command loop must do after registering a launch: print the
/// background echo, if any, and block on the foreground waiter for a
/// foreground launch.
pub struct LaunchPlan {
    pub jid: u32,
    pub echo: Option<String>,
    pub wait: bool,
}

/// Registers a freshly forked child in the table, foreground unless the
/// command line ended in `&`.
///
/// Fails exactly when the launch is foreground while a foreground job
/// already exists, leaving the table unchanged.  On success the job is
/// appended under the next free id; a background launch yields the echo
/// line to print, a foreground launch tells the caller to wait.
pub fn register_launch(mgr: &mut JobManager, pid: i32, isbg: bool, line: String) -> (r: Result<
    LaunchPlan,
    (),
>)
    requires
        old(mgr).wf(),
        pid > 0,
        !has_pid(old(mgr).jobs_view(), pid),
        old(mgr).next_jid_spec() <= u32::MAX,
    ensures
        final(mgr).wf(),
        match r {
            Ok(plan) => {
                &&& !(!isbg && old(mgr).fg_view() is Some)
                &&& plan.jid == old(mgr).next_jid_spec()
                &&& final(mgr).jobs_view() =~= old(mgr).jobs_view().push(
                    (Job {
                        pid,
                        jid: plan.jid,
                        state: if isbg {
                            States::BG
                        } else {
                            States::FG
                        },
                        cmd: line,
                    }),
                )
                &&& final(mgr).fg_view() == (if isbg {
                    old(mgr).fg_view()
                } else {
                    Some(pid)
                })
                &&& plan.wait == !isbg
                &&& match plan.echo {
                    Some(e) => isbg && e@ == bg_echo_spec(plan.jid, pid, line@),
                    None => !isbg,
                }
            },
            Err(()) => !isbg && old(mgr).fg_view() is Some && *final(mgr) == *old(mgr),
        },
{
    let trimmed: String = if isbg {
        trim_end_str(line.as_str()).to_owned()
    } else {
        String::new()
    };
    let state = if isbg {
        States::BG
    } else {
        States::FG
    };
    let jid = match mgr.add_job(Job::new(pid, state, line)) {
        Ok(jid) => jid,
        Err(()) => {
            return Err(());
        },
    };
    if isbg {
        let mut e = "[".to_owned();
        let jid_s = u32_to_string(jid);
        e.append(jid_s.as_str());
        e.append("] (");
        let pid_s = u32_to_string(pid as u32);
        e.append(pid_s.as_str());
        e.append(") ");
        e.append(trimmed.as_str());
        proof {
            assert(e@ =~= bg_echo_spec(jid, pid, line@));
        }
        Ok(LaunchPlan { jid, echo: Some(e), wait: false })
    } else {
        Ok(LaunchPlan { jid, echo: None, wait: true })
    }
}

} // verus!
