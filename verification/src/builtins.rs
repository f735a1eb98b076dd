//! The built-in commands of the command loop: `quit`, `jobs`, `bg`, `fg`.
//!
//! [`eval_builtins`] is the decision core of evaluating one input line: it
//! mutates the job table for `bg`/`fg` and returns an [`EvalPlan`] saying
//! what the surrounding loop must do — print, send a continue signal,
//! block on the foreground waiter, exit, or launch an external command.

use vstd::prelude::*;
use vstd::string::StringExecFns;

use crate::jobs::{has_jid, has_pid, jid_index, pid_index, Job, JobManager, States};
use crate::render::{dec_spec, render_spec, trim_end_spec, trim_end_str, u32_to_string};
use crate::parse::{job_ref_spec, parse_job_ref, JobRef};

verus! {

/// Whether a job reference names a live job of the table.
pub open spec fn resolves(s: Seq<Job>, jref: JobRef) -> bool {
    match jref {
        JobRef::ByPid(p) => has_pid(s, p),
        JobRef::ByJid(j) => has_jid(s, j),
    }
}

/// The index of the live job a reference names (unique under `wf`).
pub open spec fn resolved_index(s: Seq<Job>, jref: JobRef) -> int {
    match jref {
        JobRef::ByPid(p) => pid_index(s, p),
        JobRef::ByJid(j) => jid_index(s, j),
    }
}

/// The line printed when `bg` moves a job to the background:
/// `[job_id] (pid) command`, the command text as launched.
pub open spec fn bg_message_spec(jid: u32, pid: i32, cmd: Seq<char>) -> Seq<char> {
    "["@ + dec_spec(jid as nat) + "] ("@ + dec_spec(pid as nat) + ") "@ + cmd
}

/// The report for a `bg`/`fg` argument that names no live job.
pub open spec fn not_found_spec(jref: JobRef) -> Seq<char> {
    match jref {
        JobRef::ByPid(p) => "("@ + dec_spec(p as nat) + "): Not found"@,
        JobRef::ByJid(j) => "(%"@ + dec_spec(j as nat) + "): Not found"@,
    }
}

/// What `bg` asks the command loop to do: send the continue signal to the
/// job and print the background message.
pub struct BgPlan {
    pub pid: i32,
    pub message: String,
}

/// Moves the named job to the background.
///
/// Fails exactly when the reference names no live job, leaving the table
/// unchanged.  Otherwise the job's state becomes `BG` (vacating the
/// foreground slot if the job held it), and the plan carries the job's
/// pid — the continue signal's target — and the message to print.
pub fn bg(mgr: &mut JobManager, jref: JobRef) -> (r: Result<BgPlan, ()>)
    requires
        old(mgr).wf(),
    ensures
        final(mgr).wf(),
        match r {
            Ok(plan) => {
                &&& resolves(old(mgr).jobs_view(), jref)
                &&& plan.pid == old(mgr).jobs_view()[resolved_index(
                    old(mgr).jobs_view(),
                    jref,
                )].pid
                &&& final(mgr).jobs_view() =~= old(mgr).jobs_view().update(
                    resolved_index(old(mgr).jobs_view(), jref),
                    (Job {
                        state: States::BG,
                        ..old(mgr).jobs_view()[resolved_index(old(mgr).jobs_view(), jref)]
                    }),
                )
                &&& final(mgr).fg_view() == (if old(mgr).fg_view() == Some(plan.pid) {
                    Option::<i32>::None
                } else {
                    old(mgr).fg_view()
                })
                &&& plan.message@ == bg_message_spec(
                    old(mgr).jobs_view()[resolved_index(old(mgr).jobs_view(), jref)].jid,
                    plan.pid,
                    old(mgr).jobs_view()[resolved_index(old(mgr).jobs_view(), jref)].cmd@,
                )
            },
            Err(()) => !resolves(old(mgr).jobs_view(), jref) && *final(mgr) == *old(mgr),
        },
{
    let (jid, pid, cmd) = match jref {
        JobRef::ByPid(p) => match mgr.get_pid(p) {
            Ok(job) => (job.jid, job.pid, job.cmd.clone()),
            Err(()) => {
                return Err(());
            },
        },
        JobRef::ByJid(j) => match mgr.get_jid(j) {
            Ok(job) => (job.jid, job.pid, job.cmd.clone()),
            Err(()) => {
                return Err(());
            },
        },
    };
    proof {
        let s = mgr.jobs_view();
        match jref {
            JobRef::ByJid(j) => {
                let k = jid_index(s, j);
                assert(s[k].pid == pid);
                assert(has_pid(s, pid));
                assert(s[pid_index(s, pid)].pid == pid);
                assert(pid_index(s, pid) == k);
            },
            JobRef::ByPid(_) => {},
        }
    }
    match mgr.set_state(pid, States::BG) {
        Ok(_) => {},
        Err(()) => {
            return Err(());
        },
    }
    let mut m = "[".to_owned();
    let jid_s = u32_to_string(jid);
    m.append(jid_s.as_str());
    m.append("] (");
    let pid_s = u32_to_string(pid as u32);
    m.append(pid_s.as_str());
    m.append(") ");
    m.append(cmd.as_str());
    proof {
        assert(m@ =~= bg_message_spec(jid, pid, cmd@));
    }
    Ok(BgPlan { pid, message: m })
}

/// Moves the named job to the foreground.
///
/// The command loop only runs while no job is foreground, so the slot is
/// free.  Fails exactly when the reference names no live job, leaving the
/// table unchanged.  Otherwise the job's state becomes `FG`, the slot
/// points at it, and the returned pid is the continue signal's target;
/// the caller must then block on the foreground waiter.
pub fn fg(mgr: &mut JobManager, jref: JobRef) -> (r: Result<i32, ()>)
    requires
        old(mgr).wf(),
        old(mgr).fg_view() is None,
    ensures
        final(mgr).wf(),
        match r {
            Ok(pid) => {
                &&& resolves(old(mgr).jobs_view(), jref)
                &&& pid == old(mgr).jobs_view()[resolved_index(old(mgr).jobs_view(), jref)].pid
                &&& final(mgr).jobs_view() =~= old(mgr).jobs_view().update(
                    resolved_index(old(mgr).jobs_view(), jref),
                    (Job {
                        state: States::FG,
                        ..old(mgr).jobs_view()[resolved_index(old(mgr).jobs_view(), jref)]
                    }),
                )
                &&& final(mgr).fg_view() == Some(pid)
            },
            Err(()) => !resolves(old(mgr).jobs_view(), jref) && *final(mgr) == *old(mgr),
        },
{
    let pid = match jref {
        JobRef::ByPid(p) => match mgr.get_pid(p) {
            Ok(job) => job.pid,
            Err(()) => {
                return Err(());
            },
        },
        JobRef::ByJid(j) => match mgr.get_jid(j) {
            Ok(job) => job.pid,
            Err(()) => {
                return Err(());
            },
        },
    };
    proof {
        let s = mgr.jobs_view();
        match jref {
            JobRef::ByJid(j) => {
                let k = jid_index(s, j);
                assert(s[k].pid == pid);
                assert(has_pid(s, pid));
                assert(s[pid_index(s, pid)].pid == pid);
                assert(pid_index(s, pid) == k);
            },
            JobRef::ByPid(_) => {},
        }
    }
    match mgr.set_state(pid, States::FG) {
        Ok(_) => {},
        Err(()) => {
            return Err(());
        },
    }
    Ok(pid)
}

/// The not-found report for a reference: `(pid): Not found`, or
/// `(%jobid): Not found` for a job-id reference.
pub fn not_found_message(jref: JobRef) -> (r: String)
    requires
        jref matches JobRef::ByPid(p) ==> p >= 0,
    ensures
        r@ == not_found_spec(jref),
{
    match jref {
        JobRef::ByPid(p) => {
            let mut m = "(".to_owned();
            let p_s = u32_to_string(p as u32);
            m.append(p_s.as_str());
            m.append("): Not found");
            proof {
                assert(m@ =~= not_found_spec(jref));
            }
            m
        },
        JobRef::ByJid(j) => {
            let mut m = "(%".to_owned();
            let j_s = u32_to_string(j);
            m.append(j_s.as_str());
            m.append("): Not found");
            proof {
                assert(m@ =~= not_found_spec(jref));
            }
            m
        },
    }
}

/// The dispatch of an input line's first token.
#[derive(Clone, Copy, PartialEq, Eq, Structural, Debug)]
pub enum Command {
    Quit,
    Jobs,
    Bg,
    Fg,
    External,
}

/// Which command the first token names; anything that is not a built-in
/// launches an external process.
pub open spec fn command_spec(tok: Seq<char>) -> Command {
    if tok == "quit"@ {
        Command::Quit
    } else if tok == "jobs"@ {
        Command::Jobs
    } else if tok == "bg"@ {
        Command::Bg
    } else if tok == "fg"@ {
        Command::Fg
    } else {
        Command::External
    }
}

/// Classifies an input line's first token.
pub fn classify(tok: &String) -> (c: Command)
    ensures
        c == command_spec(tok@),
{
    if tok.eq(&"quit".to_owned()) {
        Command::Quit
    } else if tok.eq(&"jobs".to_owned()) {
        Command::Jobs
    } else if tok.eq(&"bg".to_owned()) {
        Command::Bg
    } else if tok.eq(&"fg".to_owned()) {
        Command::Fg
    } else {
        Command::External
    }
}

/// What the command loop must do after evaluating one line's built-in
/// part: exit the shell, print a line, send a continue signal to a pid,
/// block on the foreground waiter, or launch the line as an external
/// command.
pub struct EvalPlan {
    pub quit: bool,
    pub print: Option<String>,
    pub send_cont: Option<i32>,
    pub wait: bool,
    pub launch: bool,
}

/// A plan that asks for nothing.
pub open spec fn no_action(plan: EvalPlan) -> bool {
    &&& !plan.quit
    &&& plan.print is None
    &&& plan.send_cont is None
    &&& !plan.wait
    &&& !plan.launch
}

/// The usage report for `bg` without an argument.
pub open spec fn bg_usage_spec() -> Seq<char> {
    "bg command requires PID or %jobid argument"@
}

/// The usage report for `fg` without an argument.
pub open spec fn fg_usage_spec() -> Seq<char> {
    "fg command requires PID or %jobid argument"@
}

/// Evaluates the built-in part of one tokenized input line against the
/// job table.
///
/// The command loop runs only while no job is foreground.  An empty line
/// asks for nothing.  `quit` asks to exit.  `jobs` asks to print the
/// listing (without its trailing newline).  `bg`/`fg` with no argument ask
/// to print their usage line; with an argument that names no live job,
/// the not-found report; an argument that parses as neither pid nor
/// %jobid is ignored.  A successful `bg` prints the job's background
/// message and sends it the continue signal; a successful `fg` does the
/// same, prints the updated listing, and blocks on the foreground waiter.
/// Any other first token asks to launch the line as an external command.
pub fn eval_builtins(mgr: &mut JobManager, argv: &Vec<String>) -> (plan: EvalPlan)
    requires
        old(mgr).wf(),
        old(mgr).fg_view() is None,
    ensures
        final(mgr).wf(),
        argv@.len() == 0 ==> *final(mgr) == *old(mgr) && no_action(plan),
        argv@.len() > 0 ==> match command_spec(argv@[0]@) {
            Command::Quit => {
                &&& *final(mgr) == *old(mgr)
                &&& plan.quit
                &&& plan.print is None
                &&& plan.send_cont is None
                &&& !plan.wait
                &&& !plan.launch
            },
            Command::Jobs => {
                &&& *final(mgr) == *old(mgr)
                &&& !plan.quit
                &&& match plan.print {
                    Some(p) => p@ == trim_end_spec(render_spec(old(mgr).jobs_view())),
                    None => false,
                }
                &&& plan.send_cont is None
                &&& !plan.wait
                &&& !plan.launch
            },
            Command::Bg => {
                &&& !plan.quit
                &&& !plan.wait
                &&& !plan.launch
                &&& if argv@.len() == 1 {
                    &&& *final(mgr) == *old(mgr)
                    &&& match plan.print {
                        Some(p) => p@ == bg_usage_spec(),
                        None => false,
                    }
                    &&& plan.send_cont is None
                } else {
                    match job_ref_spec(argv@[1]@) {
                        Some(jref) => {
                            if resolves(old(mgr).jobs_view(), jref) {
                                &&& final(mgr).jobs_view() =~= old(mgr).jobs_view().update(
                                    resolved_index(old(mgr).jobs_view(), jref),
                                    (Job {
                                        state: States::BG,
                                        ..old(mgr).jobs_view()[resolved_index(
                                            old(mgr).jobs_view(),
                                            jref,
                                        )]
                                    }),
                                )
                                &&& final(mgr).fg_view() is None
                                &&& plan.send_cont == Some(
                                    old(mgr).jobs_view()[resolved_index(
                                        old(mgr).jobs_view(),
                                        jref,
                                    )].pid,
                                )
                                &&& match plan.print {
                                    Some(p) => p@ == bg_message_spec(
                                        old(mgr).jobs_view()[resolved_index(
                                            old(mgr).jobs_view(),
                                            jref,
                                        )].jid,
                                        old(mgr).jobs_view()[resolved_index(
                                            old(mgr).jobs_view(),
                                            jref,
                                        )].pid,
                                        old(mgr).jobs_view()[resolved_index(
                                            old(mgr).jobs_view(),
                                            jref,
                                        )].cmd@,
                                    ),
                                    None => false,
                                }
                            } else {
                                &&& *final(mgr) == *old(mgr)
                                &&& plan.send_cont is None
                                &&& match plan.print {
                                    Some(p) => p@ == not_found_spec(jref),
                                    None => false,
                                }
                            }
                        },
                        None => *final(mgr) == *old(mgr) && plan.print is None
                            && plan.send_cont is None,
                    }
                }
            },
            Command::Fg => {
                &&& !plan.quit
                &&& !plan.launch
                &&& if argv@.len() == 1 {
                    &&& *final(mgr) == *old(mgr)
                    &&& match plan.print {
                        Some(p) => p@ == fg_usage_spec(),
                        None => false,
                    }
                    &&& plan.send_cont is None
                    &&& !plan.wait
                } else {
                    match job_ref_spec(argv@[1]@) {
                        Some(jref) => {
                            if resolves(old(mgr).jobs_view(), jref) {
                                &&& final(mgr).jobs_view() =~= old(mgr).jobs_view().update(
                                    resolved_index(old(mgr).jobs_view(), jref),
                                    (Job {
                                        state: States::FG,
                                        ..old(mgr).jobs_view()[resolved_index(
                                            old(mgr).jobs_view(),
                                            jref,
                                        )]
                                    }),
                                )
                                &&& final(mgr).fg_view() == Some(
                                    old(mgr).jobs_view()[resolved_index(
                                        old(mgr).jobs_view(),
                                        jref,
                                    )].pid,
                                )
                                &&& plan.send_cont == Some(
                                    old(mgr).jobs_view()[resolved_index(
                                        old(mgr).jobs_view(),
                                        jref,
                                    )].pid,
                                )
                                &&& plan.wait
                                &&& match plan.print {
                                    Some(p) => p@ == trim_end_spec(
                                        render_spec(final(mgr).jobs_view()),
                                    ),
                                    None => false,
                                }
                            } else {
                                &&& *final(mgr) == *old(mgr)
                                &&& plan.send_cont is None
                                &&& !plan.wait
                                &&& match plan.print {
                                    Some(p) => p@ == not_found_spec(jref),
                                    None => false,
                                }
                            }
                        },
                        None => *final(mgr) == *old(mgr) && plan.print is None
                            && plan.send_cont is None && !plan.wait,
                    }
                }
            },
            Command::External => {
                &&& *final(mgr) == *old(mgr)
                &&& !plan.quit
                &&& plan.print is None
                &&& plan.send_cont is None
                &&& !plan.wait
                &&& plan.launch
            },
        },
{
    if argv.len() == 0 {
        return EvalPlan { quit: false, print: None, send_cont: None, wait: false, launch: false };
    }
    match classify(&argv[0]) {
        Command::Quit => EvalPlan {
            quit: true,
            print: None,
            send_cont: None,
            wait: false,
            launch: false,
        },
        Command::Jobs => {
            let listing = mgr.list();
            let trimmed = trim_end_str(listing.as_str()).to_owned();
            EvalPlan {
                quit: false,
                print: Some(trimmed),
                send_cont: None,
                wait: false,
                launch: false,
            }
        },
        Command::Bg => {
            if argv.len() == 1 {
                return EvalPlan {
                    quit: false,
                    print: Some("bg command requires PID or %jobid argument".to_owned()),
                    send_cont: None,
                    wait: false,
                    launch: false,
                };
            }
            match parse_job_ref(argv[1].as_str()) {
                Some(jref) => match bg(mgr, jref) {
                    Ok(plan) => EvalPlan {
                        quit: false,
                        print: Some(plan.message),
                        send_cont: Some(plan.pid),
                        wait: false,
                        launch: false,
                    },
                    Err(()) => EvalPlan {
                        quit: false,
                        print: Some(not_found_message(jref)),
                        send_cont: None,
                        wait: false,
                        launch: false,
                    },
                },
                None => EvalPlan {
                    quit: false,
                    print: None,
                    send_cont: None,
                    wait: false,
                    launch: false,
                },
            }
        },
        Command::Fg => {
            if argv.len() == 1 {
                return EvalPlan {
                    quit: false,
                    print: Some("fg command requires PID or %jobid argument".to_owned()),
                    send_cont: None,
                    wait: false,
                    launch: false,
                };
            }
            match parse_job_ref(argv[1].as_str()) {
                Some(jref) => match fg(mgr, jref) {
                    Ok(pid) => {
                        let listing = mgr.list();
                        let trimmed = trim_end_str(listing.as_str()).to_owned();
                        EvalPlan {
                            quit: false,
                            print: Some(trimmed),
                            send_cont: Some(pid),
                            wait: true,
                            launch: false,
                        }
                    },
                    Err(()) => EvalPlan {
                        quit: false,
                        print: Some(not_found_message(jref)),
                        send_cont: None,
                        wait: false,
                        launch: false,
                    },
                },
                None => EvalPlan {
                    quit: false,
                    print: None,
                    send_cont: None,
                    wait: false,
                    launch: false,
                },
            }
        },
        Command::External => EvalPlan {
            quit: false,
            print: None,
            send_cont: None,
            wait: false,
            launch: true,
        },
    }
}

} // verus!
