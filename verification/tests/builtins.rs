use tsh::builtins::{bg, classify, eval_builtins, fg, not_found_message, Command};
use tsh::engine::{process_message, register_launch, Message};
use tsh::jobs::JobManager;
use tsh::parse::JobRef;

fn argv(words: &[&str]) -> Vec<String> {
    words.iter().map(|w| w.to_string()).collect()
}

#[test]
fn classify_first_token() {
    assert!(matches!(classify(&"quit".to_string()), Command::Quit));
    assert!(matches!(classify(&"jobs".to_string()), Command::Jobs));
    assert!(matches!(classify(&"bg".to_string()), Command::Bg));
    assert!(matches!(classify(&"fg".to_string()), Command::Fg));
    assert!(matches!(classify(&"ls".to_string()), Command::External));
    assert!(matches!(classify(&"QUIT".to_string()), Command::External));
}

#[test]
fn quit_plan_exits() {
    let mut m = JobManager::new();
    let plan = eval_builtins(&mut m, &argv(&["quit"]));
    assert!(plan.quit);
    assert!(plan.print.is_none());
    assert!(!plan.launch);
}

#[test]
fn empty_line_asks_nothing() {
    let mut m = JobManager::new();
    let plan = eval_builtins(&mut m, &argv(&[]));
    assert!(!plan.quit && plan.print.is_none() && plan.send_cont.is_none());
    assert!(!plan.wait && !plan.launch);
}

#[test]
fn external_command_launches() {
    let mut m = JobManager::new();
    let plan = eval_builtins(&mut m, &argv(&["sleep", "5"]));
    assert!(plan.launch);
    assert!(plan.print.is_none() && plan.send_cont.is_none() && !plan.wait && !plan.quit);
}

#[test]
fn round_trip_listing() {
    let mut m = JobManager::new();
    let plan = register_launch(&mut m, 4242, true, "sleep 5 &\n".to_string()).unwrap();
    assert_eq!(plan.echo.unwrap(), "[1] (4242) sleep 5 &");
    let jobs_plan = eval_builtins(&mut m, &argv(&["jobs"]));
    assert_eq!(jobs_plan.print.unwrap(), "[1] (4242) Running sleep 5 &");
}

#[test]
fn jobs_on_empty_table_prints_nothing_but_a_line() {
    let mut m = JobManager::new();
    let plan = eval_builtins(&mut m, &argv(&["jobs"]));
    assert_eq!(plan.print.unwrap(), "");
}

#[test]
fn fg_of_missing_job_reports_not_found() {
    let mut m = JobManager::new();
    register_launch(&mut m, 5, true, "sleep 5 &\n".to_string()).unwrap();
    let plan = eval_builtins(&mut m, &argv(&["fg", "%7"]));
    assert_eq!(plan.print.unwrap(), "(%7): Not found");
    assert!(plan.send_cont.is_none() && !plan.wait);
    let jobs_plan = eval_builtins(&mut m, &argv(&["jobs"]));
    assert_eq!(jobs_plan.print.unwrap(), "[1] (5) Running sleep 5 &");
}

#[test]
fn bg_of_missing_pid_reports_not_found() {
    let mut m = JobManager::new();
    let plan = eval_builtins(&mut m, &argv(&["bg", "31"]));
    assert_eq!(plan.print.unwrap(), "(31): Not found");
}

#[test]
fn bg_and_fg_usage_lines() {
    let mut m = JobManager::new();
    let plan = eval_builtins(&mut m, &argv(&["bg"]));
    assert_eq!(plan.print.unwrap(), "bg command requires PID or %jobid argument");
    let plan = eval_builtins(&mut m, &argv(&["fg"]));
    assert_eq!(plan.print.unwrap(), "fg command requires PID or %jobid argument");
}

#[test]
fn unparsable_argument_is_ignored() {
    let mut m = JobManager::new();
    let plan = eval_builtins(&mut m, &argv(&["bg", "nonsense"]));
    assert!(plan.print.is_none() && plan.send_cont.is_none());
}

#[test]
fn stop_continue_cycle() {
    let mut m = JobManager::new();
    register_launch(&mut m, 8, false, "sleep 9\n".to_string()).unwrap();
    let a = process_message(&mut m, Message::ChildStopped { pid: 8, signal: 20 }).unwrap();
    assert!(a.release);
    assert_eq!(m.current(), None);
    let plan = eval_builtins(&mut m, &argv(&["bg", "%1"]));
    assert_eq!(plan.send_cont, Some(8));
    assert_eq!(plan.print.unwrap(), "[1] (8) sleep 9\n");
    assert!(!plan.wait);
    let jobs_plan = eval_builtins(&mut m, &argv(&["jobs"]));
    assert_eq!(jobs_plan.print.unwrap(), "[1] (8) Running sleep 9");
}

#[test]
fn fg_continues_and_waits() {
    let mut m = JobManager::new();
    register_launch(&mut m, 8, true, "sleep 9 &\n".to_string()).unwrap();
    let plan = eval_builtins(&mut m, &argv(&["fg", "8"]));
    assert_eq!(plan.send_cont, Some(8));
    assert!(plan.wait);
    assert_eq!(plan.print.unwrap(), "[1] (8) Foreground sleep 9 &");
    assert_eq!(m.current(), Some(8));
}

#[test]
fn bg_resolves_by_pid_and_by_jid() {
    let mut m = JobManager::new();
    register_launch(&mut m, 8, false, "cat\n".to_string()).unwrap();
    let plan = bg(&mut m, JobRef::ByPid(8)).unwrap();
    assert_eq!(plan.pid, 8);
    assert_eq!(plan.message, "[1] (8) cat\n");
    assert_eq!(m.current(), None);
    let pid = fg(&mut m, JobRef::ByJid(1)).unwrap();
    assert_eq!(pid, 8);
    assert_eq!(m.current(), Some(8));
}

#[test]
fn bg_and_fg_fail_on_unknown_reference() {
    let mut m = JobManager::new();
    assert!(bg(&mut m, JobRef::ByPid(9)).is_err());
    assert!(bg(&mut m, JobRef::ByJid(9)).is_err());
    assert!(fg(&mut m, JobRef::ByJid(9)).is_err());
}

#[test]
fn not_found_messages() {
    assert_eq!(not_found_message(JobRef::ByPid(123)), "(123): Not found");
    assert_eq!(not_found_message(JobRef::ByJid(7)), "(%7): Not found");
}
