use tsh::jobs::{Job, JobManager, States};

fn add_bg(m: &mut JobManager, pid: i32, cmd: &str) -> u32 {
    m.add_job(Job::new(pid, States::BG, cmd.to_string())).unwrap()
}

#[test]
fn new_table_is_empty() {
    let m = JobManager::new();
    assert_eq!(m.current(), None);
    assert_eq!(m.next_jid(), 1);
    assert_eq!(m.list(), String::new());
}

#[test]
fn job_new_keeps_fields() {
    let j = Job::new(42, States::FG, "true".to_string());
    assert_eq!(j.pid, 42);
    assert_eq!(j.jid, u32::MAX);
    assert!(matches!(j.state, States::FG));
    assert_eq!(j.cmd, "true");
}

#[test]
fn add_assigns_sequential_ids() {
    let mut m = JobManager::new();
    assert_eq!(add_bg(&mut m, 100, "a &"), 1);
    assert_eq!(add_bg(&mut m, 200, "b &"), 2);
    assert_eq!(add_bg(&mut m, 300, "c &"), 3);
    assert_eq!(m.next_jid(), 4);
}

#[test]
fn second_foreground_add_fails() {
    let mut m = JobManager::new();
    m.add_job(Job::new(10, States::FG, "a".to_string())).unwrap();
    assert_eq!(m.current(), Some(10));
    let r = m.add_job(Job::new(20, States::FG, "b".to_string()));
    assert!(r.is_err());
    assert_eq!(m.current(), Some(10));
}

#[test]
fn background_add_keeps_foreground_slot() {
    let mut m = JobManager::new();
    m.add_job(Job::new(10, States::FG, "a".to_string())).unwrap();
    add_bg(&mut m, 20, "b &");
    assert_eq!(m.current(), Some(10));
}

#[test]
fn id_one_after_table_emptied() {
    let mut m = JobManager::new();
    add_bg(&mut m, 100, "a &");
    add_bg(&mut m, 200, "b &");
    m.remove_job(100).unwrap();
    m.remove_job(200).unwrap();
    assert_eq!(add_bg(&mut m, 300, "c &"), 1);
}

#[test]
fn id_not_reused_while_higher_id_lives() {
    let mut m = JobManager::new();
    add_bg(&mut m, 100, "a &");
    add_bg(&mut m, 200, "b &");
    add_bg(&mut m, 300, "c &");
    m.remove_job(200).unwrap();
    assert_eq!(add_bg(&mut m, 400, "d &"), 4);
}

#[test]
fn remove_unknown_pid_fails() {
    let mut m = JobManager::new();
    add_bg(&mut m, 100, "a &");
    assert!(m.remove_job(999).is_err());
    assert_eq!(m.next_jid(), 2);
}

#[test]
fn remove_foreground_clears_slot() {
    let mut m = JobManager::new();
    m.add_job(Job::new(10, States::FG, "a".to_string())).unwrap();
    m.remove_job(10).unwrap();
    assert_eq!(m.current(), None);
    assert_eq!(m.list(), String::new());
}

#[test]
fn lookup_by_pid_and_jid() {
    let mut m = JobManager::new();
    add_bg(&mut m, 100, "a &");
    add_bg(&mut m, 200, "b &");
    assert_eq!(m.get_pid(200).unwrap().jid, 2);
    assert_eq!(m.get_jid(1).unwrap().pid, 100);
    assert!(m.get_pid(300).is_err());
    assert!(m.get_jid(3).is_err());
}

#[test]
fn set_state_unknown_pid_fails() {
    let mut m = JobManager::new();
    assert!(m.set_state(5, States::ST).is_err());
}

#[test]
fn set_state_moves_between_states() {
    let mut m = JobManager::new();
    m.add_job(Job::new(10, States::FG, "a".to_string())).unwrap();
    let jid = m.set_state(10, States::ST).unwrap();
    assert_eq!(jid, 1);
    assert_eq!(m.current(), None);
    assert!(matches!(m.get_pid(10).unwrap().state, States::ST));
    m.set_state(10, States::FG).unwrap();
    assert_eq!(m.current(), Some(10));
    assert!(matches!(m.get_pid(10).unwrap().state, States::FG));
}

#[test]
fn set_fg_points_slot_at_foreground_job() {
    let mut m = JobManager::new();
    m.add_job(Job::new(10, States::FG, "a".to_string())).unwrap();
    m.set_fg(10);
    assert_eq!(m.current(), Some(10));
}

#[test]
fn listing_orders_by_insertion() {
    let mut m = JobManager::new();
    add_bg(&mut m, 7, "first &\n");
    m.add_job(Job::new(9, States::FG, "second".to_string())).unwrap();
    m.set_state(9, States::ST).unwrap();
    assert_eq!(m.list(), "[1] (7) Running first &\n[2] (9) Stopped second\n");
}
