use std::sync::mpsc;

use tsh::parse::{parse_job_ref, parse_u32, JobRef};
use tsh::render::{trim_end_str, trim_str, u32_to_string};
use tsh::waiter::waitfg;

#[test]
fn decimal_rendering() {
    assert_eq!(u32_to_string(0), "0");
    assert_eq!(u32_to_string(7), "7");
    assert_eq!(u32_to_string(42), "42");
    assert_eq!(u32_to_string(1000), "1000");
    assert_eq!(u32_to_string(u32::MAX), "4294967295");
}

#[test]
fn trimming() {
    assert_eq!(trim_end_str("sleep 5 &\n"), "sleep 5 &");
    assert_eq!(trim_end_str(""), "");
    assert_eq!(trim_end_str("a"), "a");
    assert_eq!(trim_end_str(" \t\r\n"), "");
    assert_eq!(trim_str("  true \n"), "true");
    assert_eq!(trim_str("a b"), "a b");
    assert_eq!(trim_str("\n\n"), "");
}

#[test]
fn parse_unsigned_decimal() {
    assert_eq!(parse_u32("0"), Some(0));
    assert_eq!(parse_u32("123"), Some(123));
    assert_eq!(parse_u32("4294967295"), Some(u32::MAX));
    assert_eq!(parse_u32("4294967296"), None);
    assert_eq!(parse_u32("99999999999999"), None);
    assert_eq!(parse_u32(""), None);
    assert_eq!(parse_u32("12a"), None);
    assert_eq!(parse_u32("-5"), None);
    assert_eq!(parse_u32("1 2"), None);
}

#[test]
fn parse_job_references() {
    assert_eq!(parse_job_ref("123"), Some(JobRef::ByPid(123)));
    assert_eq!(parse_job_ref("2147483647"), Some(JobRef::ByPid(i32::MAX)));
    assert_eq!(parse_job_ref("2147483648"), None);
    assert_eq!(parse_job_ref("%7"), Some(JobRef::ByJid(7)));
    assert_eq!(parse_job_ref("%4294967295"), Some(JobRef::ByJid(u32::MAX)));
    assert_eq!(parse_job_ref("%4294967296"), None);
    assert_eq!(parse_job_ref("%"), None);
    assert_eq!(parse_job_ref("%x"), None);
    assert_eq!(parse_job_ref("x"), None);
    assert_eq!(parse_job_ref(""), None);
    assert_eq!(parse_job_ref("-5"), None);
}

#[test]
fn waiter_wakes_on_token() {
    let (tx, rx) = mpsc::channel::<()>();
    tx.send(()).unwrap();
    assert!(waitfg(&rx));
}

#[test]
fn waiter_reports_gone_sender() {
    let (tx, rx) = mpsc::channel::<()>();
    drop(tx);
    assert!(!waitfg(&rx));
}
