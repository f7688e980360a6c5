//! Tests of the PID-file store and the liveness probe.

use forever::liveness::check_process;
use forever::liveness::contains_bytes;
use forever::pidfile::delete_pidfile;
use forever::pidfile::parse_pid;
use forever::pidfile::read_pid;
use forever::pidfile::write_pid;
use forever::pidfile::DeleteOutcome;
use forever::pidfile::PidfileError;

#[test]
fn write_pid_renders_decimal() {
    assert_eq!(write_pid(0), b"0".to_vec());
    assert_eq!(write_pid(7), b"7".to_vec());
    assert_eq!(write_pid(10), b"10".to_vec());
    assert_eq!(write_pid(42), b"42".to_vec());
    assert_eq!(write_pid(30501), b"30501".to_vec());
    assert_eq!(write_pid(u32::MAX), b"4294967295".to_vec());
}

#[test]
fn read_write_round_trip() {
    for pid in [0u32, 1, 9, 10, 99, 100, 4096, 65535, 123456789, u32::MAX] {
        assert_eq!(read_pid(Some(write_pid(pid))), Ok(pid));
    }
}

#[test]
fn read_absent_file_is_zero() {
    assert_eq!(read_pid(None), Ok(0));
}

#[test]
fn read_plain_number() {
    assert_eq!(read_pid(Some(b"123".to_vec())), Ok(123));
    assert_eq!(read_pid(Some(b"0".to_vec())), Ok(0));
    assert_eq!(read_pid(Some(b"007".to_vec())), Ok(7));
}

#[test]
fn read_non_numeric_is_an_error_distinct_from_absent() {
    assert_eq!(read_pid(Some(b"abc".to_vec())), Err(PidfileError::Malformed));
    assert_eq!(read_pid(Some(b"".to_vec())), Err(PidfileError::Malformed));
    assert_eq!(read_pid(Some(b"12a4".to_vec())), Err(PidfileError::Malformed));
    assert_eq!(read_pid(Some(b"-5".to_vec())), Err(PidfileError::Malformed));
    assert_eq!(read_pid(Some(b" 42".to_vec())), Err(PidfileError::Malformed));
    assert_eq!(read_pid(Some(b"42\n".to_vec())), Err(PidfileError::Malformed));
    assert_ne!(read_pid(Some(b"x".to_vec())), Ok(0));
}

#[test]
fn read_out_of_range_is_an_error() {
    assert_eq!(read_pid(Some(b"4294967296".to_vec())), Err(PidfileError::Malformed));
    assert_eq!(
        read_pid(Some(b"99999999999999999999".to_vec())),
        Err(PidfileError::Malformed)
    );
    assert_eq!(read_pid(Some(b"4294967295".to_vec())), Ok(u32::MAX));
}

#[test]
fn parse_pid_matches_read_pid_on_existing_files() {
    assert_eq!(parse_pid(&b"314".to_vec()), Ok(314));
    assert_eq!(parse_pid(&b"3.14".to_vec()), Err(PidfileError::Malformed));
}

#[test]
fn delete_is_idempotent_absence_is_success() {
    // First call removed the file; the second finds it already gone and
    // still succeeds.
    assert!(delete_pidfile(DeleteOutcome::Removed));
    assert!(delete_pidfile(DeleteOutcome::AlreadyAbsent));
    // Only a genuine filesystem failure counts as (non-fatal) failure.
    assert!(!delete_pidfile(DeleteOutcome::Failed));
}

#[test]
fn contains_bytes_finds_runs() {
    assert!(contains_bytes(&b"  1234\n".to_vec(), &b"1234".to_vec()));
    assert!(contains_bytes(&b"1234".to_vec(), &b"1234".to_vec()));
    assert!(!contains_bytes(&b"  123\n".to_vec(), &b"1234".to_vec()));
    assert!(contains_bytes(&b"abc".to_vec(), &b"".to_vec()));
    assert!(!contains_bytes(&b"".to_vec(), &b"a".to_vec()));
}

#[test]
fn check_process_alive_when_listed() {
    assert_eq!(check_process(1234, true, &b"  1234\n".to_vec()), Some(1234));
}

#[test]
fn check_process_absent_when_not_in_process_table() {
    // The PID file exists and holds a PID, but the process table does not
    // list it: the probe answers absent.
    assert_eq!(check_process(1234, true, &b"\n".to_vec()), None);
    assert_eq!(check_process(1234, false, &b"".to_vec()), None);
}

#[test]
fn check_process_absent_for_zero_sentinel() {
    assert_eq!(check_process(0, true, &b"0".to_vec()), None);
}
