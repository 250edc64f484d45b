use bytes::Bytes;
use gachadata_server::clock::Timestamp;
use gachadata_server::domain::{GachadataDump, GachadataDumpWithTime};

#[test]
fn dump_holds_the_output_as_written() {
    let dump = GachadataDump::from_output(b"INSERT INTO gachadata VALUES (1);".to_vec());
    assert_eq!(&dump.0[..], b"INSERT INTO gachadata VALUES (1);");
    assert_eq!(dump.len(), 33);
    assert!(!dump.is_empty());
}

#[test]
fn dump_keeps_bytes_that_are_not_text() {
    let raw: Vec<u8> = vec![0, 255, 10, 13, 0, 128];
    let dump = GachadataDump::from_output(raw.clone());
    assert_eq!(dump.0.to_vec(), raw);
    assert_eq!(dump.len(), 6);
}

#[test]
fn dump_of_no_output_is_empty() {
    let dump = GachadataDump::from_output(Vec::new());
    assert!(dump.is_empty());
    assert_eq!(dump.len(), 0);
    assert_eq!(dump.0, Bytes::new());
}

#[test]
fn default_dump_is_empty() {
    let dump = GachadataDump::default();
    assert!(dump.is_empty());
    assert_eq!(dump.len(), 0);
}

#[test]
fn dump_of_one_byte_is_not_empty() {
    let dump = GachadataDump::from_output(vec![0]);
    assert!(!dump.is_empty());
    assert_eq!(dump.len(), 1);
}

#[test]
fn cloned_dump_reads_the_same() {
    let dump = GachadataDump::from_output(b"DUMP1".to_vec());
    let copy = dump.clone();
    assert_eq!(copy.0, dump.0);
    assert_eq!(&copy.0[..], b"DUMP1");
    assert_eq!(copy.len(), 5);
}

#[test]
fn default_snapshot_was_never_taken() {
    let snapshot = GachadataDumpWithTime::default();
    assert!(snapshot.dump.is_empty());
    assert_eq!(snapshot.dump_time, None);
}

#[test]
fn captured_snapshot_carries_output_and_time() {
    let snapshot = GachadataDumpWithTime::captured(b"DUMP1".to_vec(), Timestamp::from_secs(12));
    assert_eq!(&snapshot.dump.0[..], b"DUMP1");
    assert_eq!(snapshot.dump_time, Some(Timestamp::from_secs(12)));
}

#[test]
fn captured_snapshot_may_be_empty() {
    let snapshot = GachadataDumpWithTime::captured(Vec::new(), Timestamp::from_secs(12));
    assert!(snapshot.dump.is_empty());
    assert_eq!(snapshot.dump_time, Some(Timestamp::from_secs(12)));
}

#[test]
fn cloned_snapshot_reads_the_same() {
    let snapshot = GachadataDumpWithTime::captured(b"DUMP2".to_vec(), Timestamp::from_nanos(7));
    let copy = snapshot.clone();
    assert_eq!(copy.dump.0, snapshot.dump.0);
    assert_eq!(copy.dump_time, Some(Timestamp::from_nanos(7)));
    let never = GachadataDumpWithTime::default().clone();
    assert!(never.dump.is_empty());
    assert_eq!(never.dump_time, None);
}
