use std::sync::Arc;

use golem_common::blobstore::{
    ContainerEntry, IncomingValueAsyncBodyEntry, IncomingValueEntry, OutgoingValueBodyAsyncEntry,
    OutgoingValueEntry, StreamObjectNamesEntry,
};

#[test]
fn container_entry_new() {
    let c = ContainerEntry::new("bucket".to_string(), 123);
    assert_eq!(c.name, "bucket");
    assert_eq!(c.created_at, 123);
}

#[test]
fn outgoing_value_starts_empty_and_shares_its_body() {
    let v = OutgoingValueEntry::new();
    assert!(v.body.read().unwrap().is_empty());
    let d = OutgoingValueEntry::default();
    assert!(d.body.read().unwrap().is_empty());
    let stream = OutgoingValueBodyAsyncEntry::new(v.body.clone());
    OutgoingValueBodyAsyncEntry::write_bytes(&mut stream.body.write().unwrap(), b"hello ");
    OutgoingValueBodyAsyncEntry::write_bytes(&mut stream.body.write().unwrap(), b"world");
    assert_eq!(*v.body.read().unwrap(), b"hello world".to_vec());
    assert_eq!(OutgoingValueBodyAsyncEntry::check_write(), usize::MAX);
}

#[test]
fn read_bytes_takes_from_the_front() {
    let mut body = b"abcdef".to_vec();
    let first = IncomingValueAsyncBodyEntry::read_bytes(&mut body, 4);
    assert_eq!(first, b"abcd".to_vec());
    assert_eq!(body, b"ef".to_vec());
    let second = IncomingValueAsyncBodyEntry::read_bytes(&mut body, 5);
    assert_eq!(second, vec![b'e', b'f', 0, 0, 0]);
    assert!(body.is_empty());
    let third = IncomingValueAsyncBodyEntry::read_bytes(&mut body, 0);
    assert!(third.is_empty());
}

#[test]
fn read_returns_what_was_written() {
    let mut body = b"ab".to_vec();
    OutgoingValueBodyAsyncEntry::write_bytes(&mut body, b"cde");
    let all = IncomingValueAsyncBodyEntry::read_bytes(&mut body, 5);
    assert_eq!(all, b"abcde".to_vec());
    assert!(body.is_empty());
}

#[test]
fn incoming_entries_hold_their_body() {
    let v = IncomingValueEntry::new(b"xyz".to_vec());
    assert_eq!(*v.body.read().unwrap(), b"xyz".to_vec());
    let stream = IncomingValueAsyncBodyEntry::new(Arc::clone(&v.body));
    let got = IncomingValueAsyncBodyEntry::read_bytes(&mut stream.body.write().unwrap(), 2);
    assert_eq!(got, b"xy".to_vec());
    assert_eq!(*v.body.read().unwrap(), b"z".to_vec());
}

#[test]
fn stream_object_names_entry_holds_names() {
    let e = StreamObjectNamesEntry::new(vec!["a".to_string(), "b".to_string()]);
    assert_eq!(*e.names.read().unwrap(), vec!["a".to_string(), "b".to_string()]);
}

#[test]
fn default_outgoing_value_has_its_own_empty_body() {
    let a = OutgoingValueEntry::default();
    let b = OutgoingValueEntry::default();
    assert!(a.body.read().unwrap().is_empty());
    assert!(!Arc::ptr_eq(&a.body, &b.body));
}
