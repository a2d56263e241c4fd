//! Tests of the stream reconstructor: peeking a bounded window and gluing
//! the parts back together reproduces the stream byte for byte.

use remotepkg::stream::{peek, reconstruct, remainder};

#[test]
fn peek_and_remainder_round_trip() {
    let data: Vec<u8> = (0u8..=9).collect();
    let prefix = peek(&data, 4);
    let rest = remainder(&data, 4);
    assert_eq!(prefix, vec![0, 1, 2, 3]);
    assert_eq!(rest, vec![4, 5, 6, 7, 8, 9]);
    assert_eq!(reconstruct(&prefix, &rest), data);
}

#[test]
fn short_stream_is_retained_whole() {
    let data: Vec<u8> = vec![7, 8, 9];
    let prefix = peek(&data, 1024);
    let rest = remainder(&data, 1024);
    assert_eq!(prefix, data);
    assert_eq!(rest, Vec::<u8>::new());
    assert_eq!(reconstruct(&prefix, &rest), data);
}

#[test]
fn empty_window_loses_nothing() {
    let data: Vec<u8> = vec![1, 2, 3];
    let prefix = peek(&data, 0);
    let rest = remainder(&data, 0);
    assert_eq!(prefix, Vec::<u8>::new());
    assert_eq!(rest, data);
    assert_eq!(reconstruct(&prefix, &rest), data);
}

#[test]
fn empty_stream_round_trips() {
    let data: Vec<u8> = Vec::new();
    let prefix = peek(&data, 1024);
    let rest = remainder(&data, 1024);
    assert_eq!(reconstruct(&prefix, &rest), data);
}
