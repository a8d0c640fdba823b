use std::sync::Arc;

use bipe::buffer;
use bipe::queue::{new_queue, Popped};
use bipe::ring::{read_step, ring_pipe, write_step, RingReader, RingWriter, Step};
use bipe::transport::Transport;
use bipe::PipeError;

fn ring(capacity: usize) -> (RingWriter, RingReader) {
    let write_ready = Arc::new(event_listener::Event::new());
    let read_ready = Arc::new(event_listener::Event::new());
    ring_pipe(capacity, write_ready, read_ready)
}

/// Writes each number as eight big-endian bytes through a ring pipe of nine
/// slots, reading whenever the ring is full, then closes and drains.
#[test]
fn test_no_corruption() {
    const ITERATIONS: u64 = 1000;
    let (mut send, mut recv) = ring(9);
    let mut buff: Vec<u8> = vec![];
    let mut chunk = [0u8; 5];
    for iteration in 0u64..ITERATIONS {
        let bytes = iteration.to_be_bytes();
        let mut done = 0;
        while done < bytes.len() {
            match send.try_write(&bytes[done..]) {
                Step::Ready(Ok(n)) => done += n,
                Step::Ready(Err(e)) => panic!("write failed: {:?}", e),
                Step::Pending => match recv.try_read(&mut chunk) {
                    Step::Ready(Ok(n)) => buff.extend_from_slice(&chunk[..n]),
                    other => panic!("full ring must be readable: {:?}", other),
                },
            }
        }
    }
    send.close();
    loop {
        match recv.try_read(&mut chunk) {
            Step::Ready(Ok(0)) => break,
            Step::Ready(Ok(n)) => buff.extend_from_slice(&chunk[..n]),
            other => panic!("closed ring must not block: {:?}", other),
        }
    }
    assert_eq!(buff.len() as u64, ITERATIONS * 8);
    for (i, word) in buff.chunks(8).enumerate() {
        let mut b = [0u8; 8];
        b.copy_from_slice(word);
        assert_eq!(u64::from_be_bytes(b), i as u64);
    }
}

#[test]
fn buffer_big_endian_scenario() {
    let (mut send, mut recv) = buffer::new(9);
    let mut received: Vec<u8> = vec![];
    let mut chunk = [0u8; 7];
    for value in 0u64..1000 {
        let bytes = value.to_be_bytes();
        let mut done = 0;
        while done < bytes.len() {
            let n = send.write(&bytes[done..]).unwrap();
            done += n;
            if n == 0 {
                let got = recv.read(&mut chunk).unwrap();
                assert!(got > 0);
                received.extend_from_slice(&chunk[..got]);
            }
        }
    }
    send.close();
    loop {
        let got = recv.read(&mut chunk).unwrap();
        if got == 0 {
            break;
        }
        received.extend_from_slice(&chunk[..got]);
    }
    assert_eq!(received.len(), 8000);
    let values: Vec<u64> = received
        .chunks(8)
        .map(|w| {
            let mut b = [0u8; 8];
            b.copy_from_slice(w);
            u64::from_be_bytes(b)
        })
        .collect();
    let expected: Vec<u64> = (0..1000).collect();
    assert_eq!(values, expected);
}

#[test]
fn buffer_partial_write_then_full() {
    let (mut send, mut recv) = buffer::new(4);
    assert_eq!(send.write(&[1, 2, 3]), Ok(3));
    assert_eq!(send.write(&[4, 5, 6]), Ok(1));
    assert_eq!(send.write(&[7]), Ok(0));
    let mut out = [0u8; 2];
    assert_eq!(recv.read(&mut out), Ok(2));
    assert_eq!(out, [1, 2]);
    assert_eq!(send.write(&[7, 8, 9]), Ok(2));
    let mut rest = [0u8; 10];
    assert_eq!(recv.read(&mut rest), Ok(4));
    assert_eq!(&rest[..4], &[3, 4, 7, 8]);
}

#[test]
fn buffer_empty_open_would_block() {
    let (_send, mut recv) = buffer::new(3);
    let mut out = [9u8; 2];
    assert_eq!(recv.read(&mut out), Err(PipeError::WouldBlock));
    assert_eq!(out, [9, 9]);
}

#[test]
fn buffer_close_rejects_writes_keeps_backlog() {
    let (mut send, mut recv) = buffer::new(8);
    assert_eq!(send.write(b"abc"), Ok(3));
    send.close();
    assert_eq!(send.write(b"de"), Err(PipeError::BrokenPipe));
    assert_eq!(send.write(b""), Err(PipeError::BrokenPipe));
    let mut out = [0u8; 8];
    assert_eq!(recv.read(&mut out), Ok(3));
    assert_eq!(&out[..3], b"abc");
    assert_eq!(recv.read(&mut out), Ok(0));
    assert_eq!(recv.read(&mut out), Ok(0));
}

#[test]
fn buffer_flush_is_ok() {
    let (mut send, _recv) = buffer::new(1);
    assert_eq!(send.flush(), Ok(()));
}

#[test]
fn transport_exact_counts() {
    let mut t = Transport::new(5);
    assert_eq!(t.limit(), 5);
    assert_eq!(t.write(&[1, 2, 3, 4, 5, 6, 7]), Ok(5));
    assert_eq!(t.len(), 5);
    assert_eq!(t.write(&[8]), Ok(0));
    assert_eq!(t.write(&[]), Ok(0));
    let mut out = [0u8; 3];
    assert_eq!(t.read(&mut out), Ok(3));
    assert_eq!(out, [1, 2, 3]);
    assert_eq!(t.len(), 2);
    let mut none: [u8; 0] = [];
    assert_eq!(t.read(&mut none), Ok(0));
    assert!(!t.is_closed());
    t.close();
    assert!(t.is_closed());
    assert_eq!(t.write(&[1]), Err(PipeError::BrokenPipe));
    let mut big = [0u8; 9];
    assert_eq!(t.read(&mut big), Ok(2));
    assert_eq!(&big[..2], &[4, 5]);
    assert_eq!(t.read(&mut big), Ok(0));
}

#[test]
fn transport_eof_after_exactly_n_bytes() {
    let mut t = Transport::new(16);
    assert_eq!(t.write(b"hello world"), Ok(11));
    t.close();
    let mut total = 0;
    let mut out = [0u8; 4];
    let mut reads = 0;
    loop {
        let n = t.read(&mut out).unwrap();
        reads += 1;
        if n == 0 {
            break;
        }
        total += n;
    }
    assert_eq!(total, 11);
    assert_eq!(reads, 4);
}

#[test]
fn steps_decide_exactly() {
    assert!(matches!(write_step(true, Some(3)), Step::Ready(Err(PipeError::BrokenPipe))));
    assert!(matches!(write_step(false, Some(3)), Step::Ready(Ok(3))));
    assert!(matches!(write_step(false, None), Step::Pending));
    assert!(matches!(read_step(false, Some(2)), Step::Ready(Ok(2))));
    assert!(matches!(read_step(true, Some(2)), Step::Ready(Ok(2))));
    assert!(matches!(read_step(true, None), Step::Ready(Ok(0))));
    assert!(matches!(read_step(true, Some(0)), Step::Ready(Ok(0))));
    assert!(matches!(read_step(false, None), Step::Pending));
    assert!(matches!(read_step(false, Some(0)), Step::Pending));
}

#[test]
fn ring_write_after_close_is_broken_pipe() {
    let (mut send, mut recv) = ring(4);
    assert!(matches!(send.try_write(&[1, 2, 3, 4, 5]), Step::Ready(Ok(4))));
    assert!(matches!(send.try_write(&[6]), Step::Pending));
    send.close();
    assert!(matches!(send.try_write(&[6]), Step::Ready(Err(PipeError::BrokenPipe))));
    let mut out = [0u8; 8];
    assert!(matches!(recv.try_read(&mut out), Step::Ready(Ok(4))));
    assert_eq!(&out[..4], &[1, 2, 3, 4]);
    assert!(matches!(recv.try_read(&mut out), Step::Ready(Ok(0))));
}

#[test]
fn ring_empty_open_is_pending() {
    let (_send, mut recv) = ring(2);
    let mut out = [0u8; 2];
    assert!(matches!(recv.try_read(&mut out), Step::Pending));
}

#[test]
fn queue_chunks_and_cursor() {
    let (mut send, mut recv) = new_queue(2);
    assert_eq!(send.write(b"abcde"), Ok(5));
    assert_eq!(send.write(b""), Ok(0));
    assert_eq!(send.write(b"fg"), Ok(2));
    assert_eq!(send.write(b"h"), Err(PipeError::WouldBlock));
    let mut out = [0u8; 3];
    assert_eq!(recv.read(&mut out), Ok(3));
    assert_eq!(&out, b"abc");
    assert_eq!(recv.read(&mut out), Ok(2));
    assert_eq!(&out[..2], b"de");
    assert_eq!(recv.read(&mut out), Ok(2));
    assert_eq!(&out[..2], b"fg");
    assert_eq!(recv.read(&mut out), Err(PipeError::WouldBlock));
    assert_eq!(send.flush(), Ok(()));
}

#[test]
fn queue_close_then_eof() {
    let (mut send, mut recv) = new_queue(4);
    assert_eq!(send.write(b"xy"), Ok(2));
    send.close();
    assert_eq!(send.write(b"z"), Err(PipeError::BrokenPipe));
    let mut out = [0u8; 1];
    assert_eq!(recv.read(&mut out), Ok(1));
    assert_eq!(&out, b"x");
    let mut empty: [u8; 0] = [];
    assert_eq!(recv.read(&mut empty), Ok(0));
    assert_eq!(recv.read(&mut out), Ok(1));
    assert_eq!(&out, b"y");
    assert_eq!(recv.read(&mut out), Ok(0));
}

#[test]
fn queue_take_chunk_outcomes() {
    let (_send, mut recv) = new_queue(1);
    let mut out = [7u8; 2];
    assert_eq!(recv.take_chunk(Popped::Empty, &mut out), Err(PipeError::WouldBlock));
    assert_eq!(out, [7, 7]);
    assert_eq!(recv.take_chunk(Popped::Closed, &mut out), Ok(0));
    assert_eq!(recv.take_chunk(Popped::Chunk(vec![1, 2, 3]), &mut out), Ok(2));
    assert_eq!(out, [1, 2]);
    assert_eq!(recv.read(&mut out), Ok(1));
    assert_eq!(out[0], 3);
}

#[test]
fn queue_drop_closes_like_close() {
    let (mut dropped, mut recv_a) = new_queue(4);
    let (mut closed, mut recv_b) = new_queue(4);
    assert_eq!(dropped.write(b"abc"), Ok(3));
    assert_eq!(closed.write(b"abc"), Ok(3));
    drop(dropped);
    closed.close();
    let mut out_a = [0u8; 8];
    let mut out_b = [0u8; 8];
    assert_eq!(recv_a.read(&mut out_a), Ok(3));
    assert_eq!(recv_b.read(&mut out_b), Ok(3));
    assert_eq!(out_a, out_b);
    assert_eq!(recv_a.read(&mut out_a), Ok(0));
    assert_eq!(recv_b.read(&mut out_b), Ok(0));
}

#[test]
fn closing_twice_is_closing_once() {
    let (mut send, mut recv) = buffer::new(4);
    assert_eq!(send.write(b"ab"), Ok(2));
    send.close();
    send.close();
    assert_eq!(send.write(b"c"), Err(PipeError::BrokenPipe));
    let mut out = [0u8; 4];
    assert_eq!(recv.read(&mut out), Ok(2));
    assert_eq!(recv.read(&mut out), Ok(0));

    let (mut rsend, mut rrecv) = ring(4);
    assert!(matches!(rsend.try_write(b"xy"), Step::Ready(Ok(2))));
    rsend.close();
    rsend.close();
    assert!(matches!(rsend.try_write(b"z"), Step::Ready(Err(PipeError::BrokenPipe))));
    assert!(matches!(rrecv.try_read(&mut out), Step::Ready(Ok(2))));
    assert_eq!(&out[..2], b"xy");
    assert!(matches!(rrecv.try_read(&mut out), Step::Ready(Ok(0))));
}
