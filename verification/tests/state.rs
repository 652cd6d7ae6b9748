use async_socket::Progress;
use async_socket::State;
use async_socket::DEFAULT_CHUNK_SIZE;
use std::sync::Arc;
use std::sync::Mutex;
use std::task::Wake;
use std::task::Waker;

struct Counter {
    hits: Mutex<usize>,
}

impl Wake for Counter {
    fn wake(self: Arc<Self>) {
        *self.hits.lock().unwrap() += 1;
    }
}

fn counting_waker() -> (Arc<Counter>, Waker) {
    let counter = Arc::new(Counter { hits: Mutex::new(0) });
    (counter.clone(), Waker::from(counter))
}

fn hits(counter: &Arc<Counter>) -> usize {
    *counter.hits.lock().unwrap()
}

fn bytes(len: usize) -> Vec<u8> {
    (0..len).map(|i| (i % 251) as u8).collect()
}

#[test]
fn default_state_is_empty_with_chunk_size_ten() {
    let state = State::default();
    assert!(state.buf.is_empty());
    assert!(state.waker.is_none());
    assert_eq!(state.chunk_size, 10);
    assert_eq!(DEFAULT_CHUNK_SIZE, 10);
}

#[test]
fn with_chunk_size_sets_the_limit_only() {
    let state = State::with_chunk_size(3);
    assert!(state.buf.is_empty());
    assert!(state.waker.is_none());
    assert_eq!(state.chunk_size, 3);
}

#[test]
fn wake_without_a_waker_does_nothing() {
    let mut state = State::default();
    state.buf = b"abc".to_vec();
    state.wake();
    state.wake();
    assert_eq!(state.buf, b"abc");
    assert!(state.waker.is_none());
    assert_eq!(state.chunk_size, 10);
}

#[test]
fn wake_resumes_once_and_clears_the_slot() {
    let (counter, waker) = counting_waker();
    let mut state = State::with_chunk_size(4);
    state.buf = b"abc".to_vec();
    state.waker = Some(waker);
    state.wake();
    assert_eq!(hits(&counter), 1);
    assert!(state.waker.is_none());
    assert_eq!(state.buf, b"abc");
    assert_eq!(state.chunk_size, 4);
    state.wake();
    assert_eq!(hits(&counter), 1);
}

#[test]
fn write_reports_the_total_buffer_length() {
    let mut state = State::default();
    assert_eq!(state.write(b"Hello"), 5);
    assert_eq!(state.write(b" "), 6);
    assert_eq!(state.write(b"World!"), 12);
    assert_eq!(state.buf, b"Hello World!");
}

#[test]
fn write_resumes_the_registered_waker() {
    let (counter, waker) = counting_waker();
    let mut state = State::default();
    state.waker = Some(waker);
    assert_eq!(state.write(b"x"), 1);
    assert_eq!(hits(&counter), 1);
    assert!(state.waker.is_none());
    assert_eq!(state.write(b"y"), 2);
    assert_eq!(hits(&counter), 1);
}

#[test]
fn write_of_nothing_keeps_the_buffer_and_still_wakes() {
    let (counter, waker) = counting_waker();
    let mut state = State::default();
    state.buf = b"ab".to_vec();
    state.waker = Some(waker);
    assert_eq!(state.write(b""), 2);
    assert_eq!(state.buf, b"ab");
    assert_eq!(hits(&counter), 1);
    assert!(state.waker.is_none());
}

#[test]
fn read_takes_exactly_the_requested_prefix() {
    let mut state = State::default();
    state.write(b"Hello");
    let mut dst = vec![0u8; 2];
    assert_eq!(state.read(&mut dst), Progress::Ready(2));
    assert_eq!(dst, b"He");
    assert_eq!(state.buf, b"llo");
    let mut dst = vec![0u8; 3];
    assert_eq!(state.read(&mut dst), Progress::Ready(3));
    assert_eq!(dst, b"llo");
    assert!(state.buf.is_empty());
}

#[test]
fn read_suspends_while_too_few_bytes_are_buffered() {
    let (counter, waker) = counting_waker();
    let mut state = State::default();
    state.write(b"Hell");
    state.waker = Some(waker);
    let mut dst = vec![7u8; 5];
    assert_eq!(state.read(&mut dst), Progress::Pending);
    assert_eq!(dst, vec![7u8; 5]);
    assert_eq!(state.buf, b"Hell");
    assert!(state.waker.is_some());
    assert_eq!(hits(&counter), 0);
    state.write(b"o");
    assert_eq!(state.read(&mut dst), Progress::Ready(5));
    assert_eq!(dst, b"Hello");
    assert!(state.buf.is_empty());
}

#[test]
fn read_of_no_bytes_completes_on_an_empty_state() {
    let mut state = State::default();
    let mut dst: Vec<u8> = Vec::new();
    assert_eq!(state.read(&mut dst), Progress::Ready(0));
    assert!(state.buf.is_empty());
    state.write(b"abc");
    assert_eq!(state.read(&mut dst), Progress::Ready(0));
    assert_eq!(state.buf, b"abc");
}

#[test]
fn read_leaves_the_waker_alone() {
    let (counter, waker) = counting_waker();
    let mut state = State::default();
    state.buf = b"abcd".to_vec();
    state.waker = Some(waker);
    let mut dst = vec![0u8; 4];
    assert_eq!(state.read(&mut dst), Progress::Ready(4));
    assert!(state.waker.is_some());
    assert_eq!(hits(&counter), 0);
}

#[test]
fn chunks_of_a_25_byte_write_are_10_10_5() {
    let (_counter, waker) = counting_waker();
    let data = bytes(25);
    let mut state = State::default();
    assert_eq!(state.write(&data), 25);
    assert_eq!(state.next_chunk(waker.clone()), Progress::Ready(data[0..10].to_vec()));
    assert_eq!(state.next_chunk(waker.clone()), Progress::Ready(data[10..20].to_vec()));
    assert_eq!(state.next_chunk(waker.clone()), Progress::Ready(data[20..25].to_vec()));
    assert_eq!(state.next_chunk(waker), Progress::Pending);
    assert!(state.buf.is_empty());
}

#[test]
fn next_chunk_on_an_empty_state_suspends_and_registers() {
    let (counter, waker) = counting_waker();
    let mut state = State::default();
    assert_eq!(state.next_chunk(waker), Progress::Pending);
    assert!(state.waker.is_some());
    assert!(state.buf.is_empty());
    assert_eq!(hits(&counter), 0);
    state.write(b"Hi");
    assert_eq!(hits(&counter), 1);
    assert!(state.waker.is_none());
}

#[test]
fn next_chunk_yields_what_is_there_without_waiting() {
    let (_counter, waker) = counting_waker();
    let mut state = State::default();
    state.write(b"abc");
    assert_eq!(state.next_chunk(waker.clone()), Progress::Ready(b"abc".to_vec()));
    assert!(state.waker.is_some());
    state.write(b"0123456789");
    assert_eq!(state.next_chunk(waker), Progress::Ready(b"0123456789".to_vec()));
    assert!(state.buf.is_empty());
}

#[test]
fn next_chunk_replaces_an_earlier_waker() {
    let (first, first_waker) = counting_waker();
    let (second, second_waker) = counting_waker();
    let mut state = State::default();
    assert_eq!(state.next_chunk(first_waker), Progress::Pending);
    assert_eq!(state.next_chunk(second_waker), Progress::Pending);
    state.write(b"x");
    assert_eq!(hits(&first), 0);
    assert_eq!(hits(&second), 1);
}

#[test]
fn chunk_size_of_zero_never_yields() {
    let (_counter, waker) = counting_waker();
    let mut state = State::with_chunk_size(0);
    state.write(b"abc");
    assert_eq!(state.next_chunk(waker.clone()), Progress::Pending);
    assert_eq!(state.next_chunk(waker), Progress::Pending);
    assert_eq!(state.buf, b"abc");
}

#[test]
fn chunk_size_of_one_yields_byte_by_byte() {
    let (_counter, waker) = counting_waker();
    let mut state = State::with_chunk_size(1);
    state.write(b"ab");
    assert_eq!(state.next_chunk(waker.clone()), Progress::Ready(b"a".to_vec()));
    assert_eq!(state.next_chunk(waker.clone()), Progress::Ready(b"b".to_vec()));
    assert_eq!(state.next_chunk(waker), Progress::Pending);
}

#[test]
fn order_is_kept_across_mixed_reads_and_pulls() {
    let (_counter, waker) = counting_waker();
    let data = bytes(40);
    let mut state = State::with_chunk_size(7);
    let mut seen: Vec<u8> = Vec::new();
    state.write(&data[0..9]);
    let mut dst = vec![0u8; 4];
    assert_eq!(state.read(&mut dst), Progress::Ready(4));
    seen.extend_from_slice(&dst);
    state.write(&data[9..30]);
    match state.next_chunk(waker.clone()) {
        Progress::Ready(chunk) => {
            assert_eq!(chunk.len(), 7);
            seen.extend_from_slice(&chunk);
        }
        Progress::Pending => panic!("a pull on buffered bytes suspended"),
    }
    let mut dst = vec![0u8; 30];
    assert_eq!(state.read(&mut dst), Progress::Pending);
    state.write(&data[30..40]);
    let mut dst = vec![0u8; 11];
    assert_eq!(state.read(&mut dst), Progress::Ready(11));
    seen.extend_from_slice(&dst);
    loop {
        match state.next_chunk(waker.clone()) {
            Progress::Ready(chunk) => {
                assert!(1 <= chunk.len() && chunk.len() <= 7);
                seen.extend_from_slice(&chunk);
            }
            Progress::Pending => break,
        }
    }
    assert_eq!(seen, data);
    assert!(state.buf.is_empty());
    assert_eq!(state.chunk_size, 7);
}

#[test]
fn two_writers_in_either_order_stay_in_one_piece() {
    let mut one = State::default();
    one.write(b"..");
    one.write(b"aaaa");
    one.write(b"bbb");
    assert_eq!(one.buf, b"..aaaabbb");
    let mut other = State::default();
    other.write(b"..");
    other.write(b"bbb");
    other.write(b"aaaa");
    assert_eq!(other.buf, b"..bbbaaaa");
}
