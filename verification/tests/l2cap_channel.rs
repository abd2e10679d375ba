use std::hash::{DefaultHasher, Hasher};
use std::sync::mpsc;

use android_utilities::bluedroid::l2cap::{
    checked_read_len, hash_data, ReadState, ReadStep, WriteCompletion, WriteState, WriteStep,
};

type ReaderResponse = Result<Vec<u8>, String>;
type ReaderRequest = (usize, mpsc::Sender<ReaderResponse>);

/// Outcome of a poll, as `std::task::Poll` of an `io::Result`.
#[derive(Debug, PartialEq)]
enum Polled {
    Pending,
    Ready(Result<usize, String>),
}

/// A reading half driven by the verified state machine, with the reading
/// thread replaced by channels the test answers by hand.
struct Reader {
    request: mpsc::Sender<ReaderRequest>,
    data_recv: Option<mpsc::Receiver<ReaderResponse>>,
    state: ReadState,
}

impl Reader {
    fn poll_read(&mut self, buf: &mut [u8]) -> Polled {
        loop {
            match self.state.next_step(buf.len()) {
                ReadStep::AwaitResponse => {
                    let response = match self.data_recv.as_ref().unwrap().try_recv() {
                        Ok(response) => response,
                        Err(mpsc::TryRecvError::Empty) => return Polled::Pending,
                        Err(mpsc::TryRecvError::Disconnected) => {
                            panic!("Read thread unexpectdly closed when awaiting response")
                        }
                    };
                    self.data_recv = None;
                    return match response {
                        Ok(data) => Polled::Ready(Ok(self.state.receive(&data, buf))),
                        Err(e) => {
                            self.state.receive_failed();
                            Polled::Ready(Err(e))
                        }
                    };
                }
                ReadStep::DrainBuffer => return Polled::Ready(Ok(self.state.drain(buf))),
                ReadStep::NewRequest { len } => {
                    let (response_tx, response_rx) = mpsc::channel();
                    self.request.send((len, response_tx)).unwrap();
                    self.data_recv = Some(response_rx);
                    self.state.request_sent();
                }
            }
        }
    }
}

type WriterResponse = (usize, u64, Result<(), String>);
type WriterRequest = (Vec<u8>, u64, mpsc::Sender<WriterResponse>);

/// A writing half driven by the verified state machine, with the writing
/// thread replaced by channels the test answers by hand.
struct Writer {
    request: mpsc::Sender<WriterRequest>,
    done: Option<mpsc::Receiver<WriterResponse>>,
    state: WriteState,
}

impl Writer {
    fn poll_write(&mut self, buf: &[u8]) -> Polled {
        loop {
            match self.state.next_step() {
                WriteStep::AwaitResponse => {
                    let (received_len, received_hash, result) =
                        match self.done.as_ref().unwrap().try_recv() {
                            Ok(response) => response,
                            Err(mpsc::TryRecvError::Empty) => return Polled::Pending,
                            Err(mpsc::TryRecvError::Disconnected) => {
                                panic!("Write thread unexpectdly closed when awaiting response")
                            }
                        };
                    self.done = None;
                    match self.state.complete(received_len, received_hash, buf) {
                        WriteCompletion::Matches(len) => {
                            return Polled::Ready(result.map(|()| len));
                        }
                        WriteCompletion::Stale => {}
                    }
                }
                WriteStep::NewRequest => {
                    let (response_tx, response_rx) = mpsc::channel();
                    let (data, hash) = self.state.request_sent(buf);
                    self.request.send((data, hash, response_tx)).unwrap();
                    self.done = Some(response_rx);
                }
            }
        }
    }
}

#[test]
fn read_cancel_overflow_test() {
    let (request_tx, request_rx) = mpsc::channel();
    let mut reader = Reader { request: request_tx, data_recv: None, state: ReadState::new() };

    let mut big_read = [0; 10];
    assert!(matches!(reader.poll_read(&mut big_read), Polled::Pending));

    let (_, response) = request_rx.try_recv().unwrap();
    response.send(Ok(vec![1, 2, 3, 4, 5, 6, 7, 8, 9, 10])).unwrap();

    let mut small_read = [0u8; 5];
    assert!(matches!(reader.poll_read(&mut small_read), Polled::Ready(Ok(5))));
    assert_eq!(small_read, [1, 2, 3, 4, 5]);

    let mut small_read = [0u8; 3];
    assert!(matches!(reader.poll_read(&mut small_read), Polled::Ready(Ok(3))));
    assert_eq!(small_read, [6, 7, 8]);

    let mut small_read = [0u8; 2];
    assert!(matches!(reader.poll_read(&mut small_read), Polled::Ready(Ok(2))));
    assert_eq!(small_read, [9, 10]);

    assert!(matches!(reader.poll_read(&mut [0u8; 10]), Polled::Pending));
}

#[test]
fn write_len_changed_test() {
    let (request_tx, request_rx) = mpsc::channel();
    let mut writer = Writer { request: request_tx, done: None, state: WriteState::new() };

    assert!(matches!(writer.poll_write(&[1, 2, 3, 4, 5, 6, 7, 8]), Polled::Pending));

    let (request_data, hash, responder) = request_rx.try_recv().unwrap();

    assert!(matches!(writer.poll_write(&[3, 4, 5]), Polled::Pending));

    responder.send((request_data.len(), hash, Ok(()))).unwrap();

    // This is the importent check
    assert!(matches!(writer.poll_write(&[3, 4, 5]), Polled::Pending));

    let (request_data, hash, responder) = request_rx.try_recv().unwrap();
    responder.send((request_data.len(), hash, Ok(()))).unwrap();

    assert!(matches!(writer.poll_write(&[3, 4, 5]), Polled::Ready(Ok(3))));
}

#[test]
fn read_request_asks_for_buffer_length() {
    let (request_tx, request_rx) = mpsc::channel();
    let mut reader = Reader { request: request_tx, data_recv: None, state: ReadState::new() };
    assert_eq!(reader.poll_read(&mut [0u8; 7]), Polled::Pending);
    let (size, _responder) = request_rx.try_recv().unwrap();
    assert_eq!(size, 7);
    // Polling again while the request is outstanding sends no new request.
    assert_eq!(reader.poll_read(&mut [0u8; 7]), Polled::Pending);
    assert!(request_rx.try_recv().is_err());
}

#[test]
fn read_error_leaves_nothing_buffered() {
    let (request_tx, request_rx) = mpsc::channel();
    let mut reader = Reader { request: request_tx, data_recv: None, state: ReadState::new() };
    assert_eq!(reader.poll_read(&mut [0u8; 4]), Polled::Pending);
    let (_, responder) = request_rx.try_recv().unwrap();
    responder.send(Err("failed to read from l2cap channel".to_string())).unwrap();
    assert_eq!(
        reader.poll_read(&mut [0u8; 4]),
        Polled::Ready(Err("failed to read from l2cap channel".to_string()))
    );
    assert!(!reader.state.awaiting_response());
    assert_eq!(reader.state.buffered_len(), 0);
}

#[test]
fn read_exact_fit_buffers_nothing() {
    let mut state = ReadState::new();
    assert_eq!(state.next_step(4), ReadStep::NewRequest { len: 4 });
    state.request_sent();
    let mut buf = [9u8; 4];
    assert_eq!(state.receive(&[1, 2, 3, 4], &mut buf), 4);
    assert_eq!(buf, [1, 2, 3, 4]);
    assert_eq!(state.next_step(7), ReadStep::NewRequest { len: 7 });
}

#[test]
fn read_short_answer_keeps_rest_of_buffer() {
    let mut state = ReadState::new();
    state.request_sent();
    let mut buf = [9u8; 5];
    assert_eq!(state.receive(&[1, 2], &mut buf), 2);
    assert_eq!(buf, [1, 2, 9, 9, 9]);
    assert_eq!(state.buffered_len(), 0);
}

#[test]
fn read_empty_buffer_keeps_whole_answer() {
    let mut state = ReadState::new();
    state.request_sent();
    let mut empty: [u8; 0] = [];
    assert_eq!(state.receive(&[1, 2, 3], &mut empty), 0);
    assert_eq!(state.buffered_len(), 3);
    assert_eq!(state.next_step(8), ReadStep::DrainBuffer);
    let mut buf = [0u8; 8];
    assert_eq!(state.drain(&mut buf), 3);
    assert_eq!(&buf[..3], &[1, 2, 3]);
    assert_eq!(buf[3..], [0u8; 5]);
}

#[test]
fn write_answer_completes_matching_buffer() {
    let mut state = WriteState::new();
    assert_eq!(state.next_step(), WriteStep::NewRequest);
    let data = [7u8, 8, 9];
    let (sent, hash) = state.request_sent(&data);
    assert_eq!(sent, vec![7u8, 8, 9]);
    assert_eq!(hash, hash_data(&data));
    assert_eq!(state.next_step(), WriteStep::AwaitResponse);
    assert_eq!(state.complete(3, hash_data(&data), &data), WriteCompletion::Matches(3));
    assert_eq!(state.next_step(), WriteStep::NewRequest);
}

#[test]
fn write_answer_with_other_hash_is_stale() {
    let mut state = WriteState::new();
    state.request_sent(&[3, 2, 1]);
    // Same length, different bytes.
    assert_eq!(
        state.complete(3, hash_data(&[1, 2, 3]), &[3, 2, 1]),
        WriteCompletion::Stale
    );
    assert_eq!(state.next_step(), WriteStep::NewRequest);
}

#[test]
fn write_failure_is_reported_for_matching_buffer() {
    let (request_tx, request_rx) = mpsc::channel();
    let mut writer = Writer { request: request_tx, done: None, state: WriteState::new() };
    assert_eq!(writer.poll_write(&[1, 2]), Polled::Pending);
    let (data, hash, responder) = request_rx.try_recv().unwrap();
    responder.send((data.len(), hash, Err("failed".to_string()))).unwrap();
    assert_eq!(writer.poll_write(&[1, 2]), Polled::Ready(Err("failed".to_string())));
}

#[test]
fn hash_matches_default_hasher() {
    let mut hasher = DefaultHasher::default();
    hasher.write(&[1, 2, 3]);
    assert_eq!(hash_data(&[1, 2, 3]), hasher.finish());
    assert_ne!(hash_data(&[1, 2, 3]), hash_data(&[1, 2, 4]));
}

#[test]
fn read_len_checks() {
    assert_eq!(checked_read_len(10, 4), Ok(4));
    assert_eq!(checked_read_len(10, 10), Ok(10));
    assert_eq!(checked_read_len(10, 0), Ok(0));
    assert_eq!(checked_read_len(10, -1), Err(-1));
}

#[test]
fn write_requests_carry_the_callers_bytes() {
    let (request_tx, request_rx) = mpsc::channel();
    let mut writer = Writer { request: request_tx, done: None, state: WriteState::new() };
    assert_eq!(writer.poll_write(&[1, 2, 3, 4, 5, 6, 7, 8]), Polled::Pending);
    let (data, hash, responder) = request_rx.try_recv().unwrap();
    assert_eq!(data, vec![1, 2, 3, 4, 5, 6, 7, 8]);
    assert_eq!(hash, hash_data(&[1, 2, 3, 4, 5, 6, 7, 8]));
    responder.send((data.len(), hash, Ok(()))).unwrap();
    // The answer is for the earlier buffer: the new bytes are sent instead.
    assert_eq!(writer.poll_write(&[3, 4, 5]), Polled::Pending);
    let (data, hash, _responder) = request_rx.try_recv().unwrap();
    assert_eq!(data, vec![3, 4, 5]);
    assert_eq!(hash, hash_data(&[3, 4, 5]));
}
