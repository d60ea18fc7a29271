use stdio_bridge::error::{new_pipe_broken_error, new_would_block_error, StdioError};
use stdio_bridge::pump::{StdinAction, StdinPump, StdoutAction, StdoutPump};
use stdio_bridge::ring::Readiness;
use stdio_bridge::stdio::Stdio;

#[test]
fn error_constructors_give_the_two_kinds() {
    assert_eq!(new_would_block_error(), StdioError::WouldBlock);
    assert_eq!(new_pipe_broken_error(), StdioError::BrokenPipe);
    assert_ne!(new_would_block_error(), new_pipe_broken_error());
}

#[test]
fn error_messages_are_fixed() {
    assert_eq!(new_would_block_error().message(), "WouldBlock");
    assert_eq!(new_pipe_broken_error().message(), "Broken pipe.");
}

#[test]
fn new_adapter_has_nothing_to_read_and_room_to_write() {
    let mut stdio = Stdio::new(8, 4);
    assert_eq!(stdio.poll_read(), Readiness::NotReady);
    assert_eq!(stdio.poll_write(), Readiness::Ready);
    assert_eq!(stdio.stdin_buffer().capacity(), 8);
    assert_eq!(stdio.stdout_buffer().capacity(), 4);
    assert_eq!(stdio.stdin_buffer().occupied(), 0);
    assert_eq!(stdio.stdout_buffer().occupied(), 0);
}

#[test]
fn hello_arrives_whole_and_then_nothing_is_ready() {
    let mut stdio = Stdio::new(8, 8);
    let mut pump = StdinPump::new();
    assert_eq!(pump.on_input(stdio.stdin_buffer(), b"HELLO"), StdinAction::ReadInput);
    assert_eq!(stdio.poll_read(), Readiness::Ready);
    let mut buf = [0u8; 16];
    assert_eq!(stdio.read(&mut buf), Ok(5));
    assert_eq!(&buf[..5], b"HELLO");
    assert_eq!(&buf[5..], &[0u8; 11]);
    assert_eq!(stdio.poll_read(), Readiness::NotReady);
}

#[test]
fn write_is_partial_when_the_buffer_fills() {
    let mut stdio = Stdio::new(8, 4);
    assert_eq!(stdio.write(b"AB"), Ok(2));
    assert_eq!(stdio.stdout_buffer().free(), 2);
    assert_eq!(stdio.write(b"CDEF"), Ok(2));
    assert_eq!(stdio.poll_write(), Readiness::NotReady);
    let mut pump = StdoutPump::new();
    assert_eq!(pump.on_data(stdio.stdout_buffer()), StdoutAction::WriteOutput);
    assert_eq!(pump.chunk(), b"ABCD");
}

#[test]
fn read_transitions_to_broken_pipe_after_end_of_stream() {
    let mut stdio = Stdio::new(8, 8);
    let mut pump = StdinPump::new();
    assert_eq!(pump.on_input(stdio.stdin_buffer(), b"bye"), StdinAction::ReadInput);
    assert_eq!(pump.on_input(stdio.stdin_buffer(), b""), StdinAction::Exit);
    assert_eq!(stdio.poll_read(), Readiness::Ready);
    let mut buf = [0u8; 2];
    assert_eq!(stdio.read(&mut buf), Ok(2));
    assert_eq!(&buf, b"by");
    assert_eq!(stdio.read(&mut buf), Ok(1));
    assert_eq!(buf[0], b'e');
    assert_eq!(stdio.poll_read(), Readiness::Ready);
    assert_eq!(stdio.read(&mut buf), Err(StdioError::BrokenPipe));
    assert_eq!(stdio.read(&mut buf), Err(StdioError::BrokenPipe));
}

#[test]
fn read_would_block_while_not_ready() {
    let mut stdio = Stdio::new(4, 4);
    let mut buf = [7u8; 4];
    assert_eq!(stdio.poll_read(), Readiness::NotReady);
    assert_eq!(stdio.read(&mut buf), Err(StdioError::WouldBlock));
    assert_eq!(buf, [7u8; 4]);
    assert_eq!(stdio.read(&mut []), Err(StdioError::WouldBlock));
}

#[test]
fn write_would_block_while_not_ready() {
    let mut stdio = Stdio::new(4, 2);
    assert_eq!(stdio.write(b"ab"), Ok(2));
    assert_eq!(stdio.poll_write(), Readiness::NotReady);
    assert_eq!(stdio.write(b"c"), Err(StdioError::WouldBlock));
    assert_eq!(stdio.write(b""), Err(StdioError::WouldBlock));
    assert_eq!(stdio.stdout_buffer().occupied(), 2);
}

#[test]
fn write_is_broken_once_the_output_pump_is_gone() {
    let mut stdio = Stdio::new(4, 4);
    assert_eq!(stdio.write(b"ab"), Ok(2));
    let mut pump = StdoutPump::new();
    assert_eq!(pump.on_data(stdio.stdout_buffer()), StdoutAction::WriteOutput);
    assert_eq!(pump.on_written(stdio.stdout_buffer(), false), StdoutAction::Exit);
    assert_eq!(stdio.poll_write(), Readiness::Ready);
    assert_eq!(stdio.write(b"cd"), Err(StdioError::BrokenPipe));
    assert_eq!(stdio.write(b""), Err(StdioError::BrokenPipe));
}

#[test]
fn flush_succeeds_and_changes_nothing() {
    let mut stdio = Stdio::new(4, 4);
    assert_eq!(stdio.write(b"abc"), Ok(3));
    assert_eq!(stdio.flush(), Ok(()));
    assert_eq!(stdio.stdout_buffer().occupied(), 3);
    assert_eq!(stdio.stdin_buffer().occupied(), 0);
    assert_eq!(stdio.poll_write(), Readiness::Ready);
}

#[test]
fn directions_do_not_touch_each_other() {
    let mut stdio = Stdio::new(4, 4);
    let mut pump = StdinPump::new();
    assert_eq!(pump.on_input(stdio.stdin_buffer(), b"in"), StdinAction::ReadInput);
    assert_eq!(stdio.write(b"out"), Ok(3));
    assert_eq!(stdio.stdin_buffer().occupied(), 2);
    assert_eq!(stdio.stdout_buffer().occupied(), 3);
    let mut buf = [0u8; 4];
    assert_eq!(stdio.read(&mut buf), Ok(2));
    assert_eq!(&buf[..2], b"in");
    assert_eq!(stdio.stdout_buffer().occupied(), 3);
}

#[test]
fn empty_transfers_are_accepted_only_while_they_cannot_succeed() {
    let mut stdio = Stdio::new(2, 2);
    assert!(stdio.accepts_read(0));
    assert!(stdio.accepts_read(1));
    assert!(!stdio.accepts_write(0));
    assert!(stdio.accepts_write(1));
    let mut pump = StdinPump::new();
    assert_eq!(pump.on_input(stdio.stdin_buffer(), b"a"), StdinAction::ReadInput);
    assert!(!stdio.accepts_read(0));
    assert!(stdio.accepts_read(1));
    assert_eq!(stdio.write(b"xy"), Ok(2));
    assert!(stdio.accepts_write(0));
    stdio.close();
    assert!(!stdio.accepts_read(0));
    assert!(stdio.accepts_write(0));
}

#[test]
fn close_gives_up_both_sides_of_the_adapter() {
    let mut stdio = Stdio::new(4, 4);
    stdio.close();
    assert!(!stdio.stdin_buffer().consumer_live());
    assert!(stdio.stdin_buffer().producer_live());
    assert!(!stdio.stdout_buffer().producer_live());
    assert!(stdio.stdout_buffer().consumer_live());
}
