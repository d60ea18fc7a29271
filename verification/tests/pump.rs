use stdio_bridge::pump::{
    StdinAction, StdinPhase, StdinPump, StdoutAction, StdoutPhase, StdoutPump, SCRATCH_SIZE,
};
use stdio_bridge::ring::{Closed, Readiness, RingBuffer};
use stdio_bridge::stdio::Stdio;

#[test]
fn scratch_area_holds_1024_bytes() {
    assert_eq!(SCRATCH_SIZE, 1024);
}

#[test]
fn input_pump_starts_by_reading() {
    let pump = StdinPump::new();
    assert_eq!(pump.phase(), StdinPhase::Reading);
    assert_eq!(pump.action(), StdinAction::ReadInput);
}

#[test]
fn input_that_fits_is_delivered_at_once() {
    let mut ring = RingBuffer::create(8);
    let mut pump = StdinPump::new();
    assert_eq!(pump.on_input(&mut ring, b"abc"), StdinAction::ReadInput);
    assert_eq!(pump.on_input(&mut ring, b"de"), StdinAction::ReadInput);
    assert_eq!(pump.phase(), StdinPhase::Reading);
    let mut out = [0u8; 8];
    assert_eq!(ring.read(&mut out), Ok(5));
    assert_eq!(&out[..5], b"abcde");
    assert!(ring.producer_live());
}

#[test]
fn input_pump_waits_for_room_and_resumes_where_it_stopped() {
    let mut ring = RingBuffer::create(4);
    let mut pump = StdinPump::new();
    assert_eq!(pump.on_input(&mut ring, b"0123456789"), StdinAction::AwaitCapacity);
    assert_eq!(pump.phase(), StdinPhase::Delivering);
    assert_eq!(ring.occupied(), 4);
    assert_eq!(pump.on_capacity(&mut ring), StdinAction::AwaitCapacity);
    assert_eq!(ring.occupied(), 4);
    let mut seen: Vec<u8> = Vec::new();
    let mut out = [0u8; 3];
    assert_eq!(ring.read(&mut out), Ok(3));
    seen.extend_from_slice(&out);
    assert_eq!(pump.on_capacity(&mut ring), StdinAction::AwaitCapacity);
    assert_eq!(ring.occupied(), 4);
    let mut all = [0u8; 4];
    assert_eq!(ring.read(&mut all), Ok(4));
    seen.extend_from_slice(&all);
    assert_eq!(pump.on_capacity(&mut ring), StdinAction::ReadInput);
    assert_eq!(pump.phase(), StdinPhase::Reading);
    assert_eq!(ring.read(&mut all), Ok(3));
    seen.extend_from_slice(&all[..3]);
    assert_eq!(seen, b"0123456789");
    assert_eq!(ring.poll_read(), Readiness::NotReady);
}

#[test]
fn input_pump_stops_at_end_of_stream() {
    let mut ring = RingBuffer::create(4);
    let mut pump = StdinPump::new();
    assert_eq!(pump.on_input(&mut ring, b"ab"), StdinAction::ReadInput);
    assert_eq!(pump.on_input(&mut ring, b""), StdinAction::Exit);
    assert_eq!(pump.phase(), StdinPhase::Stopped);
    assert_eq!(pump.action(), StdinAction::Exit);
    assert!(!ring.producer_live());
    assert_eq!(ring.occupied(), 2);
}

#[test]
fn input_pump_stops_on_a_read_error() {
    let mut ring = RingBuffer::create(4);
    let mut pump = StdinPump::new();
    assert_eq!(pump.on_input_error(&mut ring), StdinAction::Exit);
    assert_eq!(pump.phase(), StdinPhase::Stopped);
    assert!(!ring.producer_live());
    assert_eq!(ring.poll_read(), Readiness::Ready);
    assert_eq!(ring.read(&mut [0u8; 1]), Err(Closed));
}

#[test]
fn input_pump_stops_when_the_adapter_is_gone() {
    let mut stdio = Stdio::new(4, 4);
    let mut pump = StdinPump::new();
    stdio.close();
    assert_eq!(pump.on_input(stdio.stdin_buffer(), b"late"), StdinAction::Exit);
    assert_eq!(stdio.stdin_buffer().occupied(), 0);
    assert!(!stdio.stdin_buffer().producer_live());
}

#[test]
fn blocked_input_pump_is_released_when_the_consumer_is_dropped() {
    let mut ring = RingBuffer::create(2);
    let mut pump = StdinPump::new();
    assert_eq!(pump.on_input(&mut ring, b"abcd"), StdinAction::AwaitCapacity);
    assert_eq!(ring.poll_write(), Readiness::NotReady);
    ring.drop_consumer();
    assert_eq!(pump.on_capacity(&mut ring), StdinAction::Exit);
    assert_eq!(pump.phase(), StdinPhase::Stopped);
    assert!(!ring.producer_live());
    assert_eq!(ring.occupied(), 2);
}

#[test]
fn stopped_input_pump_ignores_further_events() {
    let mut ring = RingBuffer::create(4);
    let mut pump = StdinPump::new();
    assert_eq!(pump.on_input_error(&mut ring), StdinAction::Exit);
    assert_eq!(pump.on_input(&mut ring, b"abc"), StdinAction::Exit);
    assert_eq!(pump.on_capacity(&mut ring), StdinAction::Exit);
    assert_eq!(pump.on_input_error(&mut ring), StdinAction::Exit);
    assert_eq!(ring.occupied(), 0);
}

#[test]
fn input_events_out_of_turn_change_nothing() {
    let mut ring = RingBuffer::create(2);
    let mut pump = StdinPump::new();
    assert_eq!(pump.on_capacity(&mut ring), StdinAction::ReadInput);
    assert_eq!(pump.on_input(&mut ring, b"abc"), StdinAction::AwaitCapacity);
    assert_eq!(pump.on_input(&mut ring, b"zz"), StdinAction::AwaitCapacity);
    assert_eq!(pump.on_input_error(&mut ring), StdinAction::AwaitCapacity);
    assert!(ring.producer_live());
    let mut out = [0u8; 2];
    assert_eq!(ring.read(&mut out), Ok(2));
    assert_eq!(pump.on_capacity(&mut ring), StdinAction::ReadInput);
    assert_eq!(ring.read(&mut out), Ok(1));
    assert_eq!(out[0], b'c');
}

#[test]
fn output_pump_starts_by_waiting_for_data() {
    let mut ring = RingBuffer::create(4);
    let mut pump = StdoutPump::new();
    assert_eq!(pump.phase(), StdoutPhase::Draining);
    assert_eq!(pump.action(), StdoutAction::AwaitData);
    assert_eq!(pump.chunk(), b"");
    assert_eq!(pump.on_data(&mut ring), StdoutAction::AwaitData);
    assert_eq!(pump.phase(), StdoutPhase::Draining);
    assert!(ring.consumer_live());
}

#[test]
fn output_pump_writes_then_flushes_then_drains_again() {
    let mut ring = RingBuffer::create(8);
    let mut pump = StdoutPump::new();
    assert_eq!(ring.write(b"one"), Ok(3));
    assert_eq!(pump.on_data(&mut ring), StdoutAction::WriteOutput);
    assert_eq!(pump.phase(), StdoutPhase::Writing);
    assert_eq!(pump.chunk(), b"one");
    assert_eq!(ring.occupied(), 0);
    assert_eq!(ring.write(b"two"), Ok(3));
    assert_eq!(pump.on_written(&mut ring, true), StdoutAction::Flush);
    assert_eq!(pump.phase(), StdoutPhase::Flushing);
    assert_eq!(pump.chunk(), b"");
    assert_eq!(ring.occupied(), 3);
    assert_eq!(pump.on_flushed(&mut ring, true), StdoutAction::WriteOutput);
    assert_eq!(pump.chunk(), b"two");
    assert_eq!(pump.on_written(&mut ring, true), StdoutAction::Flush);
    assert_eq!(pump.on_flushed(&mut ring, true), StdoutAction::AwaitData);
    assert_eq!(pump.phase(), StdoutPhase::Draining);
}

#[test]
fn output_pump_takes_at_most_one_scratch_area() {
    let mut ring = RingBuffer::create(3000);
    let data: Vec<u8> = (0..2500u32).map(|i| (i % 251) as u8).collect();
    assert_eq!(ring.write(&data), Ok(2500));
    let mut pump = StdoutPump::new();
    let mut seen: Vec<u8> = Vec::new();
    assert_eq!(pump.on_data(&mut ring), StdoutAction::WriteOutput);
    assert_eq!(pump.chunk().len(), 1024);
    seen.extend_from_slice(pump.chunk());
    assert_eq!(pump.on_written(&mut ring, true), StdoutAction::Flush);
    assert_eq!(pump.on_flushed(&mut ring, true), StdoutAction::WriteOutput);
    assert_eq!(pump.chunk().len(), 1024);
    seen.extend_from_slice(pump.chunk());
    assert_eq!(pump.on_written(&mut ring, true), StdoutAction::Flush);
    assert_eq!(pump.on_flushed(&mut ring, true), StdoutAction::WriteOutput);
    assert_eq!(pump.chunk().len(), 452);
    seen.extend_from_slice(pump.chunk());
    assert_eq!(seen, data);
}

#[test]
fn output_pump_stops_when_writing_fails() {
    let mut ring = RingBuffer::create(4);
    let mut pump = StdoutPump::new();
    assert_eq!(ring.write(b"ab"), Ok(2));
    assert_eq!(pump.on_data(&mut ring), StdoutAction::WriteOutput);
    assert_eq!(pump.on_written(&mut ring, false), StdoutAction::Exit);
    assert_eq!(pump.phase(), StdoutPhase::Stopped);
    assert!(!ring.consumer_live());
    assert_eq!(ring.write(b"cd"), Err(Closed));
}

#[test]
fn output_pump_stops_when_flushing_fails() {
    let mut ring = RingBuffer::create(4);
    let mut pump = StdoutPump::new();
    assert_eq!(ring.write(b"ab"), Ok(2));
    assert_eq!(pump.on_data(&mut ring), StdoutAction::WriteOutput);
    assert_eq!(pump.on_written(&mut ring, true), StdoutAction::Flush);
    assert_eq!(ring.write(b"cd"), Ok(2));
    assert_eq!(pump.on_flushed(&mut ring, false), StdoutAction::Exit);
    assert_eq!(pump.phase(), StdoutPhase::Stopped);
    assert!(!ring.consumer_live());
    assert_eq!(ring.occupied(), 2);
}

#[test]
fn output_pump_drains_what_is_left_after_the_adapter_is_gone() {
    let mut stdio = Stdio::new(4, 4);
    let mut pump = StdoutPump::new();
    assert_eq!(stdio.write(b"end"), Ok(3));
    stdio.close();
    assert_eq!(pump.on_data(stdio.stdout_buffer()), StdoutAction::WriteOutput);
    assert_eq!(pump.chunk(), b"end");
    assert_eq!(pump.on_written(stdio.stdout_buffer(), true), StdoutAction::Flush);
    assert_eq!(pump.on_flushed(stdio.stdout_buffer(), true), StdoutAction::Exit);
    assert!(!stdio.stdout_buffer().consumer_live());
}

#[test]
fn waiting_output_pump_is_released_when_the_producer_is_dropped() {
    let mut ring = RingBuffer::create(4);
    let mut pump = StdoutPump::new();
    assert_eq!(pump.on_data(&mut ring), StdoutAction::AwaitData);
    ring.drop_producer();
    assert_eq!(pump.on_data(&mut ring), StdoutAction::Exit);
    assert_eq!(pump.phase(), StdoutPhase::Stopped);
    assert!(!ring.consumer_live());
}

#[test]
fn output_events_out_of_turn_change_nothing() {
    let mut ring = RingBuffer::create(4);
    let mut pump = StdoutPump::new();
    assert_eq!(pump.on_written(&mut ring, false), StdoutAction::AwaitData);
    assert_eq!(pump.on_flushed(&mut ring, false), StdoutAction::AwaitData);
    assert!(ring.consumer_live());
    assert_eq!(ring.write(b"ab"), Ok(2));
    assert_eq!(pump.on_data(&mut ring), StdoutAction::WriteOutput);
    assert_eq!(ring.write(b"cd"), Ok(2));
    assert_eq!(pump.on_data(&mut ring), StdoutAction::WriteOutput);
    assert_eq!(pump.on_flushed(&mut ring, true), StdoutAction::WriteOutput);
    assert_eq!(pump.chunk(), b"ab");
    assert_eq!(ring.occupied(), 2);
}
