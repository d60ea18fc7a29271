//! Standard input and output as non-blocking, pollable byte streams.
//!
//! Blocking reads and writes of the operating system's streams cannot be
//! issued from a single-threaded event loop. This library holds what decides
//! how the bytes travel instead: a bounded ring buffer per direction
//! ([`ring`]), the adapter that an event loop polls ([`stdio`]), and the two
//! pumps that carry bytes between the buffers and the operating system, as
//! state machines for a thread to drive ([`pump`]).

pub mod error;
pub mod pump;
pub mod ring;
pub mod stdio;
