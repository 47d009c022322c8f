//! The streaming reader bridge: the decisions of the worker that performs
//! blocking reads on a session's output and forwards chunks over a FIFO
//! channel, and of the consumer that drains that channel into a terminal
//! buffer.
//!
//! An empty chunk on the channel is the end-of-stream sentinel. The worker
//! sends it once, when a read reports the pipe closed, fails, or finds the
//! session lock poisoned, and then stops. The consumer also treats a closed
//! channel as the end of the stream, and marks the end in the buffer once.

use vstd::prelude::*;
use crate::error::SessionError;
use crate::terminal::{Screen, TerminalWidgetState, after_output};

verus! {

/// The worker's state.
#[derive(Clone, Copy, Debug, PartialEq, Eq, Structural)]
pub enum ReaderState {
    Running,
    Stopped,
}

/// The chunk the worker sends after a read that returned `outcome` into
/// `buf`: the bytes read, or the empty sentinel when the pipe is closed or
/// the read failed.
pub open spec fn chunk_for(buf: Seq<u8>, outcome: Result<usize, SessionError>) -> Seq<u8> {
    match outcome {
        Ok(n) => buf.take(n as int),
        Err(_) => Seq::<u8>::empty(),
    }
}

/// The worker's state after a read that returned `outcome`: it keeps running
/// only after reading some bytes.
pub open spec fn state_after_read(outcome: Result<usize, SessionError>) -> ReaderState {
    match outcome {
        Ok(n) => if n > 0 {
            ReaderState::Running
        } else {
            ReaderState::Stopped
        },
        Err(_) => ReaderState::Stopped,
    }
}

/// The decisions of the reader worker.
pub struct ReaderBridge {
    state: ReaderState,
}

impl ReaderBridge {
    pub closed spec fn state(&self) -> ReaderState {
        self.state
    }

    /// A worker about to make its first read.
    pub fn new() -> (r: ReaderBridge)
        ensures
            r.state() == ReaderState::Running,
    {
        ReaderBridge { state: ReaderState::Running }
    }

    /// Whether the worker should make another read.
    pub fn is_running(&self) -> (r: bool)
        ensures
            r == (self.state() == ReaderState::Running),
    {
        match self.state {
            ReaderState::Running => true,
            ReaderState::Stopped => false,
        }
    }

    /// Takes the outcome of one read into `buf` (an error also stands for a
    /// poisoned session lock) and returns the chunk to send: the `n` bytes
    /// read, or the empty sentinel after which the worker stops.
    pub fn on_read(&mut self, buf: &[u8], outcome: Result<usize, SessionError>) -> (msg: Vec<u8>)
        requires
            old(self).state() == ReaderState::Running,
            outcome matches Ok(n) ==> n <= buf@.len(),
        ensures
            msg@ == chunk_for(buf@, outcome),
            final(self).state() == state_after_read(outcome),
    {
        match outcome {
            Ok(n) => {
                if n == 0 {
                    self.state = ReaderState::Stopped;
                }
                let mut chunk: Vec<u8> = Vec::new();
                let mut i: usize = 0;
                while i < n
                    invariant
                        n <= buf@.len(),
                        i <= n,
                        chunk@ == buf@.take(i as int),
                    decreases n - i,
                {
                    chunk.push(buf[i]);
                    i += 1;
                    proof {
                        assert(chunk@ =~= buf@.take(i as int));
                    }
                }
                chunk
            },
            Err(_) => {
                self.state = ReaderState::Stopped;
                proof {
                    assert(chunk_for(buf@, outcome) =~= Seq::<u8>::empty());
                }
                Vec::new()
            },
        }
    }

    /// Takes whether the last chunk reached the channel: a dropped receiver
    /// stops the worker.
    pub fn on_send(&mut self, delivered: bool)
        ensures
            final(self).state() == if delivered {
                old(self).state()
            } else {
                ReaderState::Stopped
            },
    {
        if !delivered {
            self.state = ReaderState::Stopped;
        }
    }
}

/// What one non-blocking poll of the channel found.
pub enum Received {
    /// A chunk; the empty chunk is the end-of-stream sentinel.
    Chunk(Vec<u8>),
    /// Nothing waiting.
    Nothing,
    /// The sending side is gone.
    Disconnected,
}

/// The buffer after the consumer takes `msg` while its stream is `open`.
pub open spec fn screen_after_receive(s: Screen, open: bool, msg: Received) -> Screen {
    if !open {
        s
    } else {
        match msg {
            Received::Chunk(c) => after_output(s, c@),
            Received::Nothing => s,
            Received::Disconnected => after_output(s, Seq::<u8>::empty()),
        }
    }
}

/// Whether the stream is still open after the consumer takes `msg`.
pub open spec fn open_after_receive(open: bool, msg: Received) -> bool {
    open && match msg {
        Received::Chunk(c) => c@.len() > 0,
        Received::Nothing => true,
        Received::Disconnected => false,
    }
}

/// The consumer side: drains the channel into a terminal buffer.
pub struct StreamConsumer {
    open: bool,
}

impl StreamConsumer {
    pub closed spec fn is_open(&self) -> bool {
        self.open
    }

    /// A consumer whose stream has not ended yet.
    pub fn new() -> (r: StreamConsumer)
        ensures
            r.is_open(),
    {
        StreamConsumer { open: true }
    }

    /// Whether the stream is still open, so the channel is worth polling.
    pub fn open(&self) -> (r: bool)
        ensures
            r == self.is_open(),
    {
        self.open
    }

    /// Takes the result of one poll of the channel. While the stream is
    /// open, a chunk is fed to the buffer; the sentinel or a closed channel
    /// ends the stream, which adds the end-of-session marker once. After
    /// the end nothing changes the buffer.
    pub fn receive(&mut self, term: &mut TerminalWidgetState, msg: Received)
        requires
            msg matches Received::Chunk(c) ==> old(term)@.col + 8 * c@.len() <= usize::MAX,
        ensures
            final(term)@ == screen_after_receive(old(term)@, old(self).is_open(), msg),
            final(self).is_open() == open_after_receive(old(self).is_open(), msg),
    {
        if !self.open {
            return;
        }
        match msg {
            Received::Chunk(c) => {
                if c.len() == 0 {
                    self.open = false;
                }
                term.process_output(c.as_slice());
            },
            Received::Nothing => {},
            Received::Disconnected => {
                self.open = false;
                let sentinel: Vec<u8> = Vec::new();
                term.process_output(sentinel.as_slice());
            },
        }
    }
}

} // verus!
