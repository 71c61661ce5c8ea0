//! The state of an adapter that drives a stream by polling.
//!
//! While a read or a seek is in flight, it owns the stream; the adapter holds
//! it in between.

use vstd::prelude::*;

verus! {

/// Where an adapter stands.
#[derive(Debug)]
pub enum State<S> {
    /// Nothing is in flight, and the stream is here.
    Idle(S),
    /// A read is in flight.
    Reading,
    /// A seek is in flight.
    Seeking,
    /// The stream is being taken out. No call leaves the adapter like this.
    Empty,
}

/// An adapter that drives a stream by polling.
#[derive(Debug)]
pub struct GoosefsAsyncReader<S> {
    /// Where the adapter stands.
    pub state: State<S>,
}

/// The message of a read during a seek.
pub const READ_DURING_SEEK: &'static str = "cannot read while a seek is in flight";

/// The message of a seek during a read.
pub const SEEK_DURING_READ: &'static str = "cannot start a seek while a read is in flight";

/// The message of a seek during a seek.
pub const SEEK_DURING_SEEK: &'static str = "another seek is already in flight";

/// The message of completing a seek during a read.
pub const COMPLETE_DURING_READ: &'static str = "cannot complete a seek while a read is in flight";

/// What a poll for data does.
#[derive(Debug)]
pub enum PollRead<S> {
    /// Nothing is asked for, so nothing is read.
    Nothing,
    /// Read up to `cap` bytes from the stream, and poll that read.
    Start {
        /// The stream.
        stream: S,
        /// Number of bytes that the caller has room for.
        cap: usize,
    },
    /// Poll the read that is in flight.
    Poll,
    /// Fail with the message.
    Refuse(&'static str),
}

/// What a poll for the completion of a seek does.
#[derive(Debug, Clone, Copy, PartialEq, Eq, Structural)]
pub enum PollSeek {
    /// Report the position of the stream.
    Position,
    /// Poll the seek that is in flight.
    Poll,
    /// Fail, because a read is in flight.
    Refuse,
}

impl<S> GoosefsAsyncReader<S> {
    /// Whether the adapter is between calls.
    pub open spec fn wf(self) -> bool {
        !(self.state is Empty)
    }

    /// An adapter of the stream.
    pub fn new(stream: S) -> (r: Self)
        ensures
            r.wf(),
            r.state == State::Idle(stream),
    {
        GoosefsAsyncReader { state: State::Idle(stream) }
    }

    /// The stream, or the adapter if something is in flight.
    pub fn into_inner(self) -> (r: Result<S, Self>)
        ensures
            r == (match self.state {
                State::Idle(s) => Ok::<S, Self>(s),
                _ => Err(self),
            }),
    {
        match self.state {
            State::Idle(s) => Ok(s),
            State::Reading => Err(GoosefsAsyncReader { state: State::Reading }),
            State::Seeking => Err(GoosefsAsyncReader { state: State::Seeking }),
            State::Empty => Err(GoosefsAsyncReader { state: State::Empty }),
        }
    }

    /// The stream, unless something is in flight.
    pub fn get_ref(&self) -> (r: Option<&S>)
        ensures
            match self.state {
                State::Idle(s) => r == Some(&s),
                _ => r is None,
            },
    {
        match &self.state {
            State::Idle(s) => Some(s),
            _ => None,
        }
    }

    /// The stream, unless something is in flight; changes to it are kept.
    pub fn get_mut(&mut self) -> (r: Option<&mut S>)
        ensures
            match old(self).state {
                State::Idle(s) => r is Some && *r->0 == s && final(self).state == State::Idle(
                    *final(r->0),
                ),
                _ => r is None && *final(self) == *old(self),
            },
    {
        match &mut self.state {
            State::Idle(s) => Some(s),
            _ => None,
        }
    }

    /// Starts or continues a read for a caller with room for `room` bytes.
    pub fn poll_read(&mut self, room: usize) -> (r: PollRead<S>)
        requires
            old(self).wf(),
        ensures
            final(self).wf(),
            match old(self).state {
                State::Idle(s) => if room == 0 {
                    r is Nothing && *final(self) == *old(self)
                } else {
                    r == (PollRead::Start { stream: s, cap: room }) && final(self).state is Reading
                },
                State::Reading => r is Poll && *final(self) == *old(self),
                _ => (r matches PollRead::Refuse(m) && m@ == READ_DURING_SEEK@) && *final(self)
                    == *old(self),
            },
    {
        let mut state: State<S> = State::Reading;
        std::mem::swap(&mut state, &mut self.state);
        match state {
            State::Idle(s) => if room == 0 {
                self.state = State::Idle(s);
                PollRead::Nothing
            } else {
                PollRead::Start { stream: s, cap: room }
            },
            State::Reading => PollRead::Poll,
            State::Seeking => {
                self.state = State::Seeking;
                PollRead::Refuse(READ_DURING_SEEK)
            },
            State::Empty => {
                self.state = State::Empty;
                PollRead::Refuse(READ_DURING_SEEK)
            },
        }
    }

    /// Starts a seek, which gets the stream.
    pub fn start_seek(&mut self) -> (r: Result<S, &'static str>)
        requires
            old(self).wf(),
        ensures
            final(self).wf(),
            match old(self).state {
                State::Idle(s) => r == Ok::<S, &'static str>(s) && final(self).state is Seeking,
                State::Reading => (r matches Err(m) && m@ == SEEK_DURING_READ@) && *final(self)
                    == *old(self),
                _ => (r matches Err(m) && m@ == SEEK_DURING_SEEK@) && *final(self) == *old(self),
            },
    {
        let mut state: State<S> = State::Seeking;
        std::mem::swap(&mut state, &mut self.state);
        match state {
            State::Idle(s) => Ok(s),
            State::Reading => {
                self.state = State::Reading;
                Err(SEEK_DURING_READ)
            },
            State::Seeking => Err(SEEK_DURING_SEEK),
            State::Empty => {
                self.state = State::Empty;
                Err(SEEK_DURING_SEEK)
            },
        }
    }

    /// What a poll for the completion of a seek does.
    pub fn poll_complete(&self) -> (r: PollSeek)
        requires
            self.wf(),
        ensures
            r == (match self.state {
                State::Idle(_) => PollSeek::Position,
                State::Seeking => PollSeek::Poll,
                _ => PollSeek::Refuse,
            }),
    {
        match &self.state {
            State::Idle(_) => PollSeek::Position,
            State::Seeking => PollSeek::Poll,
            _ => PollSeek::Refuse,
        }
    }

    /// Takes the stream back when a read or a seek has come to its end.
    pub fn finished(&mut self, stream: S)
        ensures
            final(self).wf(),
            final(self).state == State::Idle(stream),
    {
        self.state = State::Idle(stream);
    }
}

/// The number of bytes that are copied to a caller: those that were read, as
/// far as there is room.
pub fn bytes_to_copy(read: usize, room: usize) -> (r: usize)
    ensures
        r == (if read <= room {
            read
        } else {
            room
        }),
{
    if read <= room {
        read
    } else {
        room
    }
}

/// The position as it is reported: a negative one counts as zero.
pub fn reported_position(pos: i64) -> (r: u64)
    ensures
        r == (if pos < 0 {
            0
        } else {
            pos as int
        }),
{
    if pos < 0 {
        0
    } else {
        pos as u64
    }
}

} // verus!
