use vstd::prelude::*;

verus! {

/// Where a body pipe stands: it streams a request body into the session's
/// per-exchange sender.
#[derive(Clone, Copy, PartialEq, Eq, Structural, Debug)]
pub enum Pipe {
    /// Send capacity is to be reserved before the next chunk is pulled.
    Reserving,
    /// The body is to be asked for its next chunk.
    Pulling,
    /// A chunk is to be forwarded; `last` tells whether it ends the body.
    Forwarding { last: bool },
    /// The data is exhausted: the body is to be asked for trailers.
    AwaitingTrailers,
    /// The trailers are to be forwarded; they end the stream.
    ForwardingTrailers,
    /// An empty frame that ends the stream is to be sent.
    Ending,
    /// The pipe returned "not ready"; it resumes where it stopped.
    Parked { resume: Resume },
    /// The whole body went out.
    Finished,
    /// The body or the sender failed; the failure is only logged.
    Broken,
}

/// Where a parked pipe resumes.
#[derive(Clone, Copy, PartialEq, Eq, Structural, Debug)]
pub enum Resume {
    Reserving,
    Pulling,
    AwaitingTrailers,
}

/// What the host is to do next on behalf of the pipe.
#[derive(Clone, Copy, PartialEq, Eq, Structural, Debug)]
pub enum PipeAction {
    /// Reserve send capacity and check for a reset; answer `Pending`, `Ready` or `Failed`.
    ReserveCapacity,
    /// Poll the body for data; answer `Pending`, `Chunk`, `Exhausted` or `Failed`.
    PollData,
    /// Send the chunk, ending the stream where `end_of_stream` holds; answer `Sent` or `Failed`.
    SendData { end_of_stream: bool },
    /// Check for a reset and poll the body for trailers; answer `Pending`,
    /// `Trailers`, `NoTrailers` or `Failed`.
    PollTrailers,
    /// Send the trailers; answer `Sent` or `Failed`.
    SendTrailers,
    /// Send an empty frame that ends the stream; answer `Sent` or `Failed`.
    SendEnd,
    /// Return "not ready"; answer `Resumed` on the next poll.
    Yield,
    /// Return success; answer `Resumed` on any later poll.
    Complete,
    /// Return the body error; answer `Resumed` on any later poll.
    Fail,
}

/// What the host observed while carrying out a pipe action.
#[derive(Clone, Copy, PartialEq, Eq, Structural, Debug)]
pub enum PipeEvent {
    Resumed,
    Pending,
    Ready,
    /// The body yielded a chunk; `last` tells whether the body then reports end of stream.
    Chunk { last: bool },
    /// The body has no more data; `end_of_stream` tells whether it has no trailers either.
    Exhausted { end_of_stream: bool },
    Trailers,
    NoTrailers,
    Sent,
    /// The body failed, the exchange was reset, or the sender is gone.
    Failed,
}

/// The phase a parked pipe resumes in.
pub open spec fn resumed(r: Resume) -> Pipe {
    match r {
        Resume::Reserving => Pipe::Reserving,
        Resume::Pulling => Pipe::Pulling,
        Resume::AwaitingTrailers => Pipe::AwaitingTrailers,
    }
}

/// The action that the pipe asks for in phase `p`.
pub open spec fn pipe_action(p: Pipe) -> PipeAction {
    match p {
        Pipe::Reserving => PipeAction::ReserveCapacity,
        Pipe::Pulling => PipeAction::PollData,
        Pipe::Forwarding { last } => PipeAction::SendData { end_of_stream: last },
        Pipe::AwaitingTrailers => PipeAction::PollTrailers,
        Pipe::ForwardingTrailers => PipeAction::SendTrailers,
        Pipe::Ending => PipeAction::SendEnd,
        Pipe::Parked { .. } => PipeAction::Yield,
        Pipe::Finished => PipeAction::Complete,
        Pipe::Broken => PipeAction::Fail,
    }
}

/// Whether `e` is a possible answer to the action of phase `p`.
pub open spec fn pipe_accepts(p: Pipe, e: PipeEvent) -> bool {
    match p {
        Pipe::Reserving => e is Pending || e is Ready || e is Failed,
        Pipe::Pulling => e is Pending || e is Chunk || e is Exhausted || e is Failed,
        Pipe::AwaitingTrailers => e is Pending || e is Trailers || e is NoTrailers || e is Failed,
        Pipe::Forwarding { .. } | Pipe::ForwardingTrailers | Pipe::Ending => e is Sent
            || e is Failed,
        _ => e is Resumed,
    }
}

/// The phase that follows phase `p` on event `e`.
pub open spec fn pipe_next(p: Pipe, e: PipeEvent) -> Pipe {
    match p {
        Pipe::Parked { resume } => resumed(resume),
        Pipe::Finished => Pipe::Finished,
        Pipe::Broken => Pipe::Broken,
        _ => match e {
            PipeEvent::Failed => Pipe::Broken,
            PipeEvent::Pending => Pipe::Parked {
                resume: if p is AwaitingTrailers {
                    Resume::AwaitingTrailers
                } else if p is Pulling {
                    Resume::Pulling
                } else {
                    Resume::Reserving
                },
            },
            PipeEvent::Ready => Pipe::Pulling,
            PipeEvent::Chunk { last } => Pipe::Forwarding { last },
            PipeEvent::Exhausted { end_of_stream } => if end_of_stream {
                Pipe::Ending
            } else {
                Pipe::AwaitingTrailers
            },
            PipeEvent::Trailers => Pipe::ForwardingTrailers,
            PipeEvent::NoTrailers => Pipe::Ending,
            _ => if p == (Pipe::Forwarding { last: false }) {
                Pipe::Reserving
            } else {
                Pipe::Finished
            },
        },
    }
}

/// A body pipe.
pub struct BodyPipe {
    phase: Pipe,
}

impl View for BodyPipe {
    type V = Pipe;

    closed spec fn view(&self) -> Pipe {
        self.phase
    }
}

impl BodyPipe {
    /// A pipe for a body that still has data to send.
    pub fn new() -> (b: BodyPipe)
        ensures
            b@ == Pipe::Reserving,
    {
        BodyPipe { phase: Pipe::Reserving }
    }

    /// The current phase.
    pub fn phase(&self) -> (p: Pipe)
        ensures
            p == self@,
    {
        self.phase
    }

    /// What the host is to do next.
    pub fn next_action(&self) -> (a: PipeAction)
        ensures
            a == pipe_action(self@),
    {
        match self.phase {
            Pipe::Reserving => PipeAction::ReserveCapacity,
            Pipe::Pulling => PipeAction::PollData,
            Pipe::Forwarding { last } => PipeAction::SendData { end_of_stream: last },
            Pipe::AwaitingTrailers => PipeAction::PollTrailers,
            Pipe::ForwardingTrailers => PipeAction::SendTrailers,
            Pipe::Ending => PipeAction::SendEnd,
            Pipe::Parked { .. } => PipeAction::Yield,
            Pipe::Finished => PipeAction::Complete,
            Pipe::Broken => PipeAction::Fail,
        }
    }

    /// Whether `e` answers the action that the pipe asked for.
    pub fn accepts(&self, e: PipeEvent) -> (r: bool)
        ensures
            r == pipe_accepts(self@, e),
    {
        match self.phase {
            Pipe::Reserving => match e {
                PipeEvent::Pending | PipeEvent::Ready | PipeEvent::Failed => true,
                _ => false,
            },
            Pipe::Pulling => match e {
                PipeEvent::Pending | PipeEvent::Chunk { .. } | PipeEvent::Exhausted { .. }
                | PipeEvent::Failed => true,
                _ => false,
            },
            Pipe::AwaitingTrailers => match e {
                PipeEvent::Pending | PipeEvent::Trailers | PipeEvent::NoTrailers
                | PipeEvent::Failed => true,
                _ => false,
            },
            Pipe::Forwarding { .. } | Pipe::ForwardingTrailers | Pipe::Ending => match e {
                PipeEvent::Sent | PipeEvent::Failed => true,
                _ => false,
            },
            _ => match e {
                PipeEvent::Resumed => true,
                _ => false,
            },
        }
    }

    /// Takes the answer to the last action and returns the next action.
    pub fn step(&mut self, e: PipeEvent) -> (a: PipeAction)
        requires
            pipe_accepts(old(self)@, e),
        ensures
            final(self)@ == pipe_next(old(self)@, e),
            a == pipe_action(final(self)@),
    {
        let p = self.phase;
        let q = match p {
            Pipe::Parked { resume } => match resume {
                Resume::Reserving => Pipe::Reserving,
                Resume::Pulling => Pipe::Pulling,
                Resume::AwaitingTrailers => Pipe::AwaitingTrailers,
            },
            Pipe::Finished => Pipe::Finished,
            Pipe::Broken => Pipe::Broken,
            _ => match e {
                PipeEvent::Failed => Pipe::Broken,
                PipeEvent::Pending => {
                    let resume = match p {
                        Pipe::AwaitingTrailers => Resume::AwaitingTrailers,
                        Pipe::Pulling => Resume::Pulling,
                        _ => Resume::Reserving,
                    };
                    Pipe::Parked { resume }
                },
                PipeEvent::Ready => Pipe::Pulling,
                PipeEvent::Chunk { last } => Pipe::Forwarding { last },
                PipeEvent::Exhausted { end_of_stream } => if end_of_stream {
                    Pipe::Ending
                } else {
                    Pipe::AwaitingTrailers
                },
                PipeEvent::Trailers => Pipe::ForwardingTrailers,
                PipeEvent::NoTrailers => Pipe::Ending,
                _ => match p {
                    Pipe::Forwarding { last: false } => Pipe::Reserving,
                    _ => Pipe::Finished,
                },
            },
        };
        self.phase = q;
        self.next_action()
    }
}

/// The pipe finishes only by a successful send that ends the stream: the last
/// chunk, the trailers, or an empty closing frame. Failures and resets break it
/// instead, and a finished or broken pipe stays so.
pub proof fn lemma_finish_ends_stream(p: Pipe, e: PipeEvent)
    requires
        pipe_accepts(p, e),
    ensures
        p != Pipe::Finished && pipe_next(p, e) == Pipe::Finished ==> e == PipeEvent::Sent && (p
            == (Pipe::Forwarding { last: true }) || p == Pipe::ForwardingTrailers || p
            == Pipe::Ending),
        e == PipeEvent::Failed && !(p is Parked) && p != Pipe::Finished ==> pipe_next(p, e)
            == Pipe::Broken,
        p == Pipe::Finished ==> pipe_next(p, e) == Pipe::Finished,
        p == Pipe::Broken ==> pipe_next(p, e) == Pipe::Broken,
{
}

} // verus!
