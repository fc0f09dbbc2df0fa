use vstd::prelude::*;

verus! {

/// Where the connection driver stands between two events.
#[derive(Clone, Copy, PartialEq, Eq, Structural, Debug)]
pub enum Phase {
    /// The session handshake is in progress.
    Handshaking,
    /// The handshake completed: the background connection task is to be started.
    Connecting,
    /// Ready: the session is to be asked for send capacity.
    AwaitingCapacity,
    /// Ready, with capacity: the inbound queue is to be polled.
    AwaitingRequest,
    /// A dequeued request whose caller already cancelled is to be discarded.
    Discarding { id: u64 },
    /// A dequeued request is to be handed to the session.
    Dispatching { id: u64, end_of_stream: bool },
    /// The session refused the exchange: the error goes to the request's slot.
    Rejecting { id: u64 },
    /// The session accepted the exchange: its background tasks are to be spawned.
    Spawning { id: u64, end_of_stream: bool },
    /// The driver returned "not ready"; it resumes at the handshake or at the
    /// capacity check.
    Parked { handshaking: bool },
    /// The inbound queue closed: no request can ever arrive again.
    Done,
    /// The handshake or the session failed.
    Failed,
}

/// What the host is to do next on behalf of the driver.
#[derive(Clone, Copy, PartialEq, Eq, Structural, Debug)]
pub enum Action {
    /// Poll the handshake; answer `Pending`, `Ready` or `Errored`.
    PollHandshake,
    /// Spawn the background connection task with a fresh shutdown sentinel;
    /// answer `Resumed`.
    StartConnection,
    /// Poll the session's send capacity; answer `Pending`, `Ready` or `Errored`.
    PollCapacity,
    /// Poll the inbound queue; answer `Pending`, `Item` or `Closed`.
    PollQueue,
    /// Drop the cancelled request `id` without touching the session; answer `Resumed`.
    DropRequest { id: u64 },
    /// Normalize request `id` and start its exchange; answer `Accepted` or `Rejected`.
    SendRequest { id: u64, end_of_stream: bool },
    /// Deliver the dispatch error to the slot of request `id`; answer `Resumed`.
    FailRequest { id: u64 },
    /// Spawn the response task of request `id`, and its body pipe where
    /// `pipe_body` holds; answer `Resumed`.
    SpawnExchange { id: u64, pipe_body: bool },
    /// Return "not ready" from the poll; answer `Resumed` on the next poll.
    Yield,
    /// Return "done"; answer `Resumed` on any later poll.
    Finish,
    /// Return the fatal error; answer `Resumed` on any later poll.
    Fail,
}

/// What the host observed while carrying out an action.
#[derive(Clone, Copy, PartialEq, Eq, Structural, Debug)]
pub enum Event {
    /// The action was carried out, or the driver is polled again.
    Resumed,
    /// The polled operation is not ready yet.
    Pending,
    /// The handshake completed, or the session has send capacity.
    Ready,
    /// The handshake or the capacity check failed.
    Errored,
    /// The queue yielded request `id`; `cancelled` tells whether its caller had
    /// already given up on it, `end_of_stream` whether its body is exhausted.
    Item { id: u64, cancelled: bool, end_of_stream: bool },
    /// The queue is closed or failed.
    Closed,
    /// The session started the exchange.
    Accepted,
    /// The session refused the exchange.
    Rejected,
}

/// The action that the driver asks for in phase `p`.
pub open spec fn action_of(p: Phase) -> Action {
    match p {
        Phase::Handshaking => Action::PollHandshake,
        Phase::Connecting => Action::StartConnection,
        Phase::AwaitingCapacity => Action::PollCapacity,
        Phase::AwaitingRequest => Action::PollQueue,
        Phase::Discarding { id } => Action::DropRequest { id },
        Phase::Dispatching { id, end_of_stream } => Action::SendRequest { id, end_of_stream },
        Phase::Rejecting { id } => Action::FailRequest { id },
        Phase::Spawning { id, end_of_stream } => Action::SpawnExchange { id, pipe_body: !end_of_stream },
        Phase::Parked { .. } => Action::Yield,
        Phase::Done => Action::Finish,
        Phase::Failed => Action::Fail,
    }
}

/// Whether `e` is a possible answer to the action of phase `p`.
pub open spec fn accepts(p: Phase, e: Event) -> bool {
    match p {
        Phase::Handshaking | Phase::AwaitingCapacity => e is Pending || e is Ready || e is Errored,
        Phase::AwaitingRequest => e is Pending || e is Item || e is Closed,
        Phase::Dispatching { .. } => e is Accepted || e is Rejected,
        _ => e is Resumed,
    }
}

/// The phase that follows phase `p` on event `e`.
pub open spec fn next(p: Phase, e: Event) -> Phase {
    match p {
        Phase::Handshaking => match e {
            Event::Pending => Phase::Parked { handshaking: true },
            Event::Ready => Phase::Connecting,
            _ => Phase::Failed,
        },
        Phase::AwaitingCapacity => match e {
            Event::Pending => Phase::Parked { handshaking: false },
            Event::Ready => Phase::AwaitingRequest,
            _ => Phase::Failed,
        },
        Phase::AwaitingRequest => match e {
            Event::Pending => Phase::Parked { handshaking: false },
            Event::Item { id, cancelled, end_of_stream } => if cancelled {
                Phase::Discarding { id }
            } else {
                Phase::Dispatching { id, end_of_stream }
            },
            _ => Phase::Done,
        },
        Phase::Dispatching { id, end_of_stream } => match e {
            Event::Accepted => Phase::Spawning { id, end_of_stream },
            _ => Phase::Rejecting { id },
        },
        Phase::Parked { handshaking } => if handshaking {
            Phase::Handshaking
        } else {
            Phase::AwaitingCapacity
        },
        Phase::Connecting | Phase::Discarding { .. } | Phase::Rejecting { .. } | Phase::Spawning {
            ..
        } => Phase::AwaitingCapacity,
        Phase::Done => Phase::Done,
        Phase::Failed => Phase::Failed,
    }
}

/// The connection driver.
pub struct Client {
    phase: Phase,
}

impl View for Client {
    type V = Phase;

    closed spec fn view(&self) -> Phase {
        self.phase
    }
}

impl Client {
    /// A driver for a connection whose handshake has just been started.
    pub fn new() -> (c: Client)
        ensures
            c@ == Phase::Handshaking,
    {
        Client { phase: Phase::Handshaking }
    }

    /// The current phase.
    pub fn phase(&self) -> (p: Phase)
        ensures
            p == self@,
    {
        self.phase
    }

    /// What the host is to do next.
    pub fn next_action(&self) -> (a: Action)
        ensures
            a == action_of(self@),
    {
        match self.phase {
            Phase::Handshaking => Action::PollHandshake,
            Phase::Connecting => Action::StartConnection,
            Phase::AwaitingCapacity => Action::PollCapacity,
            Phase::AwaitingRequest => Action::PollQueue,
            Phase::Discarding { id } => Action::DropRequest { id },
            Phase::Dispatching { id, end_of_stream } => Action::SendRequest { id, end_of_stream },
            Phase::Rejecting { id } => Action::FailRequest { id },
            Phase::Spawning { id, end_of_stream } => Action::SpawnExchange {
                id,
                pipe_body: !end_of_stream,
            },
            Phase::Parked { .. } => Action::Yield,
            Phase::Done => Action::Finish,
            Phase::Failed => Action::Fail,
        }
    }

    /// Whether `e` answers the action that the driver asked for.
    pub fn accepts(&self, e: Event) -> (r: bool)
        ensures
            r == accepts(self@, e),
    {
        match self.phase {
            Phase::Handshaking | Phase::AwaitingCapacity => match e {
                Event::Pending | Event::Ready | Event::Errored => true,
                _ => false,
            },
            Phase::AwaitingRequest => match e {
                Event::Pending | Event::Item { .. } | Event::Closed => true,
                _ => false,
            },
            Phase::Dispatching { .. } => match e {
                Event::Accepted | Event::Rejected => true,
                _ => false,
            },
            _ => match e {
                Event::Resumed => true,
                _ => false,
            },
        }
    }

    /// Takes the answer to the last action and returns the next action.
    pub fn step(&mut self, e: Event) -> (a: Action)
        requires
            accepts(old(self)@, e),
        ensures
            final(self)@ == next(old(self)@, e),
            a == action_of(final(self)@),
    {
        let p = match self.phase {
            Phase::Handshaking => match e {
                Event::Pending => Phase::Parked { handshaking: true },
                Event::Ready => Phase::Connecting,
                _ => Phase::Failed,
            },
            Phase::AwaitingCapacity => match e {
                Event::Pending => Phase::Parked { handshaking: false },
                Event::Ready => Phase::AwaitingRequest,
                _ => Phase::Failed,
            },
            Phase::AwaitingRequest => match e {
                Event::Pending => Phase::Parked { handshaking: false },
                Event::Item { id, cancelled, end_of_stream } => if cancelled {
                    Phase::Discarding { id }
                } else {
                    Phase::Dispatching { id, end_of_stream }
                },
                _ => Phase::Done,
            },
            Phase::Dispatching { id, end_of_stream } => match e {
                Event::Accepted => Phase::Spawning { id, end_of_stream },
                _ => Phase::Rejecting { id },
            },
            Phase::Parked { handshaking } => if handshaking {
                Phase::Handshaking
            } else {
                Phase::AwaitingCapacity
            },
            Phase::Connecting | Phase::Discarding { .. } | Phase::Rejecting { .. }
            | Phase::Spawning { .. } => Phase::AwaitingCapacity,
            Phase::Done => Phase::Done,
            Phase::Failed => Phase::Failed,
        };
        self.phase = p;
        self.next_action()
    }
}

} // verus!
