use vstd::prelude::*;

verus! {

/// Where the background connection task stands. The task races the session's
/// driving future against the closing of the shutdown sentinel, which closes
/// once every request-sending handle and every body pipe is gone.
#[derive(Clone, Copy, PartialEq, Eq, Structural, Debug)]
pub enum Background {
    /// The driving future is to be polled, the sentinel still open.
    Racing,
    /// The driving future is not done: the sentinel is to be polled.
    Watching,
    /// The sentinel closed: the driving future is polled until it completes.
    Draining,
    /// The task returned "not ready"; it resumes racing or draining.
    Parked { draining: bool },
    /// The driving future completed.
    Finished,
}

/// What the host is to do next on behalf of the background task.
#[derive(Clone, Copy, PartialEq, Eq, Structural, Debug)]
pub enum BackgroundAction {
    /// Poll the driving future; answer `Pending` or `Complete`.
    PollConnection,
    /// Poll the sentinel's receiver; answer `Pending` or `Closed`.
    PollSentinel,
    /// Return "not ready"; answer `Resumed` on the next poll.
    Yield,
    /// Return "done"; answer `Resumed` on any later poll.
    Complete,
}

/// What the host observed while carrying out a background action.
#[derive(Clone, Copy, PartialEq, Eq, Structural, Debug)]
pub enum Signal {
    /// The task is polled again.
    Resumed,
    /// The polled future is not ready.
    Pending,
    /// The driving future completed, with success or with an error.
    Complete,
    /// Every sender of the sentinel is gone.
    Closed,
}

/// The action that the background task asks for in phase `b`.
pub open spec fn background_action(b: Background) -> BackgroundAction {
    match b {
        Background::Racing | Background::Draining => BackgroundAction::PollConnection,
        Background::Watching => BackgroundAction::PollSentinel,
        Background::Parked { .. } => BackgroundAction::Yield,
        Background::Finished => BackgroundAction::Complete,
    }
}

/// Whether `s` is a possible answer to the action of phase `b`.
pub open spec fn background_accepts(b: Background, s: Signal) -> bool {
    match b {
        Background::Racing | Background::Draining => s is Pending || s is Complete,
        Background::Watching => s is Pending || s is Closed,
        _ => s is Resumed,
    }
}

/// The phase that follows phase `b` on signal `s`.
pub open spec fn background_next(b: Background, s: Signal) -> Background {
    match b {
        Background::Racing => if s is Complete {
            Background::Finished
        } else {
            Background::Watching
        },
        Background::Watching => if s is Closed {
            Background::Draining
        } else {
            Background::Parked { draining: false }
        },
        Background::Draining => if s is Complete {
            Background::Finished
        } else {
            Background::Parked { draining: true }
        },
        Background::Parked { draining } => if draining {
            Background::Draining
        } else {
            Background::Racing
        },
        Background::Finished => Background::Finished,
    }
}

/// The background connection task.
pub struct BackgroundTask {
    phase: Background,
}

impl View for BackgroundTask {
    type V = Background;

    closed spec fn view(&self) -> Background {
        self.phase
    }
}

impl BackgroundTask {
    /// A task whose driving future has not been polled yet.
    pub fn new() -> (t: BackgroundTask)
        ensures
            t@ == Background::Racing,
    {
        BackgroundTask { phase: Background::Racing }
    }

    /// The current phase.
    pub fn phase(&self) -> (b: Background)
        ensures
            b == self@,
    {
        self.phase
    }

    /// What the host is to do next.
    pub fn next_action(&self) -> (a: BackgroundAction)
        ensures
            a == background_action(self@),
    {
        match self.phase {
            Background::Racing | Background::Draining => BackgroundAction::PollConnection,
            Background::Watching => BackgroundAction::PollSentinel,
            Background::Parked { .. } => BackgroundAction::Yield,
            Background::Finished => BackgroundAction::Complete,
        }
    }

    /// Whether `s` answers the action that the task asked for.
    pub fn accepts(&self, s: Signal) -> (r: bool)
        ensures
            r == background_accepts(self@, s),
    {
        match self.phase {
            Background::Racing | Background::Draining => match s {
                Signal::Pending | Signal::Complete => true,
                _ => false,
            },
            Background::Watching => match s {
                Signal::Pending | Signal::Closed => true,
                _ => false,
            },
            _ => match s {
                Signal::Resumed => true,
                _ => false,
            },
        }
    }

    /// Takes the answer to the last action and returns the next action.
    pub fn step(&mut self, s: Signal) -> (a: BackgroundAction)
        requires
            background_accepts(old(self)@, s),
        ensures
            final(self)@ == background_next(old(self)@, s),
            a == background_action(final(self)@),
    {
        let b = match self.phase {
            Background::Racing => match s {
                Signal::Complete => Background::Finished,
                _ => Background::Watching,
            },
            Background::Watching => match s {
                Signal::Closed => Background::Draining,
                _ => Background::Parked { draining: false },
            },
            Background::Draining => match s {
                Signal::Complete => Background::Finished,
                _ => Background::Parked { draining: true },
            },
            Background::Parked { draining } => if draining {
                Background::Draining
            } else {
                Background::Racing
            },
            Background::Finished => Background::Finished,
        };
        self.phase = b;
        self.next_action()
    }
}

/// The phase reached from `b` after the signals `ss`, one by one.
pub open spec fn background_run(b: Background, ss: Seq<Signal>) -> Background
    decreases ss.len(),
{
    if ss.len() == 0 {
        b
    } else {
        background_next(background_run(b, ss.drop_last()), ss.last())
    }
}

/// Whether each signal of `ss` answers the action asked for before it.
pub open spec fn background_valid(b: Background, ss: Seq<Signal>) -> bool
    decreases ss.len(),
{
    ss.len() == 0 || (background_valid(b, ss.drop_last()) && background_accepts(
        background_run(b, ss.drop_last()),
        ss.last(),
    ))
}

/// The actions that the signals `ss` answer, in order.
pub open spec fn background_actions(b: Background, ss: Seq<Signal>) -> Seq<BackgroundAction>
    decreases ss.len(),
{
    if ss.len() == 0 {
        seq![]
    } else {
        background_actions(b, ss.drop_last()).push(
            background_action(background_run(b, ss.drop_last())),
        )
    }
}

/// Whether phase `b` is draining the connection after the sentinel closed.
pub open spec fn draining(b: Background) -> bool {
    b == Background::Draining || b == (Background::Parked { draining: true })
}

/// Once the sentinel has closed, the task keeps polling the driving future,
/// and nothing else, for as long as that future has not completed: the
/// connection is never abandoned mid-flight.
pub proof fn lemma_graceful_shutdown(ss: Seq<Signal>)
    requires
        background_valid(Background::Watching, seq![Signal::Closed] + ss),
        forall|i: int| 0 <= i < ss.len() ==> #[trigger] ss[i] != Signal::Complete,
    ensures
        background_next(Background::Watching, Signal::Closed) == Background::Draining,
        draining(background_run(Background::Draining, ss)),
        forall|i: int|
            0 <= i < background_actions(Background::Draining, ss).len() ==> {
                let a = #[trigger] background_actions(Background::Draining, ss)[i];
                a == BackgroundAction::PollConnection || a == BackgroundAction::Yield
            },
{
    lemma_background_prefix(Background::Watching, seq![Signal::Closed], ss);
    lemma_drain(ss);
}

proof fn lemma_drain(ss: Seq<Signal>)
    requires
        background_valid(Background::Draining, ss),
        forall|i: int| 0 <= i < ss.len() ==> #[trigger] ss[i] != Signal::Complete,
    ensures
        draining(background_run(Background::Draining, ss)),
        forall|i: int|
            0 <= i < background_actions(Background::Draining, ss).len() ==> {
                let a = #[trigger] background_actions(Background::Draining, ss)[i];
                a == BackgroundAction::PollConnection || a == BackgroundAction::Yield
            },
    decreases ss.len(),
{
    if ss.len() > 0 {
        let pre = ss.drop_last();
        assert forall|i: int| 0 <= i < pre.len() implies #[trigger] pre[i] != Signal::Complete by {
            assert(pre[i] == ss[i]);
        }
        lemma_drain(pre);
        assert(ss.last() != Signal::Complete);
    }
}

/// Running `pre + ss` from `b` is running `pre`, then `ss` from where `pre` ends.
proof fn lemma_background_prefix(b: Background, pre: Seq<Signal>, ss: Seq<Signal>)
    requires
        background_valid(b, pre + ss),
    ensures
        background_valid(b, pre),
        background_valid(background_run(b, pre), ss),
        background_run(b, pre + ss) == background_run(background_run(b, pre), ss),
    decreases ss.len(),
{
    if ss.len() == 0 {
        assert(pre + ss =~= pre);
    } else {
        let all = pre + ss;
        assert(all.drop_last() =~= pre + ss.drop_last());
        assert(all.last() == ss.last());
        lemma_background_prefix(b, pre, ss.drop_last());
    }
}

/// The task finishes only after the driving future has completed: whichever
/// way the race went, a run that never saw completion has not finished.
pub proof fn lemma_finish_needs_completion(b: Background, ss: Seq<Signal>)
    requires
        b != Background::Finished,
        background_run(b, ss) == Background::Finished,
    ensures
        exists|i: int| 0 <= i < ss.len() && #[trigger] ss[i] == Signal::Complete,
    decreases ss.len(),
{
    let pre = ss.drop_last();
    if background_run(b, pre) == Background::Finished {
        lemma_finish_needs_completion(b, pre);
        let i = choose|i: int| 0 <= i < pre.len() && #[trigger] pre[i] == Signal::Complete;
        assert(ss[i] == pre[i]);
    } else {
        assert(ss[ss.len() - 1] == Signal::Complete);
    }
}

} // verus!
