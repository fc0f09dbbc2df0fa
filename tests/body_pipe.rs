use h2_client_conn::{BodyPipe, Pipe, PipeAction, PipeEvent, Resume};

fn feed(p: &mut BodyPipe, e: PipeEvent) -> PipeAction {
    assert!(p.accepts(e), "{:?} does not answer {:?}", e, p.next_action());
    p.step(e)
}

#[test]
fn chunks_then_end_of_stream() {
    let mut p = BodyPipe::new();
    assert_eq!(p.next_action(), PipeAction::ReserveCapacity);
    assert_eq!(feed(&mut p, PipeEvent::Ready), PipeAction::PollData);
    assert_eq!(
        feed(&mut p, PipeEvent::Chunk { last: false }),
        PipeAction::SendData { end_of_stream: false }
    );
    assert_eq!(feed(&mut p, PipeEvent::Sent), PipeAction::ReserveCapacity);
    assert_eq!(feed(&mut p, PipeEvent::Ready), PipeAction::PollData);
    assert_eq!(
        feed(&mut p, PipeEvent::Chunk { last: true }),
        PipeAction::SendData { end_of_stream: true }
    );
    assert_eq!(feed(&mut p, PipeEvent::Sent), PipeAction::Complete);
    assert_eq!(p.phase(), Pipe::Finished);
}

#[test]
fn exhausted_body_sends_trailers() {
    let mut p = BodyPipe::new();
    feed(&mut p, PipeEvent::Ready);
    assert_eq!(
        feed(&mut p, PipeEvent::Exhausted { end_of_stream: false }),
        PipeAction::PollTrailers
    );
    assert_eq!(feed(&mut p, PipeEvent::Pending), PipeAction::Yield);
    assert_eq!(p.phase(), Pipe::Parked { resume: Resume::AwaitingTrailers });
    assert_eq!(feed(&mut p, PipeEvent::Resumed), PipeAction::PollTrailers);
    assert_eq!(feed(&mut p, PipeEvent::Trailers), PipeAction::SendTrailers);
    assert_eq!(feed(&mut p, PipeEvent::Sent), PipeAction::Complete);
}

#[test]
fn exhausted_without_trailers_sends_end() {
    let mut p = BodyPipe::new();
    feed(&mut p, PipeEvent::Ready);
    assert_eq!(feed(&mut p, PipeEvent::Exhausted { end_of_stream: true }), PipeAction::SendEnd);
    assert_eq!(feed(&mut p, PipeEvent::Sent), PipeAction::Complete);
    let mut p = BodyPipe::new();
    feed(&mut p, PipeEvent::Ready);
    feed(&mut p, PipeEvent::Exhausted { end_of_stream: false });
    assert_eq!(feed(&mut p, PipeEvent::NoTrailers), PipeAction::SendEnd);
}

#[test]
fn backpressure_parks_and_resumes() {
    let mut p = BodyPipe::new();
    assert_eq!(feed(&mut p, PipeEvent::Pending), PipeAction::Yield);
    assert_eq!(feed(&mut p, PipeEvent::Resumed), PipeAction::ReserveCapacity);
    feed(&mut p, PipeEvent::Ready);
    assert_eq!(feed(&mut p, PipeEvent::Pending), PipeAction::Yield);
    assert_eq!(feed(&mut p, PipeEvent::Resumed), PipeAction::PollData);
}

#[test]
fn reset_breaks_the_pipe() {
    let mut p = BodyPipe::new();
    feed(&mut p, PipeEvent::Ready);
    feed(&mut p, PipeEvent::Chunk { last: false });
    assert_eq!(feed(&mut p, PipeEvent::Failed), PipeAction::Fail);
    assert_eq!(p.phase(), Pipe::Broken);
    assert_eq!(feed(&mut p, PipeEvent::Resumed), PipeAction::Fail);
    let mut p = BodyPipe::new();
    assert_eq!(feed(&mut p, PipeEvent::Failed), PipeAction::Fail);
}
