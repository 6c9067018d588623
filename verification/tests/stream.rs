use alchemind_openai::error::BridgeError;
use alchemind_openai::stream::{run_pass, ChoiceDelta, Notice, PollPass, StreamEvent, FRAME_CAP};

fn delta(content: &str) -> ChoiceDelta {
    ChoiceDelta { content: Some(content.to_string()), finished: false }
}

fn frame(content: &str) -> StreamEvent {
    StreamEvent::Frame(vec![delta(content)])
}

fn last_frame() -> StreamEvent {
    StreamEvent::Frame(vec![ChoiceDelta { content: None, finished: true }])
}

fn chunk(content: &str, token: u64) -> Notice<u64> {
    Notice::Chunk(content.to_string(), token)
}

fn numbered(count: usize) -> Vec<StreamEvent> {
    (1..=count).map(|n| frame(&format!("f{}", n))).collect()
}

fn terminals<T>(notices: &[Notice<T>]) -> usize {
    notices.iter().filter(|n| !matches!(n, Notice::Chunk(..))).count()
}

#[test]
fn cap_is_ten_frames() {
    assert_eq!(FRAME_CAP, 10);
}

#[test]
fn twelve_frames_give_ten_chunks_and_one_terminal() {
    let pass = run_pass(&numbered(12));
    assert_eq!(pass.frames_read(), 10);
    assert!(!pass.wants_frame());
    assert!(!pass.is_complete());
    let notices = pass.finish(77u64);
    assert_eq!(notices.len(), 11);
    for (i, notice) in notices.iter().take(10).enumerate() {
        assert_eq!(*notice, chunk(&format!("f{}", i + 1), 77));
    }
    assert_eq!(notices[10], Notice::Done(77));
    assert_eq!(terminals(&notices), 1);
}

#[test]
fn second_pass_restarts_from_the_first_frame() {
    let first = run_pass(&numbered(12)).finish(1u64);
    let second = run_pass(&numbered(12)).finish(1u64);
    assert_eq!(first, second);
    assert_eq!(second[0], chunk("f1", 1));
    let fresh = PollPass::start();
    assert_eq!(fresh.frames_read(), 0);
    assert!(fresh.wants_frame());
    assert_eq!(fresh.finish(1u64), vec![Notice::Done(1)]);
}

#[test]
fn pass_driven_by_hand_stops_asking_at_the_cap() {
    let stream = numbered(12);
    let mut next = 0;
    let mut pass = PollPass::start();
    while pass.wants_frame() {
        pass.accept(&stream[next]);
        next += 1;
    }
    assert_eq!(next, 10);
    assert_eq!(pass.finish(0u8).len(), 11);
}

#[test]
fn stream_that_runs_out_is_done() {
    let pass = run_pass(&[frame("a"), frame("b"), StreamEvent::End, frame("late")]);
    assert_eq!(pass.frames_read(), 2);
    assert!(pass.is_complete());
    assert_eq!(pass.finish(5u64), vec![chunk("a", 5), chunk("b", 5), Notice::Done(5)]);
}

#[test]
fn empty_stream_is_done_without_chunks() {
    assert_eq!(run_pass(&[StreamEvent::End]).finish(3u64), vec![Notice::Done(3)]);
    assert_eq!(run_pass(&[]).finish(3u64), vec![Notice::Done(3)]);
}

#[test]
fn finish_reason_completes_but_reading_goes_on() {
    let pass = run_pass(&[frame("a"), last_frame(), frame("b"), StreamEvent::End]);
    assert!(pass.is_complete());
    assert_eq!(pass.frames_read(), 3);
    assert_eq!(pass.finish(9u64), vec![chunk("a", 9), chunk("b", 9), Notice::Done(9)]);
}

#[test]
fn failure_delivers_what_was_collected_and_then_the_error() {
    let pass = run_pass(&[
        frame("a"),
        frame("b"),
        StreamEvent::Failure("connection reset".to_string()),
        frame("never"),
    ]);
    assert!(!pass.wants_frame());
    assert!(!pass.is_complete());
    let notices = pass.finish(4u64);
    assert_eq!(
        notices,
        vec![
            chunk("a", 4),
            chunk("b", 4),
            Notice::Error("Stream error: connection reset".to_string(), 4),
        ]
    );
    assert_eq!(terminals(&notices), 1);
}

#[test]
fn failure_after_a_finish_reason_is_still_an_error() {
    let pass = run_pass(&[last_frame(), StreamEvent::Failure("x".to_string())]);
    assert!(pass.is_complete());
    assert_eq!(pass.finish(0u64), vec![Notice::Error("Stream error: x".to_string(), 0)]);
}

#[test]
fn frame_with_several_choices_gives_their_fragments_in_order() {
    let event = StreamEvent::Frame(vec![
        delta("x"),
        ChoiceDelta { content: None, finished: false },
        ChoiceDelta { content: Some("y".to_string()), finished: true },
        delta(""),
    ]);
    let pass = run_pass(&[event]);
    assert!(pass.is_complete());
    assert_eq!(pass.frames_read(), 1);
    assert_eq!(
        pass.finish(2u64),
        vec![chunk("x", 2), chunk("y", 2), chunk("", 2), Notice::Done(2)]
    );
}

#[test]
fn frame_without_choices_counts_as_a_frame() {
    let events: Vec<StreamEvent> = (0..11).map(|_| StreamEvent::Frame(vec![])).collect();
    let pass = run_pass(&events);
    assert_eq!(pass.frames_read(), 10);
    assert_eq!(pass.finish(0u64), vec![Notice::Done(0)]);
}

#[test]
fn tenth_answer_may_be_the_end() {
    let mut events = numbered(9);
    events.push(StreamEvent::End);
    let pass = run_pass(&events);
    assert_eq!(pass.frames_read(), 9);
    assert!(pass.is_complete());
    assert_eq!(pass.finish(0u64).len(), 10);
}

#[test]
fn eleventh_answer_is_not_looked_at() {
    let mut events = numbered(10);
    events.push(StreamEvent::Failure("late".to_string()));
    let notices = run_pass(&events).finish(0u64);
    assert_eq!(notices.len(), 11);
    assert_eq!(notices[10], Notice::Done(0));
}

#[test]
fn stream_that_cannot_be_opened_is_an_error_without_chunks() {
    let pass = PollPass::unopened("http error: 401");
    assert!(!pass.wants_frame());
    assert_eq!(pass.frames_read(), 0);
    assert_eq!(
        pass.finish(8u64),
        vec![Notice::Error("Failed to create stream: http error: 401".to_string(), 8)]
    );
}

#[test]
fn pass_that_never_reached_the_stream_reports_the_failure() {
    let mut pass = PollPass::aborted(&BridgeError::Lock("poisoned".to_string()));
    assert!(!pass.wants_frame());
    pass.accept(&frame("ignored"));
    assert_eq!(
        pass.finish(6u64),
        vec![Notice::Error("Failed to lock client: poisoned".to_string(), 6)]
    );
}

#[test]
fn accept_after_the_end_changes_nothing() {
    let mut pass = PollPass::start();
    pass.accept(&frame("a"));
    pass.accept(&StreamEvent::End);
    pass.accept(&frame("b"));
    pass.accept(&StreamEvent::Failure("x".to_string()));
    assert_eq!(pass.frames_read(), 1);
    assert_eq!(pass.finish(0u64), vec![chunk("a", 0), Notice::Done(0)]);
}
