//! The bounded polling pass that stands in for streaming.
//!
//! One pass reads at most [`FRAME_CAP`] frames of a freshly opened response
//! stream, collects the content fragments in arrival order, and ends in a
//! list of notices: one per fragment, then exactly one terminal notice. A
//! pass keeps nothing for the next one: every pass starts from the first
//! frame of a new stream.

use vstd::prelude::*;
use crate::error::{description, BridgeError};
use crate::text::texts;

verus! {

/// The largest number of frames that one pass reads.
pub const FRAME_CAP: usize = 10;

/// What one choice of a frame carries.
#[derive(Debug, Clone, PartialEq, Eq)]
pub struct ChoiceDelta {
    /// The content fragment, if the choice has one.
    pub content: Option<String>,
    /// Whether the choice signals that the response is finished.
    pub finished: bool,
}

/// What a [`ChoiceDelta`] holds, as mathematical values.
pub struct DeltaView {
    pub content: Option<Seq<char>>,
    pub finished: bool,
}

impl View for ChoiceDelta {
    type V = DeltaView;

    open spec fn view(&self) -> DeltaView {
        DeltaView {
            content: match self.content {
                Some(text) => Some(text@),
                None => None,
            },
            finished: self.finished,
        }
    }
}

/// The views of a list of choices, in order.
pub open spec fn deltas(choices: Seq<ChoiceDelta>) -> Seq<DeltaView> {
    Seq::new(choices.len(), |i: int| choices[i]@)
}

/// What the stream yields when it is asked for its next frame.
#[derive(Debug, Clone, PartialEq, Eq)]
pub enum StreamEvent {
    /// A frame, with its choices in order.
    Frame(Vec<ChoiceDelta>),
    /// The stream has no further frame.
    End,
    /// The transport failed; the text says how.
    Failure(String),
}

/// What a [`StreamEvent`] holds, as mathematical values.
pub enum EventView {
    Frame(Seq<DeltaView>),
    End,
    Failure(Seq<char>),
}

impl View for StreamEvent {
    type V = EventView;

    open spec fn view(&self) -> EventView {
        match self {
            StreamEvent::Frame(choices) => EventView::Frame(deltas(choices@)),
            StreamEvent::End => EventView::End,
            StreamEvent::Failure(text) => EventView::Failure(text@),
        }
    }
}

/// The views of a list of events, in order.
pub open spec fn events_view(events: Seq<StreamEvent>) -> Seq<EventView> {
    Seq::new(events.len(), |i: int| events[i]@)
}

/// The state of a pass, as mathematical values.
pub struct PassView {
    /// How many frames were read.
    pub frames: nat,
    /// The fragments collected, in arrival order.
    pub fragments: Seq<Seq<char>>,
    /// Whether the response is known to be complete: a choice signalled its
    /// end, or the stream ran out.
    pub complete: bool,
    /// Whether the stream ran out.
    pub ended: bool,
    /// The description of the failure that stopped the pass, if one did.
    pub failure: Option<Seq<char>>,
}

/// The state in which every pass starts.
pub open spec fn fresh() -> PassView {
    PassView { frames: 0, fragments: Seq::empty(), complete: false, ended: false, failure: None }
}

/// Whether a pass in this state reads another frame.
pub open spec fn polling(state: PassView) -> bool {
    state.frames < FRAME_CAP && !state.ended && state.failure is None
}

/// The fragments of one frame: the content of each choice that has one, in
/// the order of the choices.
pub open spec fn frame_fragments(choices: Seq<DeltaView>) -> Seq<Seq<char>>
    decreases choices.len(),
{
    if choices.len() == 0 {
        Seq::empty()
    } else {
        match choices.last().content {
            Some(text) => frame_fragments(choices.drop_last()).push(text),
            None => frame_fragments(choices.drop_last()),
        }
    }
}

/// Whether a choice of the frame signals that the response is finished.
pub open spec fn frame_finished(choices: Seq<DeltaView>) -> bool {
    exists|i: int| 0 <= i < choices.len() && choices[i].finished
}

/// The description of a failure to open the stream.
pub open spec fn open_failure(text: Seq<char>) -> Seq<char> {
    "Failed to create stream: "@ + text
}

/// The description of a failure while reading the stream.
pub open spec fn read_failure(text: Seq<char>) -> Seq<char> {
    "Stream error: "@ + text
}

/// The state after the stream answered with `event`. A pass that no longer
/// polls ignores the event.
pub open spec fn advance(state: PassView, event: EventView) -> PassView {
    if !polling(state) {
        state
    } else {
        match event {
            EventView::Frame(choices) => PassView {
                frames: state.frames + 1,
                fragments: state.fragments + frame_fragments(choices),
                complete: state.complete || frame_finished(choices),
                ..state
            },
            EventView::End => PassView { complete: true, ended: true, ..state },
            EventView::Failure(text) => PassView { failure: Some(read_failure(text)), ..state },
        }
    }
}

/// The state after the stream answered with `events`, one after another.
pub open spec fn run(state: PassView, events: Seq<EventView>) -> PassView
    decreases events.len(),
{
    if events.len() == 0 {
        state
    } else {
        advance(run(state, events.drop_last()), events.last())
    }
}

/// A message for the caller, tagged with the caller's correlation token.
#[derive(Debug, Clone, PartialEq, Eq)]
pub enum Notice<T> {
    /// One content fragment.
    Chunk(String, T),
    /// The pass is over.
    Done(T),
    /// The pass failed; the text describes the failure.
    Error(String, T),
}

/// What a [`Notice`] holds, as mathematical values.
pub enum NoticeView<T> {
    Chunk(Seq<char>, T),
    Done(T),
    Error(Seq<char>, T),
}

impl<T> View for Notice<T> {
    type V = NoticeView<T>;

    open spec fn view(&self) -> NoticeView<T> {
        match self {
            Notice::Chunk(text, token) => NoticeView::Chunk(text@, *token),
            Notice::Done(token) => NoticeView::Done(*token),
            Notice::Error(text, token) => NoticeView::Error(text@, *token),
        }
    }
}

/// The views of a list of notices, in order.
pub open spec fn notices_view<T>(notices: Seq<Notice<T>>) -> Seq<NoticeView<T>> {
    Seq::new(notices.len(), |i: int| notices[i]@)
}

/// The notice that closes a pass: the failure if there was one, else done.
pub open spec fn terminal<T>(state: PassView, token: T) -> NoticeView<T> {
    match state.failure {
        Some(text) => NoticeView::Error(text, token),
        None => NoticeView::Done(token),
    }
}

/// What a pass delivers: each fragment as a chunk, in arrival order, and
/// then the terminal notice; all carry the token.
pub open spec fn delivery<T>(state: PassView, token: T) -> Seq<NoticeView<T>> {
    Seq::new(state.fragments.len(), |i: int| NoticeView::Chunk(state.fragments[i], token)).push(
        terminal(state, token),
    )
}

/// One polling pass over a response stream.
#[derive(Debug)]
pub struct PollPass {
    frames: usize,
    fragments: Vec<String>,
    complete: bool,
    ended: bool,
    failure: Option<String>,
}

impl View for PollPass {
    type V = PassView;

    closed spec fn view(&self) -> PassView {
        PassView {
            frames: self.frames as nat,
            fragments: texts(self.fragments@),
            complete: self.complete,
            ended: self.ended,
            failure: match self.failure {
                Some(text) => Some(text@),
                None => None,
            },
        }
    }
}

impl PollPass {
    /// A new pass: nothing read, nothing collected, whatever came before.
    pub fn start() -> (pass: PollPass)
        ensures
            pass@ == fresh(),
    {
        let fragments: Vec<String> = Vec::new();
        assert(texts(fragments@) =~= Seq::<Seq<char>>::empty());
        PollPass { frames: 0, fragments, complete: false, ended: false, failure: None }
    }

    /// A pass whose stream could not be opened: it reads nothing and ends in
    /// the failure.
    pub fn unopened(text: &str) -> (pass: PollPass)
        ensures
            pass@ == (PassView { failure: Some(open_failure(text@)), ..fresh() }),
    {
        let fragments: Vec<String> = Vec::new();
        assert(texts(fragments@) =~= Seq::<Seq<char>>::empty());
        let mut line = String::from_str("Failed to create stream: ");
        line.append(text);
        PollPass { frames: 0, fragments, complete: false, ended: false, failure: Some(line) }
    }

    /// A pass that never reached the stream because of `error`: it reads
    /// nothing and ends in the description of that failure.
    pub fn aborted(error: &BridgeError) -> (pass: PollPass)
        ensures
            pass@ == (PassView { failure: Some(description(error@)), ..fresh() }),
    {
        let fragments: Vec<String> = Vec::new();
        assert(texts(fragments@) =~= Seq::<Seq<char>>::empty());
        PollPass {
            frames: 0,
            fragments,
            complete: false,
            ended: false,
            failure: Some(error.describe()),
        }
    }

    /// Whether the pass reads another frame: it has read fewer than
    /// [`FRAME_CAP`], the stream has not run out, and nothing failed.
    pub fn wants_frame(&self) -> (wanted: bool)
        ensures
            wanted == polling(self@),
    {
        self.frames < FRAME_CAP && !self.ended && self.failure.is_none()
    }

    /// Whether the response is known to be complete.
    pub fn is_complete(&self) -> (complete: bool)
        ensures
            complete == self@.complete,
    {
        self.complete
    }

    /// How many frames the pass has read.
    pub fn frames_read(&self) -> (frames: usize)
        ensures
            frames == self@.frames,
    {
        self.frames
    }

    /// Takes what the stream answered. A frame adds its fragments in order
    /// and may complete the response; the end of the stream completes it; a
    /// failure stops the pass and keeps what was collected. A pass that no
    /// longer polls is left as it is.
    pub fn accept(&mut self, event: &StreamEvent)
        ensures
            final(self)@ == advance(old(self)@, event@),
    {
        if !self.wants_frame() {
            return ;
        }
        match event {
            StreamEvent::Frame(choices) => {
                let ghost before = self.fragments@;
                let mut finished = false;
                let mut i: usize = 0;
                while i < choices.len()
                    invariant
                        i <= choices.len(),
                        texts(self.fragments@) == texts(before) + frame_fragments(
                            deltas(choices@).take(i as int),
                        ),
                        finished == frame_finished(deltas(choices@).take(i as int)),
                        self.frames == old(self).frames,
                        self.complete == old(self).complete,
                        self.ended == old(self).ended,
                        self.failure == old(self).failure,
                    decreases choices.len() - i,
                {
                    let ghost seen = deltas(choices@).take(i as int);
                    let ghost next = deltas(choices@).take(i + 1);
                    proof {
                        assert(next.drop_last() =~= seen);
                    }
                    let ghost collected = self.fragments@;
                    match &choices[i].content {
                        Some(text) => {
                            self.fragments.push(text.clone());
                            proof {
                                assert(texts(self.fragments@) =~= texts(collected).push(text@));
                                assert(texts(self.fragments@) =~= texts(before) + frame_fragments(
                                    next,
                                ));
                            }
                        },
                        None => {},
                    }
                    if choices[i].finished {
                        finished = true;
                    }
                    i = i + 1;
                }
                proof {
                    assert(deltas(choices@).take(choices.len() as int) =~= deltas(choices@));
                }
                self.frames = self.frames + 1;
                if finished {
                    self.complete = true;
                }
            },
            StreamEvent::End => {
                self.complete = true;
                self.ended = true;
            },
            StreamEvent::Failure(text) => {
                let mut line = String::from_str("Stream error: ");
                line.append(text.as_str());
                self.failure = Some(line);
            },
        }
    }

    /// Ends the pass: the notices to deliver, in order. Each fragment comes
    /// as a chunk, then exactly one terminal notice, and every notice
    /// carries `token`.
    pub fn finish<T: Copy>(self, token: T) -> (notices: Vec<Notice<T>>)
        ensures
            notices_view(notices@) == delivery(self@, token),
            notices@.len() == self@.fragments.len() + 1,
    {
        let mut notices: Vec<Notice<T>> = Vec::new();
        let mut i: usize = 0;
        while i < self.fragments.len()
            invariant
                i <= self.fragments.len(),
                notices@.len() == i,
                forall|j: int|
                    0 <= j < i ==> notices@[j]@ == NoticeView::Chunk(self.fragments@[j]@, token),
            decreases self.fragments.len() - i,
        {
            notices.push(Notice::Chunk(self.fragments[i].clone(), token));
            i = i + 1;
        }
        match self.failure {
            Some(text) => notices.push(Notice::Error(text, token)),
            None => notices.push(Notice::Done(token)),
        }
        notices
    }
}

/// Runs one pass over a stream whose answers are already at hand: `events`
/// are what the stream yields, in order. Answers that the pass does not ask
/// for change nothing.
pub fn run_pass(events: &[StreamEvent]) -> (pass: PollPass)
    ensures
        pass@ == run(fresh(), events_view(events@)),
{
    let mut pass = PollPass::start();
    let mut i: usize = 0;
    while i < events.len()
        invariant
            i <= events.len(),
            pass@ == run(fresh(), events_view(events@).take(i as int)),
        decreases events.len() - i,
    {
        proof {
            let next = events_view(events@).take(i + 1);
            assert(next.drop_last() =~= events_view(events@).take(i as int));
        }
        pass.accept(&events[i]);
        i = i + 1;
    }
    proof {
        assert(events_view(events@).take(events.len() as int) =~= events_view(events@));
    }
    pass
}

/// A pass has read as many frames as the stream gave answers, or it has
/// stopped polling.
proof fn lemma_reads_or_stops(events: Seq<EventView>)
    ensures
        run(fresh(), events).frames == events.len() || !polling(run(fresh(), events)),
        run(fresh(), events).frames <= events.len(),
        run(fresh(), events).frames <= FRAME_CAP,
    decreases events.len(),
{
    if events.len() > 0 {
        lemma_reads_or_stops(events.drop_last());
    }
}

/// No pass reads more than [`FRAME_CAP`] frames, however long the stream.
pub proof fn lemma_frames_bounded(events: Seq<EventView>)
    ensures
        run(fresh(), events).frames <= FRAME_CAP,
{
    lemma_reads_or_stops(events);
}

/// A pass looks at the first [`FRAME_CAP`] answers of the stream and at no
/// other: a longer stream ends in the same state as its first answers do.
pub proof fn lemma_first_frames_only(events: Seq<EventView>)
    requires
        events.len() >= FRAME_CAP,
    ensures
        run(fresh(), events) == run(fresh(), events.take(FRAME_CAP as int)),
    decreases events.len(),
{
    if events.len() == FRAME_CAP {
        assert(events.take(FRAME_CAP as int) =~= events);
    } else {
        let front = events.drop_last();
        lemma_first_frames_only(front);
        lemma_reads_or_stops(front);
        assert(front.take(FRAME_CAP as int) =~= events.take(FRAME_CAP as int));
    }
}

/// What a pass has collected is never taken back: one more answer leaves
/// the fragments so far at the front, in their order.
pub proof fn lemma_fragments_grow(state: PassView, event: EventView)
    ensures
        advance(state, event).fragments.len() >= state.fragments.len(),
        advance(state, event).fragments.take(state.fragments.len() as int) == state.fragments,
        advance(state, event).frames >= state.frames,
{
    assert(advance(state, event).fragments.take(state.fragments.len() as int)
        =~= state.fragments);
}

/// Every pass starts at the first frame of its stream, whatever an earlier
/// pass has read: where the stream's first answer is a frame, that frame is
/// read, and its fragments are the first that the pass collects.
pub proof fn lemma_starts_at_first_frame(events: Seq<EventView>, choices: Seq<DeltaView>)
    requires
        events.len() > 0,
        events[0] == EventView::Frame(choices),
    ensures
        run(fresh(), events).frames >= 1,
        run(fresh(), events).fragments.len() >= frame_fragments(choices).len(),
        run(fresh(), events).fragments.take(frame_fragments(choices).len() as int)
            == frame_fragments(choices),
    decreases events.len(),
{
    let first = frame_fragments(choices);
    if events.len() == 1 {
        assert(events.drop_last().len() == 0);
        assert(run(fresh(), events) == advance(fresh(), events[0]));
        assert(run(fresh(), events).fragments =~= first);
    } else {
        let front = events.drop_last();
        lemma_starts_at_first_frame(front, choices);
        let before = run(fresh(), front);
        lemma_fragments_grow(before, events.last());
        let after = run(fresh(), events);
        assert(after.fragments.take(first.len() as int) =~= first) by {
            assert forall|i: int| 0 <= i < first.len() implies after.fragments[i] == first[i] by {
                assert(after.fragments.take(before.fragments.len() as int)[i]
                    == before.fragments[i]);
            }
        }
    }
}

/// Whether a frame carries at most `width` fragments.
pub open spec fn narrow(event: EventView, width: nat) -> bool {
    event matches EventView::Frame(choices) ==> frame_fragments(choices).len() <= width
}

/// Where no frame carries more than `width` fragments, a pass collects at
/// most `width` fragments for each frame read, and so at most `width` times
/// [`FRAME_CAP`]: with one fragment to a frame, at most [`FRAME_CAP`] chunks
/// come before the terminal notice.
pub proof fn lemma_chunks_bounded(events: Seq<EventView>, width: nat)
    requires
        forall|i: int| 0 <= i < events.len() ==> narrow(#[trigger] events[i], width),
    ensures
        run(fresh(), events).fragments.len() <= width * run(fresh(), events).frames,
        run(fresh(), events).fragments.len() <= width * FRAME_CAP,
    decreases events.len(),
{
    lemma_reads_or_stops(events);
    let after = run(fresh(), events);
    if events.len() > 0 {
        let front = events.drop_last();
        assert forall|i: int| 0 <= i < front.len() implies narrow(#[trigger] front[i], width) by {
        }
        lemma_chunks_bounded(front, width);
        let before = run(fresh(), front);
        assert(width * (before.frames + 1) == width * before.frames + width)
            by (nonlinear_arith);
    }
    assert(width * after.frames <= width * FRAME_CAP) by (nonlinear_arith)
        requires
            after.frames <= FRAME_CAP,
    ;
}

/// Whether a notice is a chunk.
pub open spec fn is_chunk<T>(notice: NoticeView<T>) -> bool {
    notice is Chunk
}

/// Every delivery is the collected fragments as chunks, in order, followed
/// by exactly one terminal notice: done or error, never both, never none.
/// Every notice carries the token.
pub proof fn lemma_one_terminal<T>(state: PassView, token: T)
    ensures
        delivery(state, token).len() == state.fragments.len() + 1,
        forall|i: int|
            0 <= i < state.fragments.len() ==> #[trigger] delivery(state, token)[i]
                == NoticeView::Chunk(state.fragments[i], token),
        delivery(state, token).last() == terminal(state, token),
        !is_chunk(delivery(state, token).last()),
        state.failure is None <==> delivery(state, token).last() == NoticeView::Done(token),
        state.failure is Some <==> delivery(state, token).last() is Error,
{
}

/// A failure keeps what was collected before it and stops the pass.
pub proof fn lemma_failure_keeps_fragments(state: PassView, text: Seq<char>)
    requires
        polling(state),
    ensures
        advance(state, EventView::Failure(text)).fragments == state.fragments,
        advance(state, EventView::Failure(text)).failure == Some(read_failure(text)),
        !polling(advance(state, EventView::Failure(text))),
{
}

} // verus!
