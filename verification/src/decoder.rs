//! The decoder of a generation: from the frames that answer one command to
//! the growing snapshots of the reply.
//!
//! `run` says what the decoder makes of a sequence of frames. The decoder
//! itself takes one frame at a time, and is proved to follow `run`.

use vstd::prelude::*;
use crate::connection::ConnectionError;
use crate::frame::{frame_views, CarriedTurn, DecodeError, InboundFrame, InboundFrameView};
use crate::requester::{Incoming, IncomingView, RequesterError, RequesterErrorView};
use crate::string_map::{lemma_map_entries, lemma_position, lookup, position, upsert, StringMap};
use crate::text::same_text;
use crate::types::chat::{candidate_views, Candidate, CandidateView, Turn, TurnView};

verus! {

/// Why a generation ended without its last snapshot.
#[derive(Debug, Clone)]
pub enum StreamError {
    /// The service refused, with this comment.
    GenerationError(String),
    /// The transport closed before the reply was complete.
    StreamTerminated,
    /// A text frame could not be read.
    Decode(DecodeError),
    /// The transport failed.
    Connection(ConnectionError),
}

/// The content of a [`StreamError`].
pub enum StreamErrorView {
    GenerationError(Seq<char>),
    StreamTerminated,
    Decode(DecodeError),
    Connection(ConnectionError),
}

impl View for StreamError {
    type V = StreamErrorView;

    open spec fn view(&self) -> StreamErrorView {
        match self {
            StreamError::GenerationError(c) => StreamErrorView::GenerationError(c@),
            StreamError::StreamTerminated => StreamErrorView::StreamTerminated,
            StreamError::Decode(e) => StreamErrorView::Decode(*e),
            StreamError::Connection(e) => StreamErrorView::Connection(*e),
        }
    }
}

/// What a generation fails with where its command could not be
/// dispatched: the failure of the connection that the failed call stands
/// for, and `NotConnected` where it stands for none.
pub open spec fn dispatch_failure(e: RequesterErrorView) -> StreamErrorView {
    StreamErrorView::Connection(
        match e.connection_kind() {
            Some(kind) => kind,
            None => ConnectionError::NotConnected,
        },
    )
}

impl StreamError {
    /// What a generation fails with where its command could not be
    /// dispatched.
    pub fn from_dispatch(e: &RequesterError) -> (r: Self)
        ensures
            r@ == dispatch_failure(e@),
    {
        match e.connection_kind() {
            Some(kind) => StreamError::Connection(kind),
            None => StreamError::Connection(ConnectionError::NotConnected),
        }
    }

    /// An owned copy.
    pub fn snapshot(&self) -> (r: Self)
        ensures
            r@ == self@,
    {
        match self {
            StreamError::GenerationError(c) => StreamError::GenerationError(c.clone()),
            StreamError::StreamTerminated => StreamError::StreamTerminated,
            StreamError::Decode(e) => StreamError::Decode(*e),
            StreamError::Connection(e) => StreamError::Connection(*e),
        }
    }
}

/// Whether a generation still reads frames, and how it ended if not.
pub enum StreamStatus {
    /// Frames are still read.
    Streaming,
    /// The newest snapshot showed a finished candidate.
    Final,
    /// The generation failed.
    Errored(StreamErrorView),
}

/// `base` with each entry of `adds` put in, in the order of `adds`.
pub open spec fn upsert_all(
    base: Seq<(Seq<char>, CandidateView)>,
    adds: Seq<(Seq<char>, CandidateView)>,
) -> Seq<(Seq<char>, CandidateView)>
    decreases adds.len(),
{
    if adds.len() == 0 {
        base
    } else {
        upsert(upsert_all(base, adds.drop_last()), adds.last().0, adds.last().1)
    }
}

/// The turn as it stands once `next` has arrived. Where `next` speaks of the
/// turn that is held, its candidates join or replace, by id, those gathered
/// so far, and everything else is as `next` says: also the primary
/// candidate, so that a primary candidate named before does not outlast a
/// frame that names none. Where `next` speaks of another turn, or none is
/// held, it is `next`.
pub open spec fn merge(held: Option<TurnView>, next: TurnView) -> TurnView {
    match held {
        Some(h) => if h.id == next.id {
            TurnView { candidates: upsert_all(h.candidates, next.candidates), ..next }
        } else {
            next
        },
        None => next,
    }
}

/// The candidate that a snapshot shows once the turn `arrived` has been
/// merged into it: the primary candidate where the arrived turn, and so the
/// snapshot, names one; else the candidate that `arrived` lists last, as it
/// stands in the snapshot.
pub open spec fn shown(now: TurnView, arrived: TurnView) -> Option<CandidateView> {
    now.shown_candidate(arrived.newest_id())
}

/// Whether a shown candidate is there and finished.
pub open spec fn finished(shown: Option<CandidateView>) -> bool {
    match shown {
        Some(c) => c.is_final,
        None => false,
    }
}

/// What the decoder has made of the frames so far.
pub struct StreamState {
    /// The turn that is held.
    pub held: Option<TurnView>,
    /// The snapshots handed out, oldest first.
    pub yielded: Seq<TurnView>,
    /// The candidate that each snapshot showed when it was handed out, in
    /// the same places.
    pub shown: Seq<Option<CandidateView>>,
    /// Whether frames are still read.
    pub status: StreamStatus,
    /// The number of frames read.
    pub consumed: nat,
}

impl StreamState {
    /// Before the first frame.
    pub open spec fn start() -> StreamState {
        StreamState {
            held: None,
            yielded: Seq::empty(),
            shown: Seq::empty(),
            status: StreamStatus::Streaming,
            consumed: 0,
        }
    }

    /// The state after one more frame.
    ///
    /// Once the generation has ended, no frame is read. Until then a frame
    /// counts as read, and: the turn of a human author is the echo of the
    /// caller's own message and is dropped, read or not; the turn of any
    /// other author is merged into the held turn and handed out, and ends
    /// the generation if the candidate it shows is finished; a turn of such
    /// an author that cannot be read fails the generation; a refusal fails
    /// it with its comment; any other frame is passed over.
    pub open spec fn step(self, frame: InboundFrameView) -> StreamState {
        if !(self.status is Streaming) {
            self
        } else {
            let read = StreamState { consumed: self.consumed + 1, ..self };
            match frame {
                InboundFrameView::NeoError { comment } => StreamState {
                    status: StreamStatus::Errored(StreamErrorView::GenerationError(comment)),
                    ..read
                },
                _ => match frame.carried() {
                    Some(carried) => if carried.author_is_human() {
                        read
                    } else {
                        match carried.turn() {
                            Some(turn) => {
                                let now = merge(self.held, turn);
                                StreamState {
                                    held: Some(now),
                                    yielded: self.yielded.push(now),
                                    shown: self.shown.push(shown(now, turn)),
                                    status: if finished(shown(now, turn)) {
                                        StreamStatus::Final
                                    } else {
                                        StreamStatus::Streaming
                                    },
                                    ..read
                                }
                            },
                            None => StreamState {
                                status: StreamStatus::Errored(
                                    StreamErrorView::Decode(DecodeError::MalformedTurn),
                                ),
                                ..read
                            },
                        }
                    },
                    None => read,
                },
            }
        }
    }

    /// The state after the transport has closed: a generation that was still
    /// reading has failed with `StreamTerminated`.
    pub open spec fn close(self) -> StreamState {
        if self.status is Streaming {
            StreamState {
                status: StreamStatus::Errored(StreamErrorView::StreamTerminated),
                ..self
            }
        } else {
            self
        }
    }

    /// The state after a failure that was not sent as a frame: a generation
    /// that was still reading has failed with it.
    pub open spec fn fail(self, error: StreamErrorView) -> StreamState {
        if self.status is Streaming {
            StreamState { status: StreamStatus::Errored(error), ..self }
        } else {
            self
        }
    }

    /// How the generation ended.
    pub open spec fn outcome(self) -> Result<(), StreamErrorView> {
        match self.close().status {
            StreamStatus::Errored(e) => Err(e),
            _ => Ok(()),
        }
    }
}

/// The state after a sequence of frames.
pub open spec fn run(frames: Seq<InboundFrameView>) -> StreamState
    decreases frames.len(),
{
    if frames.len() == 0 {
        StreamState::start()
    } else {
        run(frames.drop_last()).step(frames.last())
    }
}

/// What the decoder hands to its caller for one frame.
#[derive(Debug, Clone)]
pub enum DecodeStep {
    /// Nothing: the frame was dropped or passed over, or the generation had
    /// ended before.
    Nothing,
    /// A snapshot. With `last` set it shows a finished candidate, and the
    /// generation has ended.
    Yield { turn: Turn, last: bool },
    /// The generation has failed.
    Fail { error: StreamError },
}

/// The content of a [`DecodeStep`].
pub enum DecodeStepView {
    Nothing,
    Yield { turn: TurnView, last: bool },
    Fail { error: StreamErrorView },
}

impl View for DecodeStep {
    type V = DecodeStepView;

    open spec fn view(&self) -> DecodeStepView {
        match self {
            DecodeStep::Nothing => DecodeStepView::Nothing,
            DecodeStep::Yield { turn, last } => DecodeStepView::Yield { turn: turn@, last: *last },
            DecodeStep::Fail { error } => DecodeStepView::Fail { error: error@ },
        }
    }
}

/// What a frame brings out, by the states before and after it.
pub open spec fn emitted(before: StreamState, after: StreamState) -> DecodeStepView {
    if after.yielded.len() > before.yielded.len() {
        DecodeStepView::Yield { turn: after.yielded.last(), last: after.status is Final }
    } else if before.status is Streaming && after.status is Errored {
        DecodeStepView::Fail { error: after.status->Errored_0 }
    } else {
        DecodeStepView::Nothing
    }
}

/// The exec form of [`StreamStatus`].
enum Status {
    Streaming,
    Final,
    Errored(StreamError),
}

/// The decoder of one generation. It is fed the frames in the order of
/// their arrival and cannot be started again.
pub struct TurnStreamDecoder {
    held: Option<Turn>,
    status: Status,
    yielded: Ghost<Seq<TurnView>>,
    shown: Ghost<Seq<Option<CandidateView>>>,
    consumed: Ghost<nat>,
}

impl View for TurnStreamDecoder {
    type V = StreamState;

    closed spec fn view(&self) -> StreamState {
        StreamState {
            held: match self.held {
                Some(t) => Some(t@),
                None => None,
            },
            yielded: self.yielded@,
            shown: self.shown@,
            status: match self.status {
                Status::Streaming => StreamStatus::Streaming,
                Status::Final => StreamStatus::Final,
                Status::Errored(e) => StreamStatus::Errored(e@),
            },
            consumed: self.consumed@,
        }
    }
}

/// The held turn with the candidates of `next` put in. Exec form of `merge`.
fn merge_turns(held: Option<Turn>, next: Turn) -> (r: Turn)
    ensures
        r@ == merge(
            match held {
                Some(t) => Some(t@),
                None => None,
            },
            next@,
        ),
{
    match held {
        Some(h) => {
            if same_text(h.id.as_str(), next.id.as_str()) {
                let Turn { candidates: earlier, .. } = h;
                let mut merged: StringMap<Candidate> = earlier;
                let n = next.candidates.len();
                let mut i: usize = 0;
                let ghost base = candidate_views(merged@);
                let ghost adds = candidate_views(next.candidates@);
                assert(adds.take(0) =~= Seq::<(Seq<char>, CandidateView)>::empty());
                while i < n
                    invariant
                        i <= n,
                        n == next.candidates@.len(),
                        adds == candidate_views(next.candidates@),
                        candidate_views(merged@) == upsert_all(base, adds.take(i as int)),
                    decreases n - i,
                {
                    let key = next.candidates.key_at(i).clone();
                    let value = next.candidates.value_at(i).snapshot();
                    proof {
                        lemma_map_entries(merged@, |c: Candidate| c@, key@, value);
                        assert(adds.take(i + 1).drop_last() =~= adds.take(i as int));
                        assert(adds.take(i + 1).last() == (key@, value@));
                    }
                    merged.insert(key, value);
                    i += 1;
                }
                assert(adds.take(n as int) =~= adds);
                let Turn {
                    id,
                    chat_id,
                    create_time,
                    last_update_time,
                    state,
                    author_id,
                    author_name,
                    author_is_human,
                    primary_candidate_id,
                    candidates: _,
                } = next;
                Turn {
                    id,
                    chat_id,
                    create_time,
                    last_update_time,
                    state,
                    author_id,
                    author_name,
                    author_is_human,
                    primary_candidate_id,
                    candidates: merged,
                }
            } else {
                next
            }
        },
        None => next,
    }
}

impl TurnStreamDecoder {
    /// A decoder before its first frame.
    pub fn new() -> (r: Self)
        ensures
            r@ == StreamState::start(),
    {
        TurnStreamDecoder {
            held: None,
            status: Status::Streaming,
            yielded: Ghost(Seq::empty()),
            shown: Ghost(Seq::empty()),
            consumed: Ghost(0),
        }
    }

    /// Whether the generation has ended, and no further frame will be read.
    pub fn is_terminal(&self) -> (r: bool)
        ensures
            r == !(self@.status is Streaming),
    {
        match self.status {
            Status::Streaming => false,
            _ => true,
        }
    }

    /// Takes the next frame.
    pub fn on_frame(&mut self, frame: InboundFrame) -> (r: DecodeStep)
        ensures
            final(self)@ == old(self)@.step(frame@),
            r@ == emitted(old(self)@, final(self)@),
    {
        if self.is_terminal() {
            return DecodeStep::Nothing;
        }
        match frame {
            InboundFrame::NeoError { comment } => {
                self.consumed = Ghost(self.consumed@ + 1);
                let error = StreamError::GenerationError(comment);
                self.status = Status::Errored(error.snapshot());
                DecodeStep::Fail { error }
            },
            InboundFrame::AddTurn { turn } => self.on_turn(turn),
            InboundFrame::UpdateTurn { turn } => self.on_turn(turn),
            _ => {
                self.consumed = Ghost(self.consumed@ + 1);
                DecodeStep::Nothing
            },
        }
    }

    fn on_turn(&mut self, carried: CarriedTurn) -> (r: DecodeStep)
        requires
            old(self)@.status is Streaming,
        ensures
            final(self)@ == old(self)@.step(InboundFrameView::AddTurn { turn: carried@ }),
            r@ == emitted(old(self)@, final(self)@),
    {
        self.consumed = Ghost(self.consumed@ + 1);
        if carried.author_is_human() {
            return DecodeStep::Nothing;
        }
        let turn = match carried {
            CarriedTurn::Read(turn) => turn,
            CarriedTurn::Unread { author_is_human: _ } => {
                let error = StreamError::Decode(DecodeError::MalformedTurn);
                self.status = Status::Errored(error.snapshot());
                return DecodeStep::Fail { error };
            },
        };
        let ghost arrived = turn@;
        let newest = turn.newest_id();
        let mut held: Option<Turn> = None;
        core::mem::swap(&mut self.held, &mut held);
        let now = merge_turns(held, turn);
        let last = now.shows_final(&newest);
        let out = now.snapshot();
        self.yielded = Ghost(self.yielded@.push(now@));
        self.shown = Ghost(self.shown@.push(shown(now@, arrived)));
        self.held = Some(now);
        if last {
            self.status = Status::Final;
        }
        DecodeStep::Yield { turn: out, last }
    }

    /// Takes the news that the transport has closed. The answer is how the
    /// generation ended: well if its newest snapshot showed a finished
    /// candidate, and with `StreamTerminated` if it was still reading.
    pub fn on_close(&mut self) -> (r: Result<(), StreamError>)
        ensures
            final(self)@ == old(self)@.close(),
            match r {
                Ok(_) => old(self)@.outcome() is Ok,
                Err(e) => old(self)@.outcome() == Err::<(), StreamErrorView>(e@),
            },
    {
        match &self.status {
            Status::Streaming => {
                self.status = Status::Errored(StreamError::StreamTerminated);
                Err(StreamError::StreamTerminated)
            },
            Status::Final => Ok(()),
            Status::Errored(e) => Err(e.snapshot()),
        }
    }

    /// Takes a failure that did not come as a frame: a text that could not
    /// be read, or a dead transport.
    pub fn on_failure(&mut self, error: StreamError)
        ensures
            final(self)@ == old(self)@.fail(error@),
    {
        if !self.is_terminal() {
            self.status = Status::Errored(error);
        }
    }

    /// Takes whatever one read of the connection gave: see [`after`].
    pub fn on_incoming(&mut self, incoming: Incoming) -> (r: DecodeStep)
        ensures
            final(self)@ == after(old(self)@, incoming@),
            r@ == emitted(old(self)@, final(self)@),
    {
        match incoming {
            Incoming::Frame(frame) => self.on_frame(frame),
            Incoming::Undecodable(e) => self.failed(StreamError::Decode(e)),
            Incoming::Failed(_) => self.failed(
                StreamError::Connection(ConnectionError::ReadFailed),
            ),
            Incoming::Closed => self.failed(StreamError::StreamTerminated),
            Incoming::Skipped => DecodeStep::Nothing,
        }
    }

    fn failed(&mut self, error: StreamError) -> (r: DecodeStep)
        ensures
            final(self)@ == old(self)@.fail(error@),
            r@ == emitted(old(self)@, final(self)@),
    {
        if self.is_terminal() {
            DecodeStep::Nothing
        } else {
            self.status = Status::Errored(error.snapshot());
            DecodeStep::Fail { error }
        }
    }
}

/// The state after one read of the connection. A frame is taken as a
/// frame; a text that cannot be read and a failed read fail a generation
/// that is under way; the end of the stream fails it with
/// `StreamTerminated`; a skipped message changes nothing.
pub open spec fn after(state: StreamState, incoming: IncomingView) -> StreamState {
    match incoming {
        IncomingView::Frame(frame) => state.step(frame),
        IncomingView::Undecodable(e) => state.fail(StreamErrorView::Decode(e)),
        IncomingView::Failed(_) => state.fail(
            StreamErrorView::Connection(ConnectionError::ReadFailed),
        ),
        IncomingView::Closed => state.close(),
        IncomingView::Skipped => state,
    }
}

/// The contents of a list of turns.
pub open spec fn turn_views(turns: Seq<Turn>) -> Seq<TurnView> {
    turns.map_values(|t: Turn| t@)
}

/// Decodes the frames that answer one generation command, up to the frame
/// that ends the generation; the transport is taken to close after the last
/// of them. Returns the snapshots in their order, and how the generation
/// ended.
pub fn decode_all(frames: &Vec<InboundFrame>) -> (r: (Vec<Turn>, Result<(), StreamError>))
    ensures
        turn_views(r.0@) == run(frame_views(frames@)).yielded,
        match r.1 {
            Ok(_) => run(frame_views(frames@)).outcome() is Ok,
            Err(e) => run(frame_views(frames@)).outcome() == Err::<(), StreamErrorView>(e@),
        },
{
    let mut decoder = TurnStreamDecoder::new();
    let mut out: Vec<Turn> = Vec::new();
    let mut i: usize = 0;
    let ghost all = frame_views(frames@);
    assert(all.take(0) =~= Seq::<InboundFrameView>::empty());
    assert(turn_views(out@) =~= Seq::<TurnView>::empty());
    while i < frames.len() && !decoder.is_terminal()
        invariant
            i <= frames.len(),
            all == frame_views(frames@),
            decoder@ == run(all.take(i as int)),
            turn_views(out@) == decoder@.yielded,
        decreases frames.len() - i,
    {
        proof {
            lemma_run_next(all, i as int);
        }
        let ghost before = out@;
        match decoder.on_frame(frames[i].snapshot()) {
            DecodeStep::Yield { turn, last: _ } => {
                out.push(turn);
                assert(turn_views(out@) =~= turn_views(before).push(turn@));
            },
            _ => {},
        }
        i += 1;
    }
    proof {
        if i < frames.len() {
            lemma_nothing_after_the_end(all, i as int);
        } else {
            assert(all.take(i as int) =~= all);
        }
    }
    let end = decoder.on_close();
    (out, end)
}

/// The state after `n + 1` frames is one step from the state after `n`.
pub proof fn lemma_run_next(frames: Seq<InboundFrameView>, n: int)
    requires
        0 <= n < frames.len(),
    ensures
        run(frames.take(n + 1)) == run(frames.take(n)).step(frames[n]),
{
    assert(frames.take(n + 1).drop_last() =~= frames.take(n));
}

/// In arrival order, one for one: a frame that carries the turn of an author
/// who is not human, read while the generation is under way, adds exactly
/// one snapshot, after those handed out before. The snapshot is the held
/// turn with that frame merged in.
pub proof fn lemma_agent_frame_yields_once(frames: Seq<InboundFrameView>, i: int)
    requires
        0 <= i < frames.len(),
        frames[i].turn() is Some,
        !frames[i].turn()->Some_0.author_is_human,
        run(frames.take(i)).status is Streaming,
    ensures
        run(frames.take(i + 1)).yielded == run(frames.take(i)).yielded.push(
            merge(run(frames.take(i)).held, frames[i].turn()->Some_0),
        ),
{
    lemma_run_next(frames, i);
}

/// A sequence of turn frames of authors who are not human, none of which
/// completes the reply before the last, gives as many snapshots as frames:
/// the snapshot at each place belongs to the frame at that place.
pub proof fn lemma_one_snapshot_per_frame(frames: Seq<InboundFrameView>)
    requires
        forall|i: int|
            0 <= i < frames.len() ==> (#[trigger] frames[i]).turn() is Some
                && !frames[i].turn()->Some_0.author_is_human,
        forall|i: int| 0 <= i < frames.len() ==> #[trigger] run(frames.take(i)).status is Streaming,
    ensures
        run(frames).yielded.len() == frames.len(),
        forall|i: int|
            0 <= i < frames.len() ==> #[trigger] run(frames).yielded[i] == merge(
                run(frames.take(i)).held,
                frames[i].turn()->Some_0,
            ),
        forall|i: int|
            0 <= i < frames.len() ==> (#[trigger] run(frames).yielded[i]).id
                == frames[i].turn()->Some_0.id,
    decreases frames.len(),
{
    if frames.len() > 0 {
        let n = frames.len() - 1;
        let front = frames.drop_last();
        assert forall|i: int| 0 <= i < front.len() implies #[trigger] run(
            front.take(i),
        ).status is Streaming by {
            assert(front.take(i) =~= frames.take(i));
        }
        lemma_one_snapshot_per_frame(front);
        assert(frames.take(n) =~= front);
        assert(run(frames.take(n)).status is Streaming);
        assert forall|i: int| 0 <= i < frames.len() implies #[trigger] run(frames).yielded[i]
            == merge(run(frames.take(i)).held, frames[i].turn()->Some_0) by {
            if i < n {
                assert(front.take(i) =~= frames.take(i));
                assert(run(frames).yielded[i] == run(front).yielded[i]);
            }
        }
    }
}

/// The echo of the caller's own message brings out nothing: a frame that
/// carries the turn of a human author changes neither the snapshots nor the
/// held turn nor the status.
pub proof fn lemma_echo_yields_nothing(frames: Seq<InboundFrameView>, i: int)
    requires
        0 <= i < frames.len(),
        is_echo(frames[i]),
    ensures
        run(frames.take(i + 1)).yielded == run(frames.take(i)).yielded,
        run(frames.take(i + 1)).held == run(frames.take(i)).held,
        run(frames.take(i + 1)).status == run(frames.take(i)).status,
{
    lemma_run_next(frames, i);
}

/// Whether a frame is the echo of the caller's own message.
pub open spec fn is_echo(frame: InboundFrameView) -> bool {
    match frame.carried() {
        Some(carried) => carried.author_is_human(),
        None => false,
    }
}

/// Echoes make no difference: with every echo taken out, a sequence of
/// frames gives the same snapshots and ends the same way.
pub proof fn lemma_echoes_make_no_difference(frames: Seq<InboundFrameView>)
    ensures
        run(frames.filter(|f: InboundFrameView| !is_echo(f))).yielded == run(frames).yielded,
        run(frames.filter(|f: InboundFrameView| !is_echo(f))).held == run(frames).held,
        run(frames.filter(|f: InboundFrameView| !is_echo(f))).status == run(frames).status,
    decreases frames.len(),
{
    reveal(Seq::filter);
    if frames.len() > 0 {
        lemma_echoes_make_no_difference(frames.drop_last());
        let kept = frames.drop_last().filter(|f: InboundFrameView| !is_echo(f));
        if !is_echo(frames.last()) {
            assert(kept.push(frames.last()).drop_last() =~= kept);
        }
    }
}

/// Beside each snapshot stands the candidate that it showed. A snapshot
/// that names a primary candidate showed that one.
pub proof fn lemma_shown_beside_snapshots(frames: Seq<InboundFrameView>)
    ensures
        run(frames).shown.len() == run(frames).yielded.len(),
        forall|j: int|
            0 <= j < run(frames).yielded.len() && (#[trigger] run(
                frames,
            ).yielded[j]).primary_candidate_id is Some ==> run(frames).shown[j] == run(
                frames,
            ).yielded[j].primary_candidate(),
    decreases frames.len(),
{
    if frames.len() > 0 {
        lemma_shown_beside_snapshots(frames.drop_last());
    }
}

/// A generation ends well exactly when the candidate that its newest
/// snapshot shows is finished, and no snapshot before the newest showed a
/// finished candidate: it ends after, and only after, such a snapshot.
pub proof fn lemma_ends_at_complete_snapshot(frames: Seq<InboundFrameView>)
    ensures
        run(frames).shown.len() == run(frames).yielded.len(),
        run(frames).status is Final <==> run(frames).shown.len() > 0 && finished(
            run(frames).shown.last(),
        ),
        forall|j: int|
            0 <= j < run(frames).shown.len() - 1 ==> !finished(#[trigger] run(frames).shown[j]),
    decreases frames.len(),
{
    if frames.len() > 0 {
        lemma_ends_at_complete_snapshot(frames.drop_last());
    }
}

/// A generation ends at the first frame, read while it is under way, that
/// brings the readable turn of an author who is not human and shows a
/// finished candidate: that frame is the last one read, its snapshot is the
/// last one handed out, and whatever follows plays no part.
pub proof fn lemma_ends_at_first_complete_frame(frames: Seq<InboundFrameView>, k: int)
    requires
        0 <= k < frames.len(),
        run(frames.take(k)).status is Streaming,
        frames[k].turn() is Some,
        !frames[k].turn()->Some_0.author_is_human,
        finished(
            shown(
                merge(run(frames.take(k)).held, frames[k].turn()->Some_0),
                frames[k].turn()->Some_0,
            ),
        ),
    ensures
        run(frames).status is Final,
        run(frames).outcome() is Ok,
        run(frames).consumed == k + 1,
        run(frames).yielded == run(frames.take(k)).yielded.push(
            merge(run(frames.take(k)).held, frames[k].turn()->Some_0),
        ),
{
    lemma_run_next(frames, k);
    lemma_frames_read(frames.take(k));
    lemma_nothing_after_the_end(frames, k + 1);
}

/// Whatever is held, a turn that names no primary candidate and brings one
/// finished candidate shows that candidate, and so ends the generation.
pub proof fn lemma_single_finished_candidate_ends(held: Option<TurnView>, turn: TurnView)
    requires
        turn.primary_candidate_id is None,
        turn.candidates.len() == 1,
        turn.candidates[0].1.is_final,
    ensures
        finished(shown(merge(held, turn), turn)),
{
    let key = turn.candidates[0].0;
    let value = turn.candidates[0].1;
    assert(turn.candidates.drop_last() =~= Seq::<(Seq<char>, CandidateView)>::empty());
    match held {
        Some(h) => {
            if h.id == turn.id {
                assert(upsert_all(h.candidates, turn.candidates.drop_last()) == h.candidates);
                lemma_upsert_lookup(h.candidates, key, value);
            } else {
                lemma_position(turn.candidates, key);
            }
        },
        None => {
            lemma_position(turn.candidates, key);
        },
    }
}

/// After `upsert`, the key maps to the value, whatever the list held.
pub proof fn lemma_upsert_lookup(s: Seq<(Seq<char>, CandidateView)>, key: Seq<char>, value: CandidateView)
    ensures
        lookup(upsert(s, key, value), key) == Some(value),
{
    lemma_position(s, key);
    let p = position(s, key);
    let u = upsert(s, key, value);
    lemma_position(u, key);
    let q = position(u, key);
    assert(u[p] == (key, value));
    if q < p {
        assert(u[q].0 == s[q].0);
    }
}

/// Once a generation has ended, further frames change nothing: none is
/// read, and no snapshot is handed out.
pub proof fn lemma_nothing_after_the_end(frames: Seq<InboundFrameView>, n: int)
    requires
        0 <= n <= frames.len(),
        !(run(frames.take(n)).status is Streaming),
    ensures
        run(frames) == run(frames.take(n)),
    decreases frames.len(),
{
    if n == frames.len() {
        assert(frames.take(n) =~= frames);
    } else {
        let front = frames.drop_last();
        assert(front.take(n) =~= frames.take(n));
        lemma_nothing_after_the_end(front, n);
    }
}

/// While a generation is under way every frame has been read; at any time
/// no more frames have been read than have arrived.
pub proof fn lemma_frames_read(frames: Seq<InboundFrameView>)
    ensures
        run(frames).consumed <= frames.len(),
        run(frames).status is Streaming ==> run(frames).consumed == frames.len(),
    decreases frames.len(),
{
    if frames.len() > 0 {
        lemma_frames_read(frames.drop_last());
    }
}

/// A refusal read while the generation is under way ends it with a failure
/// that carries the comment of the refusal. The snapshots handed out before
/// stay as they are, and whatever follows the refusal is never read.
pub proof fn lemma_refusal_ends_generation(frames: Seq<InboundFrameView>, i: int)
    requires
        0 <= i < frames.len(),
        frames[i] is NeoError,
        run(frames.take(i)).status is Streaming,
    ensures
        run(frames).status == StreamStatus::Errored(
            StreamErrorView::GenerationError(frames[i]->NeoError_comment),
        ),
        run(frames).outcome() == Err::<(), StreamErrorView>(
            StreamErrorView::GenerationError(frames[i]->NeoError_comment),
        ),
        run(frames).yielded == run(frames.take(i)).yielded,
        run(frames).consumed == i + 1,
{
    lemma_run_next(frames, i);
    lemma_frames_read(frames.take(i));
    lemma_nothing_after_the_end(frames, i + 1);
}

} // verus!
