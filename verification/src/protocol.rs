//! The two commands that are answered by a handful of frames: opening a
//! conversation, and choosing the shown candidate of a turn.
//!
//! For each, a function on sequences says what a sequence of frames amounts
//! to, and a reader that takes one frame at a time is proved to follow it.

use vstd::prelude::*;
use crate::connection::ConnectionError;
use crate::frame::{frame_views, CarriedTurn, DecodeError, InboundFrame, InboundFrameView};
use crate::requester::{Incoming, IncomingView};
use crate::types::chat::{Chat, ChatView, Turn, TurnView};

verus! {

/// Why a command did not come to its answer.
#[derive(Debug, Clone)]
pub enum ProtocolError {
    /// The frames ended before a required one had arrived.
    Incomplete,
    /// The service refused, with this comment.
    Refused(String),
    /// A text frame could not be read.
    Decode(DecodeError),
    /// The transport failed.
    Connection(ConnectionError),
}

/// The content of a [`ProtocolError`].
pub enum ProtocolErrorView {
    Incomplete,
    Refused(Seq<char>),
    Decode(DecodeError),
    Connection(ConnectionError),
}

impl View for ProtocolError {
    type V = ProtocolErrorView;

    open spec fn view(&self) -> ProtocolErrorView {
        match self {
            ProtocolError::Incomplete => ProtocolErrorView::Incomplete,
            ProtocolError::Refused(c) => ProtocolErrorView::Refused(c@),
            ProtocolError::Decode(e) => ProtocolErrorView::Decode(*e),
            ProtocolError::Connection(e) => ProtocolErrorView::Connection(*e),
        }
    }
}

/// Whether a reader still reads frames.
pub enum ReadStatus {
    /// Frames are still read.
    Reading,
    /// The frame that ends the reading has arrived.
    Done,
    /// The command failed.
    Failed(ProtocolErrorView),
}

/// What the reader of `create_chat` has made of the frames so far.
pub struct CreateChatState {
    /// Whether the caller waits for the greeting.
    pub want_greeting: bool,
    /// The confirmed conversation.
    pub chat: Option<ChatView>,
    /// The greeting.
    pub greeting: Option<TurnView>,
    /// Whether frames are still read.
    pub status: ReadStatus,
    /// The number of frames read.
    pub consumed: nat,
}

/// What `create_chat` returns.
pub type CreateChatOutcome = Result<(ChatView, Option<TurnView>), ProtocolErrorView>;

impl CreateChatState {
    /// Before the first frame.
    pub open spec fn start(want_greeting: bool) -> CreateChatState {
        CreateChatState {
            want_greeting,
            chat: None,
            greeting: None,
            status: ReadStatus::Reading,
            consumed: 0,
        }
    }

    /// The state after one more frame.
    ///
    /// Once the reading has ended, no frame is read. Until then: the first
    /// confirmation gives the conversation, and ends the reading unless the
    /// greeting is waited for; a new turn of an author who is not human is
    /// the greeting and ends the reading, and fails the command where it
    /// cannot be read; a refusal fails the command with its comment; any
    /// other frame, the new turn of a human author and a changed turn among
    /// them, is passed over.
    pub open spec fn step(self, frame: InboundFrameView) -> CreateChatState {
        if !(self.status is Reading) {
            self
        } else {
            let read = CreateChatState { consumed: self.consumed + 1, ..self };
            match frame {
                InboundFrameView::CreateChatResponse { chat } => CreateChatState {
                    chat: if self.chat is None {
                        Some(chat)
                    } else {
                        self.chat
                    },
                    status: if self.want_greeting {
                        ReadStatus::Reading
                    } else {
                        ReadStatus::Done
                    },
                    ..read
                },
                InboundFrameView::AddTurn { turn } => if turn.author_is_human() {
                    read
                } else {
                    match turn.turn() {
                        Some(greeting) => CreateChatState {
                            greeting: Some(greeting),
                            status: ReadStatus::Done,
                            ..read
                        },
                        None => CreateChatState {
                            status: ReadStatus::Failed(
                                ProtocolErrorView::Decode(DecodeError::MalformedTurn),
                            ),
                            ..read
                        },
                    }
                },
                InboundFrameView::NeoError { comment } => CreateChatState {
                    status: ReadStatus::Failed(ProtocolErrorView::Refused(comment)),
                    ..read
                },
                _ => read,
            }
        }
    }

    /// The state after a failure that was not sent as a frame.
    pub open spec fn fail(self, error: ProtocolErrorView) -> CreateChatState {
        if self.status is Reading {
            CreateChatState { status: ReadStatus::Failed(error), ..self }
        } else {
            self
        }
    }

    /// What the command returns once the reading has ended or the frames
    /// have: the failure if there was one; `Incomplete` if the conversation
    /// was never confirmed, or the greeting was waited for and never came;
    /// else the conversation, with the greeting if one came.
    pub open spec fn outcome(self) -> CreateChatOutcome {
        match self.status {
            ReadStatus::Failed(e) => Err(e),
            _ => match self.chat {
                Some(chat) => if self.want_greeting && self.greeting is None {
                    Err(ProtocolErrorView::Incomplete)
                } else {
                    Ok((chat, self.greeting))
                },
                None => Err(ProtocolErrorView::Incomplete),
            },
        }
    }
}

/// The state of `create_chat` after one read of the connection, and whether
/// the stream has ended under it. A frame is taken as a frame; a text that
/// cannot be read and a failed read fail the command; the end of the stream
/// leaves the state as it is; a skipped message changes nothing.
pub open spec fn after_read(state: CreateChatState, incoming: IncomingView) -> (
    CreateChatState,
    bool,
) {
    match incoming {
        IncomingView::Frame(frame) => (state.step(frame), false),
        IncomingView::Undecodable(e) => (state.fail(ProtocolErrorView::Decode(e)), true),
        IncomingView::Failed(_) => (
            state.fail(ProtocolErrorView::Connection(ConnectionError::ReadFailed)),
            true,
        ),
        IncomingView::Closed => (state, true),
        IncomingView::Skipped => (state, false),
    }
}

/// The state of `create_chat` after a sequence of frames.
pub open spec fn run_create_chat(
    want_greeting: bool,
    frames: Seq<InboundFrameView>,
) -> CreateChatState
    decreases frames.len(),
{
    if frames.len() == 0 {
        CreateChatState::start(want_greeting)
    } else {
        run_create_chat(want_greeting, frames.drop_last()).step(frames.last())
    }
}

/// The content of what `create_chat` returns.
pub open spec fn create_chat_view(r: Result<(Chat, Option<Turn>), ProtocolError>) -> CreateChatOutcome {
    match r {
        Ok((chat, greeting)) => Ok(
            (
                chat@,
                match greeting {
                    Some(t) => Some(t@),
                    None => None,
                },
            ),
        ),
        Err(e) => Err(e@),
    }
}

enum Status {
    Reading,
    Done,
    Failed(ProtocolError),
}

/// The reader of the frames that answer `create_chat`.
pub struct CreateChatReader {
    want_greeting: bool,
    chat: Option<Chat>,
    greeting: Option<Turn>,
    status: Status,
    consumed: Ghost<nat>,
}

impl View for CreateChatReader {
    type V = CreateChatState;

    closed spec fn view(&self) -> CreateChatState {
        CreateChatState {
            want_greeting: self.want_greeting,
            chat: match self.chat {
                Some(c) => Some(c@),
                None => None,
            },
            greeting: match self.greeting {
                Some(t) => Some(t@),
                None => None,
            },
            status: match self.status {
                Status::Reading => ReadStatus::Reading,
                Status::Done => ReadStatus::Done,
                Status::Failed(e) => ReadStatus::Failed(e@),
            },
            consumed: self.consumed@,
        }
    }
}

impl CreateChatReader {
    /// A reader before its first frame.
    pub fn new(want_greeting: bool) -> (r: Self)
        ensures
            r@ == CreateChatState::start(want_greeting),
    {
        CreateChatReader {
            want_greeting,
            chat: None,
            greeting: None,
            status: Status::Reading,
            consumed: Ghost(0),
        }
    }

    /// Whether the reading has ended, and no further frame will be read.
    pub fn is_terminal(&self) -> (r: bool)
        ensures
            r == !(self@.status is Reading),
    {
        match self.status {
            Status::Reading => false,
            _ => true,
        }
    }

    /// Takes the next frame, and says whether the reading has ended.
    pub fn on_frame(&mut self, frame: InboundFrame) -> (r: bool)
        ensures
            final(self)@ == old(self)@.step(frame@),
            r == !(final(self)@.status is Reading),
    {
        if self.is_terminal() {
            return true;
        }
        self.consumed = Ghost(self.consumed@ + 1);
        match frame {
            InboundFrame::CreateChatResponse { chat } => {
                if self.chat.is_none() {
                    self.chat = Some(chat);
                }
                if !self.want_greeting {
                    self.status = Status::Done;
                }
            },
            InboundFrame::AddTurn { turn } => {
                if !turn.author_is_human() {
                    match turn {
                        CarriedTurn::Read(greeting) => {
                            self.greeting = Some(greeting);
                            self.status = Status::Done;
                        },
                        CarriedTurn::Unread { author_is_human: _ } => {
                            self.status = Status::Failed(
                                ProtocolError::Decode(DecodeError::MalformedTurn),
                            );
                        },
                    }
                }
            },
            InboundFrame::NeoError { comment } => {
                self.status = Status::Failed(ProtocolError::Refused(comment));
            },
            _ => {},
        }
        self.is_terminal()
    }

    /// Takes a failure that did not come as a frame: a text that could not
    /// be read, or a dead transport.
    pub fn on_failure(&mut self, error: ProtocolError)
        ensures
            final(self)@ == old(self)@.fail(error@),
    {
        if !self.is_terminal() {
            self.status = Status::Failed(error);
        }
    }

    /// Takes whatever one read of the connection gave, and says whether
    /// the reading has ended: see [`after_read`].
    pub fn on_incoming(&mut self, incoming: Incoming) -> (r: bool)
        ensures
            final(self)@ == after_read(old(self)@, incoming@).0,
            r == (after_read(old(self)@, incoming@).1 || !(final(self)@.status is Reading)),
    {
        match incoming {
            Incoming::Frame(frame) => self.on_frame(frame),
            Incoming::Undecodable(e) => {
                self.on_failure(ProtocolError::Decode(e));
                true
            },
            Incoming::Failed(_) => {
                self.on_failure(ProtocolError::Connection(ConnectionError::ReadFailed));
                true
            },
            Incoming::Closed => true,
            Incoming::Skipped => self.is_terminal(),
        }
    }

    /// What the command returns, once the reading has ended or the
    /// transport has closed.
    pub fn finish(self) -> (r: Result<(Chat, Option<Turn>), ProtocolError>)
        ensures
            create_chat_view(r) == self@.outcome(),
    {
        let CreateChatReader { want_greeting, chat, greeting, status, consumed: _ } = self;
        match status {
            Status::Failed(e) => Err(e),
            _ => match chat {
                Some(c) => if want_greeting && greeting.is_none() {
                    Err(ProtocolError::Incomplete)
                } else {
                    Ok((c, greeting))
                },
                None => Err(ProtocolError::Incomplete),
            },
        }
    }
}

/// Reads the frames that answer `create_chat`, up to the frame that ends the
/// reading; the transport is taken to close after the last of them.
pub fn read_create_chat(want_greeting: bool, frames: &Vec<InboundFrame>) -> (r: Result<
    (Chat, Option<Turn>),
    ProtocolError,
>)
    ensures
        create_chat_view(r) == run_create_chat(want_greeting, frame_views(frames@)).outcome(),
{
    let mut reader = CreateChatReader::new(want_greeting);
    let mut i: usize = 0;
    let ghost all = frame_views(frames@);
    assert(all.take(0) =~= Seq::<InboundFrameView>::empty());
    while i < frames.len() && !reader.is_terminal()
        invariant
            i <= frames.len(),
            all == frame_views(frames@),
            reader@ == run_create_chat(want_greeting, all.take(i as int)),
        decreases frames.len() - i,
    {
        proof {
            lemma_create_chat_next(want_greeting, all, i as int);
        }
        reader.on_frame(frames[i].snapshot());
        i += 1;
    }
    proof {
        if i < frames.len() {
            lemma_create_chat_reads_no_further(want_greeting, all, i as int);
        } else {
            assert(all.take(i as int) =~= all);
        }
    }
    reader.finish()
}

/// The state after `n + 1` frames is one step from the state after `n`.
pub proof fn lemma_create_chat_next(want_greeting: bool, frames: Seq<InboundFrameView>, n: int)
    requires
        0 <= n < frames.len(),
    ensures
        run_create_chat(want_greeting, frames.take(n + 1)) == run_create_chat(
            want_greeting,
            frames.take(n),
        ).step(frames[n]),
{
    assert(frames.take(n + 1).drop_last() =~= frames.take(n));
}

/// Once the reading has ended, further frames change nothing.
pub proof fn lemma_create_chat_reads_no_further(
    want_greeting: bool,
    frames: Seq<InboundFrameView>,
    n: int,
)
    requires
        0 <= n <= frames.len(),
        !(run_create_chat(want_greeting, frames.take(n)).status is Reading),
    ensures
        run_create_chat(want_greeting, frames) == run_create_chat(want_greeting, frames.take(n)),
    decreases frames.len(),
{
    if n == frames.len() {
        assert(frames.take(n) =~= frames);
    } else {
        let front = frames.drop_last();
        assert(front.take(n) =~= frames.take(n));
        lemma_create_chat_reads_no_further(want_greeting, front, n);
    }
}

/// While the reading goes on, every frame has been read. The reader never
/// changes its mind on the greeting.
pub proof fn lemma_create_chat_frames_read(want_greeting: bool, frames: Seq<InboundFrameView>)
    ensures
        run_create_chat(want_greeting, frames).want_greeting == want_greeting,
        run_create_chat(want_greeting, frames).consumed <= frames.len(),
        run_create_chat(want_greeting, frames).status is Reading ==> run_create_chat(
            want_greeting,
            frames,
        ).consumed == frames.len(),
    decreases frames.len(),
{
    if frames.len() > 0 {
        lemma_create_chat_frames_read(want_greeting, frames.drop_last());
    }
}

/// Without waiting for a greeting, the command returns as soon as the
/// confirmation arrives: the confirmation is the last frame read, the
/// conversation is the confirmed one, there is no greeting, and whatever
/// follows, a new turn included, plays no part.
pub proof fn lemma_returns_on_confirmation(frames: Seq<InboundFrameView>, i: int)
    requires
        0 <= i < frames.len(),
        frames[i] is CreateChatResponse,
        run_create_chat(false, frames.take(i)).status is Reading,
    ensures
        run_create_chat(false, frames).consumed == i + 1,
        run_create_chat(false, frames).outcome() == Ok::<
            (ChatView, Option<TurnView>),
            ProtocolErrorView,
        >((frames[i]->CreateChatResponse_chat, None)),
{
    lemma_create_chat_next(false, frames, i);
    lemma_create_chat_frames_read(false, frames.take(i));
    lemma_create_chat_reads_no_further(false, frames, i + 1);
    lemma_reading_holds_nothing(false, frames.take(i));
}

/// While the reading goes on there is no greeting, and without waiting for
/// a greeting there is no conversation yet either.
pub proof fn lemma_reading_holds_nothing(want_greeting: bool, frames: Seq<InboundFrameView>)
    requires
        run_create_chat(want_greeting, frames).status is Reading,
    ensures
        run_create_chat(want_greeting, frames).greeting is None,
        !want_greeting ==> run_create_chat(want_greeting, frames).chat is None,
    decreases frames.len(),
{
    if frames.len() > 0 {
        let front = frames.drop_last();
        lemma_create_chat_frames_read(want_greeting, front);
        if run_create_chat(want_greeting, front).status is Reading {
            lemma_reading_holds_nothing(want_greeting, front);
        }
    }
}

/// Whether a frame brings the greeting: a new turn of an author who is not
/// human.
pub open spec fn is_greeting(frame: InboundFrameView) -> bool {
    match frame {
        InboundFrameView::AddTurn { turn } => !turn.author_is_human(),
        _ => false,
    }
}

/// Waiting for a greeting that never comes is `Incomplete`: where no frame
/// brings a greeting and none is a refusal, the command fails so, however
/// many confirmations have arrived.
pub proof fn lemma_missing_greeting_is_incomplete(frames: Seq<InboundFrameView>)
    requires
        forall|i: int|
            0 <= i < frames.len() ==> !is_greeting(#[trigger] frames[i]) && !(frames[i]
                is NeoError),
    ensures
        run_create_chat(true, frames).status is Reading,
        run_create_chat(true, frames).outcome() == Err::<
            (ChatView, Option<TurnView>),
            ProtocolErrorView,
        >(ProtocolErrorView::Incomplete),
    decreases frames.len(),
{
    if frames.len() > 0 {
        lemma_missing_greeting_is_incomplete(frames.drop_last());
        lemma_create_chat_frames_read(true, frames.drop_last());
    }
    lemma_create_chat_frames_read(true, frames);
    lemma_reading_holds_nothing(true, frames);
}

/// What the frames that answer `update_primary_candidate` amount to: among
/// the frames that are an acknowledgement or a refusal, the first decides,
/// and without any the answer is `false`.
pub open spec fn acknowledged(frames: Seq<InboundFrameView>) -> bool
    decreases frames.len(),
{
    if frames.len() == 0 {
        false
    } else {
        match frames[0] {
            InboundFrameView::Acknowledged => true,
            InboundFrameView::NeoError { comment } => false,
            _ => acknowledged(frames.drop_first()),
        }
    }
}

/// What one frame settles of `update_primary_candidate`: an acknowledgement
/// settles it with `true`, a refusal with `false`, and any other frame
/// settles nothing, so that the frames after it decide.
pub fn settles(frame: &InboundFrame) -> (r: Option<bool>)
    ensures
        forall|rest: Seq<InboundFrameView>|
            #[trigger] acknowledged(seq![frame@] + rest) == (match r {
                Some(b) => b,
                None => acknowledged(rest),
            }),
        r == (match frame@ {
            InboundFrameView::Acknowledged => Some(true),
            InboundFrameView::NeoError { comment } => Some(false),
            _ => None,
        }),
{
    assert forall|rest: Seq<InboundFrameView>| (seq![frame@] + rest).drop_first() == rest by {
        assert((seq![frame@] + rest).drop_first() =~= rest);
    }
    match frame {
        InboundFrame::Acknowledged => Some(true),
        InboundFrame::NeoError { comment: _ } => Some(false),
        _ => None,
    }
}

/// Reads the frames that answer `update_primary_candidate`; the transport is
/// taken to close after the last of them.
pub fn read_acknowledgement(frames: &Vec<InboundFrame>) -> (r: bool)
    ensures
        r == acknowledged(frame_views(frames@)),
{
    let ghost all = frame_views(frames@);
    let mut i: usize = 0;
    assert(all.skip(0) =~= all);
    while i < frames.len()
        invariant
            i <= frames.len(),
            all == frame_views(frames@),
            acknowledged(all) == acknowledged(all.skip(i as int)),
        decreases frames.len() - i,
    {
        assert(all.skip(i as int).drop_first() =~= all.skip(i + 1));
        assert(all.skip(i as int)[0] == frames@[i as int]@);
        match settles(&frames[i]) {
            Some(answer) => {
                return answer;
            },
            None => {},
        }
        i += 1;
    }
    false
}

} // verus!
