//! The per-request delivery policy: a streaming attempt whose deltas are
//! accumulated and re-emitted as cumulative chunks, with a single
//! non-streaming fallback when streaming fails, and a terminal chunk on
//! every path.
//!
//! The network work itself happens outside the library; the caller feeds the
//! outcome of each attempt into the session as events and forwards the chunks
//! the session hands back. The session decides everything else.

use vstd::prelude::*;
use vstd::string::*;

use crate::error::{composite_error_text, BackendError};
use crate::response::{
    count_finals, lemma_count_finals_add, lemma_count_finals_empty, lemma_count_finals_one,
    ChunkView, LLMResponse,
};

verus! {

/// Where a send stands: still consuming the stream, retrying without
/// streaming after a stream failure, or finished.
#[derive(Clone, Debug)]
pub enum SendPhase {
    Streaming,
    Fallback { stream_error: String },
    Done,
}

/// Spec-level model of `SendPhase`.
pub ghost enum PhaseView {
    Streaming,
    Fallback { stream_error: Seq<char> },
    Done,
}

impl View for SendPhase {
    type V = PhaseView;

    open spec fn view(&self) -> PhaseView {
        match self {
            SendPhase::Streaming => PhaseView::Streaming,
            SendPhase::Fallback { stream_error } => PhaseView::Fallback {
                stream_error: stream_error@,
            },
            SendPhase::Done => PhaseView::Done,
        }
    }
}

/// Spec-level model of a send in progress.
pub ghost struct SessionView {
    pub phase: PhaseView,
    pub accumulated: Seq<char>,
}

/// One send in progress: the delivery state of a single backend call.
#[derive(Clone, Debug)]
pub struct SendSession {
    pub phase: SendPhase,
    /// The text received so far (cumulative); after a successful call, the
    /// full reply.
    pub accumulated: String,
}

impl View for SendSession {
    type V = SessionView;

    open spec fn view(&self) -> SessionView {
        SessionView { phase: self.phase@, accumulated: self.accumulated@ }
    }
}

/// Everything the outside attempts can report back into a session.
pub ghost enum EventView {
    /// One streamed item arrived; `delta` is the delta text it carried, if
    /// any.
    StreamDelta { delta: Option<Seq<char>> },
    /// The stream ended without error.
    StreamEnd,
    /// The streaming attempt failed (setup or mid-stream).
    StreamError { error: Seq<char> },
    /// The non-streaming fallback returned a reply.
    FallbackOk { content: Seq<char> },
    /// The non-streaming fallback failed too.
    FallbackError { error: Seq<char> },
}

/// The state a session starts in.
pub open spec fn init_session() -> SessionView {
    SessionView { phase: PhaseView::Streaming, accumulated: Seq::<char>::empty() }
}

/// Which events a session can accept in each phase.
pub open spec fn event_enabled(s: SessionView, e: EventView) -> bool {
    match s.phase {
        PhaseView::Streaming => e is StreamDelta || e is StreamEnd || e is StreamError,
        PhaseView::Fallback { .. } => e is FallbackOk || e is FallbackError,
        PhaseView::Done => false,
    }
}

/// The text of the terminal chunk emitted when both attempts failed.
pub open spec fn failure_chunk_text(stream_error: Seq<char>, fallback_error: Seq<char>) -> Seq<
    char,
> {
    "Error: "@ + composite_error_text(stream_error, fallback_error)
}

/// One transition of a session: the next state and the chunks delivered by
/// that transition, in order.
pub open spec fn step(s: SessionView, e: EventView) -> (SessionView, Seq<ChunkView>) {
    match e {
        EventView::StreamDelta { delta } => match delta {
            Some(d) => (
                SessionView { phase: PhaseView::Streaming, accumulated: s.accumulated + d },
                seq![ChunkView { content: s.accumulated + d, is_complete: false }],
            ),
            None => (s, Seq::<ChunkView>::empty()),
        },
        EventView::StreamEnd => (
            SessionView { phase: PhaseView::Done, accumulated: s.accumulated },
            seq![ChunkView { content: s.accumulated, is_complete: true }],
        ),
        EventView::StreamError { error } => (
            SessionView { phase: PhaseView::Fallback { stream_error: error }, accumulated: s.accumulated },
            Seq::<ChunkView>::empty(),
        ),
        EventView::FallbackOk { content } => (
            SessionView { phase: PhaseView::Done, accumulated: content },
            seq![ChunkView { content: content, is_complete: true }],
        ),
        EventView::FallbackError { error } => (
            SessionView { phase: PhaseView::Done, accumulated: s.accumulated },
            seq![
                ChunkView {
                    content: failure_chunk_text(s.phase->Fallback_stream_error, error),
                    is_complete: true,
                }
            ],
        ),
    }
}

/// A whole run: the state after all events and every chunk delivered along
/// the way, in order.
pub open spec fn run(s: SessionView, evs: Seq<EventView>) -> (SessionView, Seq<ChunkView>)
    decreases evs.len(),
{
    if evs.len() == 0 {
        (s, Seq::<ChunkView>::empty())
    } else {
        let first = step(s, evs[0]);
        let rest = run(first.0, evs.skip(1));
        (rest.0, first.1 + rest.1)
    }
}

/// Every event of the sequence is accepted by the state it meets.
pub open spec fn trace_enabled(s: SessionView, evs: Seq<EventView>) -> bool
    decreases evs.len(),
{
    evs.len() == 0 || (event_enabled(s, evs[0]) && trace_enabled(step(s, evs[0]).0, evs.skip(1)))
}

/// Terminal chunks are delivered exactly once per send: over any sequence of
/// events a session accepts, a terminal chunk has been delivered exactly when
/// the session is done, and then exactly one.
pub proof fn lemma_exactly_one_terminal_chunk(s: SessionView, evs: Seq<EventView>)
    requires
        !(s.phase is Done),
        trace_enabled(s, evs),
    ensures
        count_finals(run(s, evs).1) == if run(s, evs).0.phase is Done {
            1int
        } else {
            0int
        },
        !(run(s, evs).0.phase is Done) ==> count_finals(run(s, evs).1) == 0,
    decreases evs.len(),
{
    if evs.len() == 0 {
        lemma_count_finals_empty();
    } else {
        let e = evs[0];
        let first = step(s, e);
        let rest = run(first.0, evs.skip(1));
        lemma_count_finals_add(first.1, rest.1);
        match e {
            EventView::StreamDelta { delta } => {
                match delta {
                    Some(d) => {
                        lemma_count_finals_one(
                            ChunkView { content: s.accumulated + d, is_complete: false },
                        );
                    },
                    None => {
                        lemma_count_finals_empty();
                    },
                }
                lemma_exactly_one_terminal_chunk(first.0, evs.skip(1));
            },
            EventView::StreamError { error } => {
                lemma_count_finals_empty();
                lemma_exactly_one_terminal_chunk(first.0, evs.skip(1));
            },
            EventView::StreamEnd => {
                lemma_count_finals_one(ChunkView { content: s.accumulated, is_complete: true });
                lemma_done_accepts_nothing(first.0, evs.skip(1));
            },
            EventView::FallbackOk { content } => {
                lemma_count_finals_one(ChunkView { content: content, is_complete: true });
                lemma_done_accepts_nothing(first.0, evs.skip(1));
            },
            EventView::FallbackError { error } => {
                lemma_count_finals_one(
                    ChunkView {
                        content: failure_chunk_text(s.phase->Fallback_stream_error, error),
                        is_complete: true,
                    },
                );
                lemma_done_accepts_nothing(first.0, evs.skip(1));
            },
        }
    }
}

/// A finished session accepts no further event, so nothing more is delivered.
pub proof fn lemma_done_accepts_nothing(s: SessionView, evs: Seq<EventView>)
    requires
        s.phase is Done,
        trace_enabled(s, evs),
    ensures
        evs.len() == 0,
        run(s, evs).1 =~= Seq::<ChunkView>::empty(),
        count_finals(run(s, evs).1) == 0,
{
    lemma_count_finals_empty();
}

/// The chunks emitted by one exec transition, as chunk views.
pub open spec fn emitted(chunk: Option<LLMResponse>) -> Seq<ChunkView> {
    match chunk {
        Some(c) => seq![c@],
        None => Seq::<ChunkView>::empty(),
    }
}

impl SendSession {
    /// A fresh session: streaming, nothing received yet.
    pub fn new() -> (s: Self)
        ensures
            s@ == init_session(),
    {
        SendSession { phase: SendPhase::Streaming, accumulated: String::new() }
    }

    /// One streamed item arrived. Appends the delta, if any, and hands back
    /// the cumulative (non-terminal) chunk to deliver.
    pub fn on_stream_delta(&mut self, content: Option<String>) -> (chunk: Option<LLMResponse>)
        requires
            old(self)@.phase is Streaming,
        ensures
            ({
                let e = EventView::StreamDelta {
                    delta: match content {
                        Some(d) => Some(d@),
                        None => None,
                    },
                };
                (final(self)@, emitted(chunk)) == step(old(self)@, e)
            }),
    {
        match content {
            Some(d) => {
                self.accumulated.append(d.as_str());
                Some(LLMResponse { content: self.accumulated.clone(), is_complete: false })
            },
            None => None,
        }
    }

    /// The stream ended without error: the session is done and the terminal
    /// chunk carries the full accumulated text.
    pub fn on_stream_end(&mut self) -> (chunk: LLMResponse)
        requires
            old(self)@.phase is Streaming,
        ensures
            (final(self)@, seq![chunk@]) == step(old(self)@, EventView::StreamEnd),
            chunk@.is_complete,
    {
        self.phase = SendPhase::Done;
        LLMResponse { content: self.accumulated.clone(), is_complete: true }
    }

    /// The streaming attempt failed: nothing is delivered yet, and the caller
    /// must now make the single non-streaming fallback attempt.
    pub fn on_stream_error(&mut self, error: String)
        requires
            old(self)@.phase is Streaming,
        ensures
            final(self)@ == step(old(self)@, EventView::StreamError { error: error@ }).0,
            step(old(self)@, EventView::StreamError { error: error@ }).1 =~= Seq::<
                ChunkView,
            >::empty(),
    {
        self.phase = SendPhase::Fallback { stream_error: error };
    }

    /// The fallback returned a reply: the session is done and the terminal
    /// chunk carries that full reply.
    pub fn on_fallback_ok(&mut self, content: String) -> (chunk: LLMResponse)
        requires
            old(self)@.phase is Fallback,
        ensures
            (final(self)@, seq![chunk@]) == step(
                old(self)@,
                EventView::FallbackOk { content: content@ },
            ),
            chunk@.is_complete,
    {
        let c = content.clone();
        self.accumulated = content;
        self.phase = SendPhase::Done;
        LLMResponse { content: c, is_complete: true }
    }

    /// The fallback failed too: the session is done, the terminal chunk
    /// carries the composite error message, and the error returned to the
    /// caller carries both underlying messages.
    pub fn on_fallback_error(&mut self, error: String) -> (r: (LLMResponse, BackendError))
        requires
            old(self)@.phase is Fallback,
        ensures
            (final(self)@, seq![r.0@]) == step(
                old(self)@,
                EventView::FallbackError { error: error@ },
            ),
            r.0@.is_complete,
            r.1 is BothAttemptsFailed,
            r.1->BothAttemptsFailed_stream_error@ == old(self)@.phase->Fallback_stream_error,
            r.1->BothAttemptsFailed_fallback_error@ == error@,
    {
        let stream_error = match &self.phase {
            SendPhase::Fallback { stream_error } => stream_error.clone(),
            _ => unreached(),
        };
        let err = BackendError::BothAttemptsFailed { stream_error, fallback_error: error };
        let mut text = String::from_str("Error: ");
        text.append(err.message().as_str());
        self.phase = SendPhase::Done;
        (LLMResponse { content: text, is_complete: true }, err)
    }
}

} // verus!
