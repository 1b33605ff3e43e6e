//! StreamPipeline: the state machine of one streaming run and the per-event
//! decisions it makes.
//!
//! The surrounding program owns the connection, the suspension points and
//! the clock; it feeds signals and events in and performs the actions the
//! pipeline decides on. Every decision — which state comes next, whether an
//! event is acted on, what is posted — is made here and verified.
use crate::compose::{compose_reply, compose_spec};
use crate::extract::{extract_number, lemma_extract_query_wf, spec_extract};
use crate::mention::{event_mentions, matches_mention};
use crate::model::{CommitEvent, CommitEventV, OutgoingPost, RecordVariant, RecordVariantV,
    SearchResult};
use crate::text::is_digit;
use crate::thread::{resolve_reply, spec_resolve};
use vstd::prelude::*;
use vstd::string::*;

verus! {

/// The state of one streaming run. `Streaming` is the only steady state
/// and the only one in which events are examined.
#[derive(Clone, Copy, Debug, PartialEq, Eq, Structural)]
pub enum PipelineState {
    Connecting,
    Streaming,
    Draining,
    Stopped,
}

/// A control signal handed to the pipeline by the surrounding program.
#[derive(Clone, Copy, Debug, PartialEq, Eq, Structural)]
pub enum StreamSignal {
    /// The subscription to the event source was established.
    Subscribed,
    /// The subscription could not be established; fatal to the run.
    ConnectFailed,
    /// An external stop was requested.
    CancelRequested,
    /// The event source closed the connection.
    SourceClosed,
    /// Every event buffered before draining began has been processed.
    Drained,
}

/// The transition relation of the streaming run. Signals that do not apply
/// to the current state leave it unchanged; no event, and no per-event
/// failure, ever changes the state.
pub open spec fn spec_step(s: PipelineState, g: StreamSignal) -> PipelineState {
    match (s, g) {
        (PipelineState::Connecting, StreamSignal::Subscribed) => PipelineState::Streaming,
        (PipelineState::Connecting, StreamSignal::ConnectFailed) => PipelineState::Stopped,
        (PipelineState::Streaming, StreamSignal::CancelRequested) => PipelineState::Draining,
        (PipelineState::Streaming, StreamSignal::SourceClosed) => PipelineState::Draining,
        (PipelineState::Draining, StreamSignal::Drained) => PipelineState::Stopped,
        (_, _) => s,
    }
}

/// Once stopped, a run stays stopped: no signal leaves the terminal state.
pub proof fn lemma_stopped_is_terminal(g: StreamSignal)
    ensures
        spec_step(PipelineState::Stopped, g) == PipelineState::Stopped,
{
}

/// A draining run never streams again: it only drains on or stops.
pub proof fn lemma_draining_never_resumes(g: StreamSignal)
    ensures
        spec_step(PipelineState::Draining, g) == PipelineState::Draining || spec_step(
            PipelineState::Draining,
            g,
        ) == PipelineState::Stopped,
{
}

/// What the pipeline decides to do with one incoming commit event.
pub enum EventDecision {
    /// The event does not mention the watched identity (or is no post):
    /// discard it and continue.
    Ignore,
    /// The post mentions the watched identity but no query could be
    /// extracted from its text: a normal outcome, no reply is attempted.
    NoQuery,
    /// A query was extracted; the surrounding program should run the
    /// search and hand the outcome to `build_reply`.
    Search(String),
}

/// Mathematical view of an [`EventDecision`].
pub enum EventDecisionV {
    Ignore,
    NoQuery,
    Search(Seq<char>),
}

impl View for EventDecision {
    type V = EventDecisionV;

    open spec fn view(&self) -> EventDecisionV {
        match self {
            EventDecision::Ignore => EventDecisionV::Ignore,
            EventDecision::NoQuery => EventDecisionV::NoQuery,
            EventDecision::Search(q) => EventDecisionV::Search(q@),
        }
    }
}

/// The decision for one event: ignore it unless it is a post mentioning
/// the watched identity; then search when its text yields a query.
pub open spec fn spec_decide(e: CommitEventV, watched: Seq<char>) -> EventDecisionV {
    if !event_mentions(e, watched) {
        EventDecisionV::Ignore
    } else {
        match e.record {
            RecordVariantV::Post(p) => match spec_extract(p.text) {
                Some(q) => EventDecisionV::Search(q),
                None => EventDecisionV::NoQuery,
            },
            RecordVariantV::Other => EventDecisionV::Ignore,
        }
    }
}

/// Why no reply could be built from a search outcome.
#[derive(Clone, Copy, Debug, PartialEq, Eq, Structural)]
pub enum BotError {
    /// The search service could not be reached or answered with an
    /// unreadable response.
    Transport,
    /// The search service answered, but its response reports a failure.
    Upstream,
}

/// What came back from handing a query to the search collaborator.
pub enum SearchOutcome {
    /// A structurally valid response, whatever its status says.
    Response(SearchResult),
    /// No structurally valid response: unreachable, timed out, or
    /// malformed.
    TransportFailed,
}

/// One streaming run. It holds the current state and the watched
/// identity; everything that suspends lives with the caller.
pub struct Pipeline {
    pub state: PipelineState,
    pub watched: String,
}

impl Pipeline {
    /// A fresh run for one watched identity, about to connect.
    pub fn new(watched: String) -> (r: Pipeline)
        ensures
            r.state == PipelineState::Connecting,
            r.watched@ == watched@,
    {
        Pipeline { state: PipelineState::Connecting, watched }
    }

    /// Advances the state machine on a control signal.
    pub fn on_signal(&mut self, g: StreamSignal)
        ensures
            final (self).state == spec_step(old(self).state, g),
            final (self).watched@ == old(self).watched@,
    {
        self.state = step_state(self.state, g);
    }

    /// Is the run in its steady state, examining events?
    pub fn is_streaming(&self) -> (r: bool)
        ensures
            r == (self.state is Streaming),
    {
        self.state == PipelineState::Streaming
    }

    /// Has the run reached its terminal state?
    pub fn is_stopped(&self) -> (r: bool)
        ensures
            r == (self.state is Stopped),
    {
        self.state == PipelineState::Stopped
    }

    /// The per-event decision: mention filter, then query extraction. Runs
    /// only in the steady state; discarding, or failing to extract, never
    /// ends the run. A query it asks to search is always a non-empty
    /// string of digits: the normalized form the search service expects.
    pub fn decide_event(&self, event: &CommitEvent) -> (r: EventDecision)
        requires
            self.state is Streaming,
        ensures
            r@ == spec_decide(event@, self.watched@),
            r@ matches EventDecisionV::Search(q) ==> q.len() > 0 && (forall|t: int|
                0 <= t < q.len() ==> is_digit(#[trigger] q[t])),
    {
        proof {
            if event@.record is Post {
                lemma_extract_query_wf(event@.record->Post_0.text);
            }
        }
        if !matches_mention(event, self.watched.as_str()) {
            return EventDecision::Ignore;
        }
        match &event.record {
            RecordVariant::Post(post) => match extract_number(post.text.as_str()) {
                Some(q) => EventDecision::Search(q),
                None => EventDecision::NoQuery,
            },
            RecordVariant::Other => EventDecision::Ignore,
        }
    }
}

/// Advances the transition relation by one signal.
pub fn step_state(s: PipelineState, g: StreamSignal) -> (r: PipelineState)
    ensures
        r == spec_step(s, g),
{
    match (s, g) {
        (PipelineState::Connecting, StreamSignal::Subscribed) => PipelineState::Streaming,
        (PipelineState::Connecting, StreamSignal::ConnectFailed) => PipelineState::Stopped,
        (PipelineState::Streaming, StreamSignal::CancelRequested) => PipelineState::Draining,
        (PipelineState::Streaming, StreamSignal::SourceClosed) => PipelineState::Draining,
        (PipelineState::Draining, StreamSignal::Drained) => PipelineState::Stopped,
        (_, _) => s,
    }
}

/// The tag attached to every post the bot creates.
pub open spec fn spec_tags() -> Seq<Seq<char>> {
    seq!["#pi"@]
}

/// The tag list for an outgoing post.
fn make_tags() -> (r: Vec<String>)
    ensures
        r@.map_values(|t: String| t@) == spec_tags(),
{
    let mut tags: Vec<String> = Vec::new();
    tags.push(String::from_str("#pi"));
    proof {
        assert(tags@.map_values(|t: String| t@) =~= spec_tags());
    }
    tags
}

/// The reply the pipeline creates for a triggering event once the search
/// outcome is in hand: the composed body, the resolved thread references,
/// and the bot's tag. A transport failure or an upstream "error" status
/// yields the matching error and no reply; nothing else fails.
pub fn build_reply(event: &CommitEvent, query: &str, outcome: &SearchOutcome) -> (r: Result<
    OutgoingPost,
    BotError,
>)
    requires
        event.record is Post,
    ensures
        match r {
            Ok(post) => {
                &&& outcome matches SearchOutcome::Response(res)
                &&& res@.status != "error"@
                &&& post@.text == compose_spec(res@, query@)
                &&& post@.reply == Some(spec_resolve(event@))
                &&& post@.tags == Some(spec_tags())
            },
            Err(BotError::Transport) => outcome is TransportFailed,
            Err(BotError::Upstream) => outcome matches SearchOutcome::Response(res) && res@.status
                == "error"@,
        },
{
    match outcome {
        SearchOutcome::TransportFailed => Err(BotError::Transport),
        SearchOutcome::Response(res) => {
            if crate::text::str_eq(res.status.as_str(), "error") {
                return Err(BotError::Upstream);
            }
            let text = compose_reply(res, query);
            let reply = resolve_reply(event);
            Ok(OutgoingPost { text, reply: Some(reply), tags: Some(make_tags()) })
        },
    }
}

/// A standalone (non-reply) post with the bot's tag, as the daily and
/// random runs create it.
pub fn standalone_post(text: String) -> (r: OutgoingPost)
    ensures
        r@.text == text@,
        r@.reply is None,
        r@.tags == Some(spec_tags()),
{
    OutgoingPost { text, reply: None, tags: Some(make_tags()) }
}

} // verus!
