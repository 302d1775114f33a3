//! The dispatcher: classifies an interaction, routes a command to its
//! handler, and decides between an immediate and a deferred response as the
//! handler races a deadline. The caller runs the handler and the timer and
//! reports what happened; every decision is taken here.

use crate::command::CommandRouter;
use crate::command::HandlerId;
use crate::command::HandlingError;
use crate::command::routed;
use crate::interaction::Embed;
use crate::interaction::embeds_view;
use crate::interaction::EmbedView;
use crate::interaction::Interaction;
use crate::interaction::InteractionResponse;
use crate::interaction::InteractionResponseView;
use crate::interaction::InteractionType;
use crate::interaction::text_view;
use vstd::prelude::*;
use vstd::string::StringExecFns;

verus! {

/// The response budget used when none is chosen: well inside the platform's
/// own limit for an answer, so that network transit has room.
pub const DEFAULT_DEADLINE_MS: u64 = 500;

/// Why an interaction got no response of its own.
#[derive(Debug, Clone, PartialEq, Eq)]
pub enum InteractionHandleError {
    /// The interaction could not be handed to a command handler.
    CommandHandleError { source: HandlingError },
}

impl InteractionHandleError {
    /// The status that answers the request: that of the error's cause.
    pub fn status_code(&self) -> (status: u16)
        ensures
            status == (if self->source is CommandDoesntExist {
                404u16
            } else {
                400u16
            }),
    {
        match self {
            InteractionHandleError::CommandHandleError { source } => source.status_code(),
        }
    }

    /// The error in words.
    pub open spec fn message_spec(&self) -> Seq<char> {
        "error handling command"@
    }

    /// The error in words.
    pub fn message(&self) -> (text: String)
        ensures
            text@ == self.message_spec(),
    {
        String::from_str("error handling command")
    }
}

/// How a handler can end without a response of its own.
#[derive(Debug, Clone, Copy, PartialEq, Eq, Structural)]
pub enum HandlerFailure {
    /// The handler stopped with an internal error.
    Panicked,
    /// The handler was cancelled before it answered.
    Cancelled,
}

impl HandlerFailure {
    /// The failure in words fit for the invoking user.
    pub open spec fn message_spec(&self) -> Seq<char> {
        match self {
            HandlerFailure::Panicked => "the command stopped on an internal error"@,
            HandlerFailure::Cancelled => "the command was cancelled before it answered"@,
        }
    }

    /// The failure in words fit for the invoking user.
    pub fn message(&self) -> (text: String)
        ensures
            text@ == self.message_spec(),
    {
        match self {
            HandlerFailure::Panicked => String::from_str("the command stopped on an internal error"),
            HandlerFailure::Cancelled => String::from_str(
                "the command was cancelled before it answered",
            ),
        }
    }
}

/// What a handler's run ended in.
#[derive(Debug, Clone, PartialEq, Eq)]
pub enum HandlerOutcome {
    /// The handler produced its response.
    Responded(InteractionResponse),
    /// The handler ended without one.
    Failed(HandlerFailure),
}

/// The response that a handler's outcome amounts to: its own response, or
/// the error message that reports its failure.
pub open spec fn outcome_response(outcome: HandlerOutcome) -> InteractionResponseView {
    match outcome {
        HandlerOutcome::Responded(response) => response@,
        HandlerOutcome::Failed(failure) => InteractionResponse::error_spec(failure.message_spec()),
    }
}

impl HandlerOutcome {
    /// The response that the outcome amounts to.
    pub fn into_response(self) -> (response: InteractionResponse)
        ensures
            response@ == outcome_response(self),
    {
        match self {
            HandlerOutcome::Responded(response) => response,
            HandlerOutcome::Failed(failure) => InteractionResponse::error(failure.message()),
        }
    }
}

/// The one outbound update that delivers a handler's result after a deferred
/// acknowledgment.
#[derive(Debug, Clone, PartialEq, Eq)]
pub struct FollowUp {
    /// The continuation token of the interaction that is answered.
    pub token: String,
    pub content: Option<String>,
    pub embeds: Option<Vec<Embed>>,
}

/// A `FollowUp` with its texts as sequences of characters.
pub struct FollowUpView {
    pub token: Seq<char>,
    pub content: Option<Seq<char>>,
    pub embeds: Option<Seq<EmbedView>>,
}

impl View for FollowUp {
    type V = FollowUpView;

    open spec fn view(&self) -> FollowUpView {
        FollowUpView {
            token: self.token@,
            content: text_view(self.content),
            embeds: embeds_view(self.embeds),
        }
    }
}

/// The update that carries a response under a token: the response's text and
/// attachments, and nothing where the response shows nothing.
pub open spec fn follow_up_spec(token: Seq<char>, response: InteractionResponseView) -> FollowUpView {
    match response.data {
        Some(data) => FollowUpView { token, content: data.content, embeds: data.embeds },
        None => FollowUpView { token, content: None, embeds: None },
    }
}

/// The follow-up deliverer's one decision: what the single outbound update
/// carries for a handler's eventual outcome.
pub fn follow_up(token: String, outcome: HandlerOutcome) -> (update: FollowUp)
    ensures
        update@ == follow_up_spec(token@, outcome_response(outcome)),
{
    let response = outcome.into_response();
    match response.data {
        Some(data) => FollowUp { token, content: data.content, embeds: data.embeds },
        None => FollowUp { token, content: None, embeds: None },
    }
}

/// The in-flight state of one dispatch.
#[derive(Debug, Clone, PartialEq, Eq)]
pub enum PendingResponse {
    /// The handler runs and the deadline has not passed: the caller still
    /// waits for its response.
    Racing { token: String },
    /// The deadline passed first: the caller has its deferred acknowledgment,
    /// the handler still runs, and its result is owed to the follow-up.
    Deferred { token: String },
    /// Everything owed has been handed out.
    Settled,
}

/// A `PendingResponse` with its token as a sequence of characters.
pub enum PendingResponseView {
    Racing { token: Seq<char> },
    Deferred { token: Seq<char> },
    Settled,
}

impl View for PendingResponse {
    type V = PendingResponseView;

    open spec fn view(&self) -> PendingResponseView {
        match self {
            PendingResponse::Racing { token } => PendingResponseView::Racing { token: token@ },
            PendingResponse::Deferred { token } => PendingResponseView::Deferred { token: token@ },
            PendingResponse::Settled => PendingResponseView::Settled,
        }
    }
}

/// What the caller observed while a dispatch was in flight.
#[derive(Debug, Clone, PartialEq, Eq)]
pub enum DispatchEvent {
    /// The handler's run ended.
    HandlerFinished(HandlerOutcome),
    /// The response deadline passed.
    DeadlineElapsed,
}

/// What the caller is to do after an event.
#[derive(Debug, Clone, PartialEq, Eq)]
pub enum DispatchAction {
    /// Return this response to the original caller.
    Respond(InteractionResponse),
    /// Make this one outbound update, detached from the original request.
    Deliver(FollowUp),
    /// Nothing is owed for this event.
    Nothing,
}

/// A `DispatchAction` with its texts as sequences of characters.
pub enum DispatchActionView {
    Respond(InteractionResponseView),
    Deliver(FollowUpView),
    Nothing,
}

impl View for DispatchAction {
    type V = DispatchActionView;

    open spec fn view(&self) -> DispatchActionView {
        match self {
            DispatchAction::Respond(response) => DispatchActionView::Respond(response@),
            DispatchAction::Deliver(update) => DispatchActionView::Deliver(update@),
            DispatchAction::Nothing => DispatchActionView::Nothing,
        }
    }
}

/// The dispatch state machine's step. While the race is open, the first event
/// decides it: the handler's outcome becomes the response, or the deadline
/// yields the deferred acknowledgment and the handler is left running. After
/// a deferral, the handler's outcome goes out as the follow-up, once. Any
/// other event finds nothing owed and changes nothing.
pub open spec fn advanced(state: PendingResponseView, event: DispatchEvent) -> (
    PendingResponseView,
    DispatchActionView,
) {
    match (state, event) {
        (PendingResponseView::Racing { token }, DispatchEvent::HandlerFinished(outcome)) => (
            PendingResponseView::Settled,
            DispatchActionView::Respond(outcome_response(outcome)),
        ),
        (PendingResponseView::Racing { token }, DispatchEvent::DeadlineElapsed) => (
            PendingResponseView::Deferred { token },
            DispatchActionView::Respond(InteractionResponse::deferred_spec()),
        ),
        (PendingResponseView::Deferred { token }, DispatchEvent::HandlerFinished(outcome)) => (
            PendingResponseView::Settled,
            DispatchActionView::Deliver(follow_up_spec(token, outcome_response(outcome))),
        ),
        (state, _) => (state, DispatchActionView::Nothing),
    }
}

impl PendingResponse {
    /// Takes one event and says where the dispatch stands after it and what
    /// the caller is to do.
    pub fn advance(self, event: DispatchEvent) -> (step: (PendingResponse, DispatchAction))
        ensures
            (step.0@, step.1@) == advanced(self@, event),
    {
        match self {
            PendingResponse::Racing { token } => match event {
                DispatchEvent::HandlerFinished(outcome) => (
                    PendingResponse::Settled,
                    DispatchAction::Respond(outcome.into_response()),
                ),
                DispatchEvent::DeadlineElapsed => (
                    PendingResponse::Deferred { token },
                    DispatchAction::Respond(InteractionResponse::deferred()),
                ),
            },
            PendingResponse::Deferred { token } => match event {
                DispatchEvent::HandlerFinished(outcome) => (
                    PendingResponse::Settled,
                    DispatchAction::Deliver(follow_up(token, outcome)),
                ),
                DispatchEvent::DeadlineElapsed => (
                    PendingResponse::Deferred { token },
                    DispatchAction::Nothing,
                ),
            },
            PendingResponse::Settled => (PendingResponse::Settled, DispatchAction::Nothing),
        }
    }
}

/// Where a dispatch stands after a run of events, and the action taken on
/// each of them, in order.
pub open spec fn ran(state: PendingResponseView, events: Seq<DispatchEvent>) -> (
    PendingResponseView,
    Seq<DispatchActionView>,
)
    decreases events.len(),
{
    if events.len() == 0 {
        (state, Seq::<DispatchActionView>::empty())
    } else {
        let before = ran(state, events.drop_last());
        let step = advanced(before.0, events.last());
        (step.0, before.1.push(step.1))
    }
}

/// No handler has finished among the events from the second up to, but not
/// including, event `until`.
pub open spec fn unfinished_before(events: Seq<DispatchEvent>, until: int) -> bool {
    forall|j: int| 1 <= j < until ==> #[trigger] events[j] is DeadlineElapsed
}

/// The action owed for event `i` of a run in which the deadline came first:
/// the follow-up for the first handler outcome, nothing for anything else.
pub open spec fn owed_after_deferral(
    token: Seq<char>,
    events: Seq<DispatchEvent>,
    i: int,
) -> DispatchActionView {
    if events[i] is HandlerFinished && unfinished_before(events, i) {
        DispatchActionView::Deliver(
            follow_up_spec(token, outcome_response(events[i]->HandlerFinished_0)),
        )
    } else {
        DispatchActionView::Nothing
    }
}

/// Where the deadline passes first, the caller receives the deferred
/// acknowledgment, and only that; the first outcome that the handler then
/// reports is delivered as the follow-up under the interaction's token,
/// whatever it is; and nothing else is ever owed, so no second response and
/// no second follow-up can occur. The dispatch is settled once the follow-up
/// is out, and waits for the handler until then.
pub proof fn law_deadline_wins(token: Seq<char>, events: Seq<DispatchEvent>)
    requires
        events.len() > 0,
        events[0] is DeadlineElapsed,
    ensures
        ran(PendingResponseView::Racing { token }, events).1.len() == events.len(),
        ran(PendingResponseView::Racing { token }, events).0 == (if unfinished_before(
            events,
            events.len() as int,
        ) {
            PendingResponseView::Deferred { token }
        } else {
            PendingResponseView::Settled
        }),
        ran(PendingResponseView::Racing { token }, events).1[0] == DispatchActionView::Respond(
            InteractionResponse::deferred_spec(),
        ),
        forall|i: int|
            1 <= i < events.len() ==> #[trigger] ran(PendingResponseView::Racing { token }, events).1[i]
                == owed_after_deferral(token, events, i),
    decreases events.len(),
{
    let start = PendingResponseView::Racing { token };
    let front = events.drop_last();
    if events.len() == 1 {
        assert(ran(start, front).1.len() == 0);
    } else {
        law_deadline_wins(token, front);
        let before = ran(start, front);
        let last = events.len() - 1;
        assert(forall|j: int| 0 <= j < front.len() ==> front[j] == events[j]);
        assert(unfinished_before(front, front.len() as int) <==> unfinished_before(events, last));
        assert forall|i: int| 1 <= i < events.len() implies #[trigger] ran(start, events).1[i]
            == owed_after_deferral(token, events, i) by {
            if i < last {
                assert(ran(start, events).1[i] == before.1[i]);
                assert(unfinished_before(front, i) <==> unfinished_before(events, i));
            }
        }
        if unfinished_before(events, last) && events[last] is DeadlineElapsed {
            assert(unfinished_before(events, events.len() as int));
        } else {
            if !unfinished_before(events, last) {
                let j = choose|j: int| 1 <= j < last && !(#[trigger] events[j] is DeadlineElapsed);
                assert(!(events[j] is DeadlineElapsed));
            } else {
                assert(!(events[last] is DeadlineElapsed));
            }
            assert(!unfinished_before(events, events.len() as int));
        }
    }
}

/// Where the handler finishes before the deadline, the caller receives the
/// handler's own response, the dispatch is settled, and nothing else is ever
/// owed, whatever is reported later: the follow-up is never invoked.
pub proof fn law_handler_wins(token: Seq<char>, events: Seq<DispatchEvent>)
    requires
        events.len() > 0,
        events[0] is HandlerFinished,
    ensures
        ran(PendingResponseView::Racing { token }, events).1.len() == events.len(),
        ran(PendingResponseView::Racing { token }, events).0 == PendingResponseView::Settled,
        ran(PendingResponseView::Racing { token }, events).1[0] == DispatchActionView::Respond(
            outcome_response(events[0]->HandlerFinished_0),
        ),
        forall|i: int|
            1 <= i < events.len() ==> #[trigger] ran(PendingResponseView::Racing { token }, events).1[i]
                == DispatchActionView::Nothing,
    decreases events.len(),
{
    let start = PendingResponseView::Racing { token };
    let front = events.drop_last();
    if events.len() == 1 {
        assert(ran(start, front).1.len() == 0);
    } else {
        law_handler_wins(token, front);
        let before = ran(start, front);
        assert forall|i: int| 1 <= i < events.len() implies #[trigger] ran(start, events).1[i]
            == DispatchActionView::Nothing by {
            if i < events.len() - 1 {
                assert(ran(start, events).1[i] == before.1[i]);
            }
        }
    }
}

/// How the dispatch of one interaction begins.
#[derive(Debug, Clone, PartialEq, Eq)]
pub enum Dispatched {
    /// The interaction is answered at once, and no handler runs.
    Immediate(InteractionResponse),
    /// The caller is to start the handler on the interaction, arm a timer for
    /// the deadline, and report what happens to `pending`.
    Invoke { handler: HandlerId, interaction: Interaction, deadline_ms: u64, pending: PendingResponse },
}

/// The entry point of dispatch: a view of the command registry and the
/// response budget of each dispatch.
pub struct InteractionHandler {
    command_router: CommandRouter,
    deadline_ms: u64,
}

impl Clone for InteractionHandler {
    fn clone(&self) -> (copy: Self)
        ensures
            copy.entries() == self.entries(),
            copy.deadline_ms() == self.deadline_ms(),
    {
        InteractionHandler {
            command_router: self.command_router.current_view(),
            deadline_ms: self.deadline_ms,
        }
    }
}

impl InteractionHandler {
    /// The registered commands.
    pub closed spec fn entries(&self) -> Map<Seq<char>, HandlerId> {
        self.command_router.entries()
    }

    /// The response budget in milliseconds.
    pub closed spec fn deadline_ms(&self) -> u64 {
        self.deadline_ms
    }

    /// A dispatcher over the given registry with the given response budget.
    pub fn new(command_router: CommandRouter, deadline_ms: u64) -> (handler: Self)
        ensures
            handler.entries() == command_router.entries(),
            handler.deadline_ms() == deadline_ms,
    {
        InteractionHandler { command_router, deadline_ms }
    }

    /// Begins the dispatch of one interaction. A liveness probe is answered
    /// at once. A command is routed by its name: without a handler the
    /// dispatch fails, with one the handler is to be raced against the
    /// deadline.
    pub fn handle(&self, interaction: Interaction) -> (outcome: Result<
        Dispatched,
        InteractionHandleError,
    >)
        ensures
            match interaction.kind {
                InteractionType::Ping => {
                    &&& outcome matches Ok(Dispatched::Immediate(response))
                    &&& response@ == InteractionResponse::pong_spec()
                },
                InteractionType::ApplicationCommand => match routed(self.entries(), interaction) {
                    Ok(routed_to) => {
                        &&& outcome matches Ok(
                            Dispatched::Invoke { handler, interaction: handed_on, deadline_ms, pending },
                        )
                        &&& handler == routed_to
                        &&& handed_on == interaction
                        &&& deadline_ms == self.deadline_ms()
                        &&& pending@ == (PendingResponseView::Racing { token: interaction.token@ })
                    },
                    Err(error) => outcome == Err::<Dispatched, InteractionHandleError>(
                        InteractionHandleError::CommandHandleError { source: error },
                    ),
                },
            },
    {
        match interaction.kind {
            InteractionType::Ping => Ok(Dispatched::Immediate(InteractionResponse::pong())),
            InteractionType::ApplicationCommand => {
                match self.command_router.handle(&interaction) {
                    Ok(handler) => {
                        let token = interaction.token.clone();
                        Ok(
                            Dispatched::Invoke {
                                handler,
                                interaction,
                                deadline_ms: self.deadline_ms,
                                pending: PendingResponse::Racing { token },
                            },
                        )
                    },
                    Err(source) => Err(InteractionHandleError::CommandHandleError { source }),
                }
            },
        }
    }
}

} // verus!
