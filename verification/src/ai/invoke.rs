use crate::ai::registry::{has_code, lookup, ModelsByCode};
use crate::ai::types::{
    message_views, Invocation, InvocationView, Message, MessageView, Model, ModelView,
    ProviderModel, ProviderModelView,
};
use crate::error::{Error, ErrorView};
use vstd::prelude::*;

verus! {

/// The seconds without a forwarded item after which a heartbeat is due.
pub const KEEP_ALIVE_SECONDS: u64 = 15;

/// A requested code in contracts.
pub open spec fn code_view(code: Option<String>) -> Option<Seq<char>> {
    match code {
        Some(text) => Some(text@),
        None => None,
    }
}

/// The entry that serves a request. A requested code is looked up exactly,
/// and a code that is not registered is an error whatever else the registry
/// holds. Without a requested code it is the entry registered first.
pub open spec fn resolution(entries: Seq<ProviderModelView>, requested: Option<Seq<char>>) -> Result<
    ProviderModelView,
    ErrorView,
> {
    match requested {
        Some(code) => match lookup(entries, code) {
            Some(entry) => Ok(entry),
            None => Err(ErrorView::ModelNotFoundError(code)),
        },
        None => if entries.len() == 0 {
            Err(ErrorView::NoModelAvailableError)
        } else {
            Ok(entries[0])
        },
    }
}

/// Picks the provider and model that serve a request for `model_code`.
pub fn resolve_model(models: &ModelsByCode, model_code: Option<String>) -> (found: Result<
    &ProviderModel,
    Error,
>)
    ensures
        match found {
            Ok(entry) => resolution(models@, code_view(model_code)) == Ok::<
                ProviderModelView,
                ErrorView,
            >(entry@),
            Err(error) => resolution(models@, code_view(model_code)) == Err::<
                ProviderModelView,
                ErrorView,
            >(error@),
        },
{
    match model_code {
        None => match models.first() {
            Some(entry) => Ok(entry),
            None => Err(Error::NoModelAvailableError),
        },
        Some(code) => match models.get(&code) {
            Some(entry) => Ok(entry),
            None => Err(Error::ModelNotFoundError(code)),
        },
    }
}

/// Where the handling of one request stands.
#[derive(Clone, Copy, Debug, PartialEq, Eq, Structural)]
pub enum Stage {
    /// The request body was not read yet.
    Idle,
    /// The request was decoded and resolved to a provider and a model; the
    /// provider was asked and has not answered yet.
    Resolving,
    /// The provider's items are being forwarded.
    Streaming,
    /// The provider's stream ended and the outbound stream was closed.
    Completed,
    /// The request failed, before or during streaming.
    Failed,
}

/// What happened outside, in contracts.
pub enum EventView {
    Decoded(InvocationView),
    Undecodable(Seq<char>),
    Accepted,
    Rejected(ErrorView),
    Item(Result<MessageView, ErrorView>),
    End,
    WriteFailed(ErrorView),
    Tick,
}

/// What happened outside since the last step.
#[derive(Debug, PartialEq, Eq)]
pub enum Event {
    /// The request body was decoded.
    Decoded(Invocation),
    /// The request body could not be decoded; the text says why.
    Undecodable(String),
    /// The provider took the request and handed out its stream.
    Accepted,
    /// The provider refused the request outright.
    Rejected(Error),
    /// The provider's stream yielded an item: a message, or the error that
    /// ends the stream.
    Item(Result<Message, Error>),
    /// The provider's stream ended.
    End,
    /// An event could not be written to the client.
    WriteFailed(Error),
    /// The keep-alive interval passed without a forwarded item.
    Tick,
}

impl View for Event {
    type V = EventView;

    open spec fn view(&self) -> EventView {
        match *self {
            Event::Decoded(invocation) => EventView::Decoded(invocation@),
            Event::Undecodable(text) => EventView::Undecodable(text@),
            Event::Accepted => EventView::Accepted,
            Event::Rejected(error) => EventView::Rejected(error@),
            Event::Item(Ok(message)) => EventView::Item(Ok(message@)),
            Event::Item(Err(error)) => EventView::Item(Err(error@)),
            Event::End => EventView::End,
            Event::WriteFailed(error) => EventView::WriteFailed(error@),
            Event::Tick => EventView::Tick,
        }
    }
}

/// What is to be done outside, in contracts.
pub enum ActionView {
    Invoke { provider: usize, model: ModelView, messages: Seq<MessageView> },
    Respond(ErrorView),
    Open,
    Forward(MessageView),
    Heartbeat,
    Close,
    Abort(ErrorView),
    Abandon(ErrorView),
    Ignore,
}

/// What is to be done outside after a step.
#[derive(Debug, PartialEq, Eq)]
pub enum Action {
    /// Ask the provider at position `provider` to continue `messages` with
    /// `model`, and come back with `Accepted` or `Rejected`.
    Invoke { provider: usize, model: Model, messages: Vec<Message> },
    /// Answer with a complete error response; no stream is opened.
    Respond(Error),
    /// Open the event stream and start pulling the provider's items.
    Open,
    /// Send the message as one event, then pull the next item.
    Forward(Message),
    /// Send a keep-alive; it carries no message.
    Heartbeat,
    /// The provider is done: end the event stream.
    Close,
    /// End the event stream with the error as its last event and let go of
    /// the provider's stream.
    Abort(Error),
    /// The client is gone: let go of the provider's stream.
    Abandon(Error),
    /// The event has no meaning at this stage: do nothing.
    Ignore,
}

impl View for Action {
    type V = ActionView;

    open spec fn view(&self) -> ActionView {
        match *self {
            Action::Invoke { provider, model, messages } => ActionView::Invoke {
                provider,
                model: model@,
                messages: message_views(messages@),
            },
            Action::Respond(error) => ActionView::Respond(error@),
            Action::Open => ActionView::Open,
            Action::Forward(message) => ActionView::Forward(message@),
            Action::Heartbeat => ActionView::Heartbeat,
            Action::Close => ActionView::Close,
            Action::Abort(error) => ActionView::Abort(error@),
            Action::Abandon(error) => ActionView::Abandon(error@),
            Action::Ignore => ActionView::Ignore,
        }
    }
}

/// The stage after `event` and the action that it calls for.
///
/// A decoded request is resolved at once: it fails with the error of the
/// resolution, or its provider is to be invoked. A request that cannot be
/// decoded or resolved thus fails before any provider is asked. While
/// streaming, every message is forwarded as it comes, the first error ends
/// the stream, and a tick is answered by a heartbeat and changes nothing.
/// An event that does not belong to the stage is ignored; so is every event
/// once the request is completed or has failed.
pub open spec fn next(stage: Stage, event: EventView, entries: Seq<ProviderModelView>) -> (
    Stage,
    ActionView,
) {
    match (stage, event) {
        (Stage::Idle, EventView::Decoded(invocation)) => match resolution(
            entries,
            invocation.model,
        ) {
            Ok(entry) => (
                Stage::Resolving,
                ActionView::Invoke {
                    provider: entry.provider,
                    model: entry.model,
                    messages: invocation.messages,
                },
            ),
            Err(error) => (Stage::Failed, ActionView::Respond(error)),
        },
        (Stage::Idle, EventView::Undecodable(text)) => (
            Stage::Failed,
            ActionView::Respond(ErrorView::RequestDecodingError(text)),
        ),
        (Stage::Resolving, EventView::Accepted) => (Stage::Streaming, ActionView::Open),
        (Stage::Resolving, EventView::Rejected(error)) => (
            Stage::Failed,
            ActionView::Respond(error),
        ),
        (Stage::Streaming, EventView::Item(Ok(message))) => (
            Stage::Streaming,
            ActionView::Forward(message),
        ),
        (Stage::Streaming, EventView::Item(Err(error))) => (
            Stage::Failed,
            ActionView::Abort(error),
        ),
        (Stage::Streaming, EventView::End) => (Stage::Completed, ActionView::Close),
        (Stage::Streaming, EventView::WriteFailed(error)) => (
            Stage::Failed,
            ActionView::Abandon(error),
        ),
        (Stage::Streaming, EventView::Tick) => (Stage::Streaming, ActionView::Heartbeat),
        _ => (stage, ActionView::Ignore),
    }
}

/// Takes one step of the handling of a request: from the stage and what
/// happened outside to the next stage and what to do outside.
pub fn step(stage: Stage, event: Event, models: &ModelsByCode) -> (out: (Stage, Action))
    ensures
        out.0 == next(stage, event@, models@).0,
        out.1@ == next(stage, event@, models@).1,
{
    match stage {
        Stage::Idle => match event {
            Event::Decoded(invocation) => {
                let Invocation { model, messages } = invocation;
                match resolve_model(models, model) {
                    Ok(entry) => (
                        Stage::Resolving,
                        Action::Invoke {
                            provider: entry.provider,
                            model: entry.model.clone(),
                            messages,
                        },
                    ),
                    Err(error) => (Stage::Failed, Action::Respond(error)),
                }
            },
            Event::Undecodable(text) => (
                Stage::Failed,
                Action::Respond(Error::RequestDecodingError(text)),
            ),
            _ => (Stage::Idle, Action::Ignore),
        },
        Stage::Resolving => match event {
            Event::Accepted => (Stage::Streaming, Action::Open),
            Event::Rejected(error) => (Stage::Failed, Action::Respond(error)),
            _ => (Stage::Resolving, Action::Ignore),
        },
        Stage::Streaming => match event {
            Event::Item(Ok(message)) => (Stage::Streaming, Action::Forward(message)),
            Event::Item(Err(error)) => (Stage::Failed, Action::Abort(error)),
            Event::End => (Stage::Completed, Action::Close),
            Event::WriteFailed(error) => (Stage::Failed, Action::Abandon(error)),
            Event::Tick => (Stage::Streaming, Action::Heartbeat),
            _ => (Stage::Streaming, Action::Ignore),
        },
        Stage::Completed => (Stage::Completed, Action::Ignore),
        Stage::Failed => (Stage::Failed, Action::Ignore),
    }
}

/// The stage after a run of events, and the action that each of them
/// called for.
pub open spec fn run(stage: Stage, events: Seq<EventView>, entries: Seq<ProviderModelView>) -> (
    Stage,
    Seq<ActionView>,
)
    decreases events.len(),
{
    if events.len() == 0 {
        (stage, Seq::empty())
    } else {
        let before = run(stage, events.drop_last(), entries);
        let last = next(before.0, events.last(), entries);
        (last.0, before.1.push(last.1))
    }
}

/// The messages that a run of actions sends to the client, in order.
pub open spec fn sent(actions: Seq<ActionView>) -> Seq<MessageView>
    decreases actions.len(),
{
    if actions.len() == 0 {
        Seq::empty()
    } else {
        match actions.last() {
            ActionView::Forward(message) => sent(actions.drop_last()).push(message),
            _ => sent(actions.drop_last()),
        }
    }
}

/// What a provider's stream yields, as the events that the items are.
pub open spec fn item_events(items: Seq<Result<MessageView, ErrorView>>) -> Seq<EventView> {
    Seq::new(items.len(), |i: int| EventView::Item(items[i]))
}

/// The events without the ticks.
pub open spec fn without_ticks(events: Seq<EventView>) -> Seq<EventView>
    decreases events.len(),
{
    if events.len() == 0 {
        Seq::empty()
    } else if events.last() is Tick {
        without_ticks(events.drop_last())
    } else {
        without_ticks(events.drop_last()).push(events.last())
    }
}

/// With no requested code an empty registry gives `NoModelAvailableError`;
/// a requested code that is not registered gives `ModelNotFoundError` with
/// that code, whatever the registry holds; a registered code gives its own
/// entry, whichever entry is first.
pub proof fn lemma_resolution_cases(entries: Seq<ProviderModelView>, code: Seq<char>)
    ensures
        entries.len() == 0 ==> resolution(entries, None) == Err::<ProviderModelView, ErrorView>(
            ErrorView::NoModelAvailableError,
        ),
        entries.len() > 0 ==> resolution(entries, None) == Ok::<ProviderModelView, ErrorView>(
            entries[0],
        ),
        !has_code(entries, code) ==> resolution(entries, Some(code)) == Err::<
            ProviderModelView,
            ErrorView,
        >(ErrorView::ModelNotFoundError(code)),
        has_code(entries, code) ==> (resolution(entries, Some(code)) matches Ok(entry)
            && entry.model.code == code),
{
}

/// Two resolutions against the same registry, for the same request, give
/// the same entry: the result depends on nothing else.
pub proof fn lemma_resolution_is_stable(
    first: Seq<ProviderModelView>,
    second: Seq<ProviderModelView>,
    requested: Option<Seq<char>>,
)
    requires
        first == second,
    ensures
        resolution(first, requested) == resolution(second, requested),
{
}

/// A heartbeat is the answer to a tick while streaming and to nothing else,
/// and a message is forwarded only for the item that carries it: neither
/// stands in for the other.
pub proof fn lemma_heartbeat_is_no_item(
    stage: Stage,
    event: EventView,
    entries: Seq<ProviderModelView>,
)
    ensures
        next(stage, event, entries).1 is Heartbeat <==> stage == Stage::Streaming && event is Tick,
        next(stage, event, entries).1 matches ActionView::Forward(message) ==> stage
            == Stage::Streaming && event == EventView::Item(Ok(message)),
        event is Tick ==> next(stage, event, entries).0 == stage,
{
}

/// A run calls for one action per event.
pub proof fn lemma_run_len(stage: Stage, events: Seq<EventView>, entries: Seq<ProviderModelView>)
    ensures
        run(stage, events, entries).1.len() == events.len(),
    decreases events.len(),
{
    if events.len() > 0 {
        lemma_run_len(stage, events.drop_last(), entries);
    }
}

/// Once a request is completed or has failed, nothing more happens: every
/// later event is ignored and the stage stays.
pub proof fn lemma_terminal_stage_is_final(
    stage: Stage,
    events: Seq<EventView>,
    entries: Seq<ProviderModelView>,
)
    requires
        stage == Stage::Completed || stage == Stage::Failed,
    ensures
        run(stage, events, entries).0 == stage,
        run(stage, events, entries).1 == Seq::new(events.len(), |i: int| ActionView::Ignore),
        sent(run(stage, events, entries).1) == Seq::<MessageView>::empty(),
    decreases events.len(),
{
    if events.len() > 0 {
        lemma_terminal_stage_is_final(stage, events.drop_last(), entries);
        let before = run(stage, events.drop_last(), entries);
        assert(before.1.push(ActionView::Ignore) =~= Seq::new(
            events.len(),
            |i: int| ActionView::Ignore,
        ));
        assert(run(stage, events, entries).1.drop_last() =~= before.1);
    }
}

/// While every item is a message, the stream stays open and the messages
/// are forwarded one for one, in the order in which the provider gave them.
pub proof fn lemma_stream_preserves_order(
    items: Seq<Result<MessageView, ErrorView>>,
    entries: Seq<ProviderModelView>,
)
    requires
        forall|i: int| 0 <= i < items.len() ==> (#[trigger] items[i]) is Ok,
    ensures
        run(Stage::Streaming, item_events(items), entries).0 == Stage::Streaming,
        run(Stage::Streaming, item_events(items), entries).1 == Seq::new(
            items.len(),
            |i: int| ActionView::Forward(items[i]->Ok_0),
        ),
        sent(run(Stage::Streaming, item_events(items), entries).1) == Seq::new(
            items.len(),
            |i: int| items[i]->Ok_0,
        ),
    decreases items.len(),
{
    let events = item_events(items);
    if items.len() > 0 {
        let shorter = items.drop_last();
        lemma_stream_preserves_order(shorter, entries);
        assert(events.drop_last() =~= item_events(shorter));
        assert(events.last() == EventView::Item(items.last()));
        let before = run(Stage::Streaming, events.drop_last(), entries);
        let after = run(Stage::Streaming, events, entries);
        assert(after.1 =~= Seq::new(items.len(), |i: int| ActionView::Forward(items[i]->Ok_0)));
        assert(after.1.drop_last() =~= before.1);
        assert(sent(after.1) =~= Seq::new(items.len(), |i: int| items[i]->Ok_0));
    } else {
        assert(run(Stage::Streaming, events, entries).1 =~= Seq::new(
            items.len(),
            |i: int| ActionView::Forward(items[i]->Ok_0),
        ));
        assert(sent(run(Stage::Streaming, events, entries).1) =~= Seq::new(
            items.len(),
            |i: int| items[i]->Ok_0,
        ));
    }
}

/// The first item that is an error ends the stream: the messages before it
/// were forwarded in order, the error is the last thing sent, and every item
/// after it is ignored.
pub proof fn lemma_first_error_ends_stream(
    items: Seq<Result<MessageView, ErrorView>>,
    at: int,
    entries: Seq<ProviderModelView>,
)
    requires
        0 <= at < items.len(),
        forall|i: int| 0 <= i < at ==> (#[trigger] items[i]) is Ok,
        items[at] is Err,
    ensures
        run(Stage::Streaming, item_events(items), entries).0 == Stage::Failed,
        run(Stage::Streaming, item_events(items), entries).1.len() == items.len(),
        forall|i: int|
            0 <= i < at ==> (#[trigger] run(Stage::Streaming, item_events(items), entries).1[i])
                == ActionView::Forward(items[i]->Ok_0),
        run(Stage::Streaming, item_events(items), entries).1[at] == ActionView::Abort(
            items[at]->Err_0,
        ),
        forall|i: int|
            at < i < items.len() ==> (#[trigger] run(
                Stage::Streaming,
                item_events(items),
                entries,
            ).1[i]) == ActionView::Ignore,
        sent(run(Stage::Streaming, item_events(items), entries).1) == Seq::new(
            at as nat,
            |i: int| items[i]->Ok_0,
        ),
    decreases items.len(),
{
    let events = item_events(items);
    let shorter = items.drop_last();
    let before = run(Stage::Streaming, events.drop_last(), entries);
    let after = run(Stage::Streaming, events, entries);
    assert(events.drop_last() =~= item_events(shorter));
    assert(events.last() == EventView::Item(items.last()));
    assert(after.1.drop_last() =~= before.1);
    if at == items.len() - 1 {
        lemma_stream_preserves_order(shorter, entries);
        assert(sent(after.1) =~= Seq::new(at as nat, |i: int| items[i]->Ok_0));
    } else {
        lemma_first_error_ends_stream(shorter, at, entries);
        assert(sent(after.1) =~= Seq::new(at as nat, |i: int| items[i]->Ok_0));
    }
}

/// Ticks change neither where a request ends nor what is sent: with the
/// ticks taken out, the same messages go out in the same order.
pub proof fn lemma_ticks_change_nothing(
    stage: Stage,
    events: Seq<EventView>,
    entries: Seq<ProviderModelView>,
)
    ensures
        run(stage, events, entries).0 == run(stage, without_ticks(events), entries).0,
        sent(run(stage, events, entries).1) == sent(
            run(stage, without_ticks(events), entries).1,
        ),
    decreases events.len(),
{
    if events.len() > 0 {
        let shorter = events.drop_last();
        lemma_ticks_change_nothing(stage, shorter, entries);
        let before = run(stage, shorter, entries);
        let after = run(stage, events, entries);
        assert(after.1.drop_last() =~= before.1);
        if !(events.last() is Tick) {
            let kept = without_ticks(shorter);
            let all_kept = without_ticks(events);
            assert(all_kept.drop_last() =~= kept);
            assert(all_kept.last() == events.last());
            let kept_before = run(stage, kept, entries);
            let kept_after = run(stage, all_kept, entries);
            assert(kept_after.1.drop_last() =~= kept_before.1);
        }
    }
}

} // verus!
