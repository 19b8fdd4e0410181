use weatherwax::ai::invoke::{step, Action, Event, Stage, KEEP_ALIVE_SECONDS};
use weatherwax::ai::providers::openai::{Delta, OAIRole, OpenAIProvider, StreamResponse};
use weatherwax::ai::registry::ModelsByCode;
use weatherwax::ai::types::{Invocation, Message, Model, Role};
use weatherwax::error::Error;
use weatherwax::get_provider_models;

fn model(code: &str) -> Model {
    Model { code: code.to_string(), supports_function_calling: true, supports_images: true }
}

fn message(role: Role, content: &str) -> Message {
    Message { role, content: content.to_string() }
}

fn one_model() -> ModelsByCode {
    get_provider_models(&vec![vec![model("p::m1")]])
}

fn chunk(role: Option<OAIRole>, content: Option<&str>) -> StreamResponse {
    StreamResponse { choices: vec![Delta { role, content: content.map(|c| c.to_string()) }] }
}

/// Runs the events from `stage` on and gives the last stage and every action.
fn drive(stage: Stage, events: Vec<Event>, models: &ModelsByCode) -> (Stage, Vec<Action>) {
    let mut stage = stage;
    let mut actions = Vec::new();
    for event in events {
        let (next, action) = step(stage, event, models);
        stage = next;
        actions.push(action);
    }
    (stage, actions)
}

fn forwarded(actions: &[Action]) -> Vec<Message> {
    let mut out = Vec::new();
    for action in actions {
        if let Action::Forward(m) = action {
            out.push(m.clone());
        }
    }
    out
}

#[test]
fn keep_alive_interval_is_fifteen_seconds() {
    assert_eq!(KEEP_ALIVE_SECONDS, 15);
}

#[test]
fn request_without_model_resolves_to_the_only_model_and_streams_in_order() {
    let models = one_model();
    let invocation = Invocation { model: None, messages: vec![message(Role::User, "hi")] };
    let (stage, action) = step(Stage::Idle, Event::Decoded(invocation), &models);
    assert_eq!(stage, Stage::Resolving);
    assert_eq!(
        action,
        Action::Invoke {
            provider: 0,
            model: model("p::m1"),
            messages: vec![message(Role::User, "hi")],
        }
    );
    let (stage, action) = step(stage, Event::Accepted, &models);
    assert_eq!((stage, action), (Stage::Streaming, Action::Open));
    let deltas = vec![
        message(Role::Assistant, "Hel"),
        message(Role::Assistant, "lo"),
        message(Role::Assistant, "!"),
    ];
    let mut events: Vec<Event> = deltas.iter().map(|m| Event::Item(Ok(m.clone()))).collect();
    events.push(Event::End);
    let (stage, actions) = drive(stage, events, &models);
    assert_eq!(stage, Stage::Completed);
    assert_eq!(forwarded(&actions), deltas);
    assert_eq!(actions.len(), 4);
    assert_eq!(actions[3], Action::Close);
}

#[test]
fn request_for_a_missing_code_is_answered_with_404_and_no_provider_is_asked() {
    let models = one_model();
    let invocation = Invocation {
        model: Some("missing::code".to_string()),
        messages: vec![message(Role::User, "hi")],
    };
    let (stage, action) = step(Stage::Idle, Event::Decoded(invocation), &models);
    assert_eq!(stage, Stage::Failed);
    assert_eq!(action, Action::Respond(Error::ModelNotFoundError("missing::code".to_string())));
    match action {
        Action::Respond(error) => {
            assert_eq!(error.status_code(), 404);
            assert_eq!(error.reason(), "Model not found");
        }
        _ => unreachable!(),
    }
    // whatever comes afterwards, nothing is invoked, opened or forwarded
    let later = vec![Event::Accepted, Event::Item(Ok(message(Role::Assistant, "x"))), Event::End];
    let (stage, actions) = drive(stage, later, &models);
    assert_eq!(stage, Stage::Failed);
    assert_eq!(actions, vec![Action::Ignore, Action::Ignore, Action::Ignore]);
}

#[test]
fn request_without_model_on_an_empty_registry_is_answered_with_404() {
    let models = ModelsByCode::new();
    let invocation = Invocation { model: None, messages: vec![message(Role::User, "hi")] };
    let (stage, action) = step(Stage::Idle, Event::Decoded(invocation), &models);
    assert_eq!(stage, Stage::Failed);
    assert_eq!(action, Action::Respond(Error::NoModelAvailableError));
    match action {
        Action::Respond(error) => {
            assert_eq!(error.status_code(), 404);
            assert_eq!(error.reason(), "No model available");
        }
        _ => unreachable!(),
    }
}

#[test]
fn two_valid_items_then_a_malformed_one_give_two_events_and_an_error() {
    let models = one_model();
    let natives = vec![
        Ok(chunk(Some(OAIRole::Assistant), Some("one"))),
        Ok(chunk(Some(OAIRole::Assistant), Some("two"))),
        Ok(chunk(None, Some("three"))),
        Ok(chunk(Some(OAIRole::Assistant), Some("four"))),
    ];
    let events: Vec<Event> =
        natives.into_iter().map(|n| Event::Item(OpenAIProvider::adapt(n))).collect();
    let (stage, actions) = drive(Stage::Streaming, events, &models);
    assert_eq!(stage, Stage::Failed);
    assert_eq!(
        actions,
        vec![
            Action::Forward(message(Role::Assistant, "one")),
            Action::Forward(message(Role::Assistant, "two")),
            Action::Abort(Error::OpenAIConversionError("No role in OAI message".to_string())),
            Action::Ignore,
        ]
    );
    assert_eq!(forwarded(&actions).len(), 2);
}

#[test]
fn items_are_forwarded_one_for_one_in_the_order_given() {
    let models = one_model();
    let natives = vec![
        chunk(Some(OAIRole::Assistant), Some("A")),
        chunk(Some(OAIRole::Tool), Some("B")),
        chunk(Some(OAIRole::User), Some("C")),
    ];
    let expected: Vec<Message> = natives
        .iter()
        .map(|n| Message::from_stream_response(n.clone()).expect("a complete item"))
        .collect();
    assert_eq!(
        expected,
        vec![
            message(Role::Assistant, "A"),
            message(Role::Function, "B"),
            message(Role::User, "C"),
        ]
    );
    let events: Vec<Event> =
        natives.into_iter().map(|n| Event::Item(OpenAIProvider::adapt(Ok(n)))).collect();
    let (stage, actions) = drive(Stage::Streaming, events, &models);
    assert_eq!(stage, Stage::Streaming);
    let wanted: Vec<Action> = expected.into_iter().map(Action::Forward).collect();
    assert_eq!(actions, wanted);
}

#[test]
fn a_broken_stream_ends_with_the_providers_error() {
    let models = one_model();
    let events = vec![
        Event::Item(Ok(message(Role::Assistant, "one"))),
        Event::Item(OpenAIProvider::adapt(Err("stream failed: reset".to_string()))),
        Event::Item(Ok(message(Role::Assistant, "two"))),
        Event::End,
    ];
    let (stage, actions) = drive(Stage::Streaming, events, &models);
    assert_eq!(stage, Stage::Failed);
    assert_eq!(
        actions,
        vec![
            Action::Forward(message(Role::Assistant, "one")),
            Action::Abort(Error::OpenAIError("stream failed: reset".to_string())),
            Action::Ignore,
            Action::Ignore,
        ]
    );
}

#[test]
fn ticks_give_heartbeats_and_leave_the_messages_alone() {
    let models = one_model();
    let a = message(Role::Assistant, "A");
    let b = message(Role::Assistant, "B");
    let with_ticks = vec![
        Event::Tick,
        Event::Item(Ok(a.clone())),
        Event::Tick,
        Event::Tick,
        Event::Item(Ok(b.clone())),
        Event::Tick,
        Event::End,
        Event::Tick,
    ];
    let (stage, actions) = drive(Stage::Streaming, with_ticks, &models);
    assert_eq!(stage, Stage::Completed);
    assert_eq!(
        actions,
        vec![
            Action::Heartbeat,
            Action::Forward(a.clone()),
            Action::Heartbeat,
            Action::Heartbeat,
            Action::Forward(b.clone()),
            Action::Heartbeat,
            Action::Close,
            Action::Ignore,
        ]
    );
    let without = vec![Event::Item(Ok(a.clone())), Event::Item(Ok(b.clone())), Event::End];
    let (plain_stage, plain_actions) = drive(Stage::Streaming, without, &models);
    assert_eq!(plain_stage, stage);
    assert_eq!(forwarded(&plain_actions), forwarded(&actions));
    assert_eq!(forwarded(&actions), vec![a, b]);
}

#[test]
fn no_heartbeat_before_the_stream_is_open() {
    let models = one_model();
    assert_eq!(step(Stage::Idle, Event::Tick, &models), (Stage::Idle, Action::Ignore));
    assert_eq!(step(Stage::Resolving, Event::Tick, &models), (Stage::Resolving, Action::Ignore));
    assert_eq!(step(Stage::Completed, Event::Tick, &models), (Stage::Completed, Action::Ignore));
    assert_eq!(step(Stage::Failed, Event::Tick, &models), (Stage::Failed, Action::Ignore));
}

#[test]
fn an_undecodable_body_is_a_client_error() {
    let models = one_model();
    let (stage, action) =
        step(Stage::Idle, Event::Undecodable("missing field `messages`".to_string()), &models);
    assert_eq!(stage, Stage::Failed);
    assert_eq!(
        action,
        Action::Respond(Error::RequestDecodingError("missing field `messages`".to_string()))
    );
    match action {
        Action::Respond(error) => assert_eq!(error.status_code(), 400),
        _ => unreachable!(),
    }
}

#[test]
fn a_refusal_of_the_provider_is_answered_before_streaming() {
    let models = one_model();
    let refusal = Error::OpenAIError("invalid model".to_string());
    let (stage, action) =
        step(Stage::Resolving, Event::Rejected(Error::OpenAIError("invalid model".to_string())), &models);
    assert_eq!(stage, Stage::Failed);
    assert_eq!(refusal.status_code(), 500);
    assert_eq!(action, Action::Respond(refusal));
}

#[test]
fn a_failed_write_abandons_the_stream() {
    let models = one_model();
    let events = vec![
        Event::Item(Ok(message(Role::Assistant, "one"))),
        Event::WriteFailed(Error::IOError("broken pipe".to_string())),
        Event::Item(Ok(message(Role::Assistant, "two"))),
    ];
    let (stage, actions) = drive(Stage::Streaming, events, &models);
    assert_eq!(stage, Stage::Failed);
    assert_eq!(
        actions,
        vec![
            Action::Forward(message(Role::Assistant, "one")),
            Action::Abandon(Error::IOError("broken pipe".to_string())),
            Action::Ignore,
        ]
    );
}

#[test]
fn events_out_of_place_are_ignored() {
    let models = one_model();
    let item = || Event::Item(Ok(message(Role::Assistant, "x")));
    assert_eq!(step(Stage::Idle, item(), &models), (Stage::Idle, Action::Ignore));
    assert_eq!(step(Stage::Idle, Event::Accepted, &models), (Stage::Idle, Action::Ignore));
    assert_eq!(step(Stage::Idle, Event::End, &models), (Stage::Idle, Action::Ignore));
    assert_eq!(step(Stage::Resolving, item(), &models), (Stage::Resolving, Action::Ignore));
    assert_eq!(step(Stage::Resolving, Event::End, &models), (Stage::Resolving, Action::Ignore));
    assert_eq!(step(Stage::Streaming, Event::Accepted, &models), (Stage::Streaming, Action::Ignore));
    let again = Invocation { model: None, messages: Vec::new() };
    assert_eq!(
        step(Stage::Streaming, Event::Decoded(again), &models),
        (Stage::Streaming, Action::Ignore)
    );
}

#[test]
fn a_finished_request_takes_no_more_events() {
    let models = one_model();
    for stage in [Stage::Completed, Stage::Failed] {
        let events = vec![
            Event::Decoded(Invocation { model: None, messages: Vec::new() }),
            Event::Undecodable("x".to_string()),
            Event::Accepted,
            Event::Rejected(Error::NoModelAvailableError),
            Event::Item(Ok(message(Role::Assistant, "x"))),
            Event::Item(Err(Error::NoModelAvailableError)),
            Event::End,
            Event::WriteFailed(Error::IOError("x".to_string())),
            Event::Tick,
        ];
        let (last, actions) = drive(stage, events, &models);
        assert_eq!(last, stage);
        assert_eq!(actions.len(), 9);
        assert!(actions.iter().all(|a| *a == Action::Ignore));
    }
}

#[test]
fn an_empty_conversation_is_still_invoked() {
    let models = one_model();
    let invocation = Invocation { model: Some("p::m1".to_string()), messages: Vec::new() };
    let (stage, action) = step(Stage::Idle, Event::Decoded(invocation), &models);
    assert_eq!(stage, Stage::Resolving);
    assert_eq!(action, Action::Invoke { provider: 0, model: model("p::m1"), messages: Vec::new() });
}
