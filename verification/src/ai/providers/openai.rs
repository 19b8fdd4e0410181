use crate::ai::invoke::{item_events, lemma_stream_preserves_order, run, sent, Stage};
use crate::ai::types::{
    message_views, model_views, Message, MessageView, Model, ModelView, ProviderModelView, Role,
};
use crate::error::{Error, ErrorView};
use async_openai::error::OpenAIError;
use async_openai::types::{
    ChatCompletionRequestAssistantMessageArgs, ChatCompletionRequestMessage,
    ChatCompletionRequestSystemMessageArgs, ChatCompletionRequestToolMessageArgs,
    ChatCompletionRequestUserMessageArgs, CreateChatCompletionRequest,
    CreateChatCompletionRequestArgs,
};
use vstd::prelude::*;
use vstd::string::StringExecFns;

verus! {

/// What the OpenAI provider needs from the configuration.
#[derive(Debug, PartialEq, Eq)]
pub struct OpenAIOpts {
    pub api_key: String,
}

impl Clone for OpenAIOpts {
    fn clone(&self) -> (copy: OpenAIOpts)
        ensures
            copy.api_key@ == self.api_key@,
    {
        OpenAIOpts { api_key: self.api_key.clone() }
    }
}

/// The roles of the OpenAI chat API.
#[derive(Clone, Copy, Debug, PartialEq, Eq, Structural)]
pub enum OAIRole {
    System,
    User,
    Assistant,
    Tool,
    Function,
}

impl From<OAIRole> for Role {
    fn from(role: OAIRole) -> (ours: Role) {
        match role {
            OAIRole::System => Role::System,
            OAIRole::User => Role::User,
            OAIRole::Assistant => Role::Assistant,
            OAIRole::Tool => Role::Function,
            OAIRole::Function => Role::Function,
        }
    }
}

impl vstd::std_specs::convert::FromSpecImpl<OAIRole> for Role {
    open spec fn obeys_from_spec() -> bool {
        true
    }

    /// "tool" and "function" are two spellings of the one role `Function`.
    open spec fn from_spec(role: OAIRole) -> Role {
        match role {
            OAIRole::System => Role::System,
            OAIRole::User => Role::User,
            OAIRole::Assistant => Role::Assistant,
            OAIRole::Tool => Role::Function,
            OAIRole::Function => Role::Function,
        }
    }
}

impl From<Role> for OAIRole {
    fn from(role: Role) -> (theirs: OAIRole) {
        match role {
            Role::System => OAIRole::System,
            Role::User => OAIRole::User,
            Role::Assistant => OAIRole::Assistant,
            Role::Function => OAIRole::Tool,
        }
    }
}

impl vstd::std_specs::convert::FromSpecImpl<Role> for OAIRole {
    open spec fn obeys_from_spec() -> bool {
        true
    }

    /// A function result is sent to OpenAI as a tool message.
    open spec fn from_spec(role: Role) -> OAIRole {
        match role {
            Role::System => OAIRole::System,
            Role::User => OAIRole::User,
            Role::Assistant => OAIRole::Assistant,
            Role::Function => OAIRole::Tool,
        }
    }
}

/// A role that goes out to OpenAI and comes back is the same role.
pub proof fn lemma_role_round_trip(role: Role)
    ensures
        <Role as vstd::std_specs::convert::FromSpec<OAIRole>>::from_spec(
            <OAIRole as vstd::std_specs::convert::FromSpec<Role>>::from_spec(role),
        ) == role,
{
}

/// A message of a chat completion request, as async-openai builds it.
#[verifier::external_type_specification]
#[verifier::external_body]
pub struct ExChatCompletionRequestMessage(ChatCompletionRequestMessage);

/// A chat completion request, as async-openai builds it.
#[verifier::external_type_specification]
#[verifier::external_body]
pub struct ExCreateChatCompletionRequest(CreateChatCompletionRequest);

/// The error of async-openai.
#[verifier::external_type_specification]
#[verifier::external_body]
pub struct ExOpenAIError(OpenAIError);

/// What async-openai's builder of system messages returns when it is given
/// `content` and nothing else.
pub uninterp spec fn built_system_message(content: Seq<char>) -> Result<
    ChatCompletionRequestMessage,
    OpenAIError,
>;

/// What async-openai's builder of user messages returns when it is given
/// `content` as its text and nothing else.
pub uninterp spec fn built_user_message(content: Seq<char>) -> Result<
    ChatCompletionRequestMessage,
    OpenAIError,
>;

/// What async-openai's builder of assistant messages returns when it is
/// given `content` and nothing else.
pub uninterp spec fn built_assistant_message(content: Seq<char>) -> Result<
    ChatCompletionRequestMessage,
    OpenAIError,
>;

/// What async-openai's builder of tool messages returns when it is given
/// `content` and nothing else.
pub uninterp spec fn built_tool_message(content: Seq<char>) -> Result<
    ChatCompletionRequestMessage,
    OpenAIError,
>;

/// What async-openai's builder of chat completion requests returns when it
/// is given the model's code and the messages and nothing else.
pub uninterp spec fn built_completion_request(
    model: Seq<char>,
    messages: Seq<ChatCompletionRequestMessage>,
) -> Result<CreateChatCompletionRequest, OpenAIError>;

/// The text that async-openai's error displays.
pub uninterp spec fn openai_error_text(error: OpenAIError) -> Seq<char>;

/// Builds a system message: `ChatCompletionRequestSystemMessageArgs` of
/// async-openai, given `content` and nothing else, then `build`, and the
/// message as a `ChatCompletionRequestMessage`. The contract only names
/// what comes back: the builder works on its arguments alone.
#[verifier::external_body]
fn system_message(content: String) -> (built: Result<ChatCompletionRequestMessage, OpenAIError>)
    ensures
        built == built_system_message(content@),
{
    let message = ChatCompletionRequestSystemMessageArgs::default().content(content).build()?;
    Ok(message.into())
}

/// Builds a user message: `ChatCompletionRequestUserMessageArgs` of
/// async-openai, given `content` as its text and nothing else, then `build`,
/// and the message as a `ChatCompletionRequestMessage`. The contract only
/// names what comes back: the builder works on its arguments alone.
#[verifier::external_body]
fn user_message(content: String) -> (built: Result<ChatCompletionRequestMessage, OpenAIError>)
    ensures
        built == built_user_message(content@),
{
    let message = ChatCompletionRequestUserMessageArgs::default().content(content).build()?;
    Ok(message.into())
}

/// Builds an assistant message: `ChatCompletionRequestAssistantMessageArgs`
/// of async-openai, given `content` and nothing else, then `build`, and the
/// message as a `ChatCompletionRequestMessage`. The contract only names
/// what comes back: the builder works on its arguments alone.
#[verifier::external_body]
fn assistant_message(content: String) -> (built: Result<ChatCompletionRequestMessage, OpenAIError>)
    ensures
        built == built_assistant_message(content@),
{
    let message = ChatCompletionRequestAssistantMessageArgs::default().content(content).build()?;
    Ok(message.into())
}

/// Builds a tool message: `ChatCompletionRequestToolMessageArgs` of
/// async-openai, given `content` and nothing else, then `build`, and the
/// message as a `ChatCompletionRequestMessage`. The contract only names
/// what comes back: the builder works on its arguments alone.
#[verifier::external_body]
fn tool_message(content: String) -> (built: Result<ChatCompletionRequestMessage, OpenAIError>)
    ensures
        built == built_tool_message(content@),
{
    let message = ChatCompletionRequestToolMessageArgs::default().content(content).build()?;
    Ok(message.into())
}

/// Builds a request: `CreateChatCompletionRequestArgs` of async-openai,
/// given the model's code and the messages and nothing else, then `build`.
/// The contract only names what comes back: the builder works on its
/// arguments alone.
#[verifier::external_body]
fn completion_request(model: &String, messages: Vec<ChatCompletionRequestMessage>) -> (built: Result<
    CreateChatCompletionRequest,
    OpenAIError,
>)
    ensures
        built == built_completion_request(model@, messages@),
{
    CreateChatCompletionRequestArgs::default().model(model).messages(messages).build()
}

/// The text that async-openai's `OpenAIError` displays, by `to_string`. The
/// contract only names it: the text is made from the error alone.
#[verifier::external_body]
fn error_text(error: &OpenAIError) -> (text: String)
    ensures
        text@ == openai_error_text(*error),
{
    error.to_string()
}

/// What the builder of async-openai returns for a message of the
/// conversation: a system, user or assistant message for those roles, and a
/// tool message for a function result.
pub open spec fn built_chat_message(message: MessageView) -> Result<
    ChatCompletionRequestMessage,
    OpenAIError,
> {
    match message.role {
        Role::System => built_system_message(message.content),
        Role::User => built_user_message(message.content),
        Role::Assistant => built_assistant_message(message.content),
        Role::Function => built_tool_message(message.content),
    }
}

/// What comes of a builder's result: what it built, or its failure as an
/// `OpenAIError` of the service with the text that the failure displays.
pub open spec fn built_or_error<T>(outcome: Result<T, OpenAIError>) -> Result<T, ErrorView> {
    match outcome {
        Ok(built) => Ok(built),
        Err(error) => Err(ErrorView::OpenAIError(openai_error_text(error))),
    }
}

/// A result of building in contracts: what was built, or the view of the
/// error.
pub open spec fn built_view<T>(outcome: Result<T, Error>) -> Result<T, ErrorView> {
    match outcome {
        Ok(built) => Ok(built),
        Err(error) => Err(error@),
    }
}

/// Takes what a builder of async-openai returned: what it built stays, and
/// its failure becomes the `OpenAIError` of the service with the text that
/// the failure displays.
pub fn from_builder<T>(outcome: Result<T, OpenAIError>) -> (built: Result<T, Error>)
    ensures
        built_view(built) == built_or_error(outcome),
{
    match outcome {
        Ok(built) => Ok(built),
        Err(error) => Err(Error::OpenAIError(error_text(&error))),
    }
}

/// The message at `at` is the first of the conversation that fails to
/// build.
pub open spec fn first_unbuilt_at(messages: Seq<MessageView>, at: int) -> bool {
    &&& 0 <= at < messages.len()
    &&& built_chat_message(messages[at]) is Err
    &&& forall|k: int| 0 <= k < at ==> built_chat_message(#[trigger] messages[k]) is Ok
}

/// Every message of the conversation builds.
pub open spec fn all_built(messages: Seq<MessageView>) -> bool {
    forall|k: int| 0 <= k < messages.len() ==> built_chat_message(#[trigger] messages[k]) is Ok
}

/// The built messages of a conversation of which every message builds, in
/// order.
pub open spec fn built_chat_messages(messages: Seq<MessageView>) -> Seq<
    ChatCompletionRequestMessage,
> {
    Seq::new(messages.len(), |i: int| built_chat_message(messages[i])->Ok_0)
}

/// What a [`Delta`] is in contracts.
pub struct DeltaView {
    pub role: Option<OAIRole>,
    pub content: Option<Seq<char>>,
}

/// The increment that one choice of a streamed response carries.
#[derive(Debug, PartialEq, Eq)]
pub struct Delta {
    pub role: Option<OAIRole>,
    pub content: Option<String>,
}

impl View for Delta {
    type V = DeltaView;

    open spec fn view(&self) -> DeltaView {
        DeltaView {
            role: self.role,
            content: match self.content {
                Some(text) => Some(text@),
                None => None,
            },
        }
    }
}

impl Clone for Delta {
    fn clone(&self) -> (copy: Delta)
        ensures
            copy@ == self@,
    {
        let content = match &self.content {
            Some(text) => Some(text.clone()),
            None => None,
        };
        Delta { role: self.role, content }
    }
}

/// What a [`StreamResponse`] is in contracts.
pub struct StreamResponseView {
    pub choices: Seq<DeltaView>,
}

/// One item of the stream that OpenAI answers with: the increments of its
/// choices, in order.
#[derive(Debug, PartialEq, Eq)]
pub struct StreamResponse {
    pub choices: Vec<Delta>,
}

impl View for StreamResponse {
    type V = StreamResponseView;

    open spec fn view(&self) -> StreamResponseView {
        StreamResponseView {
            choices: Seq::new(self.choices@.len(), |i: int| self.choices@[i]@),
        }
    }
}

impl Clone for StreamResponse {
    fn clone(&self) -> (copy: StreamResponse)
        ensures
            copy@ == self@,
    {
        let mut choices: Vec<Delta> = Vec::new();
        let mut i: usize = 0;
        while i < self.choices.len()
            invariant
                i <= self.choices@.len(),
                choices@.len() == i,
                forall|k: int| 0 <= k < i ==> (#[trigger] choices@[k])@ == self.choices@[k]@,
            decreases self.choices@.len() - i,
        {
            choices.push(self.choices[i].clone());
            i += 1;
        }
        let copy = StreamResponse { choices };
        assert(copy@.choices =~= self@.choices);
        copy
    }
}

/// The message that a streamed item stands for: the role and the text of
/// its first choice. An item without choices, without a role or without text
/// is a conversion error, looked for in that order.
pub open spec fn message_of_response(response: StreamResponseView) -> Result<
    MessageView,
    ErrorView,
> {
    if response.choices.len() == 0 {
        Err(ErrorView::OpenAIConversionError("No choices in OpenAI response"@))
    } else {
        match response.choices[0].role {
            None => Err(ErrorView::OpenAIConversionError("No role in OAI message"@)),
            Some(role) => match response.choices[0].content {
                None => Err(ErrorView::OpenAIConversionError("No content in OpenAI response"@)),
                Some(text) => Ok(
                    MessageView {
                        role: <Role as vstd::std_specs::convert::FromSpec<OAIRole>>::from_spec(
                            role,
                        ),
                        content: text,
                    },
                ),
            },
        }
    }
}

/// One item of the API's stream in contracts: a response, or the
/// description of the failure that broke the stream.
pub open spec fn item_view(item: Result<StreamResponse, String>) -> Result<
    StreamResponseView,
    Seq<char>,
> {
    match item {
        Ok(response) => Ok(response@),
        Err(text) => Err(text@),
    }
}

/// What one item of the API's stream becomes: the message that a response
/// stands for, and for a failure of the stream the error that carries its
/// description.
pub open spec fn adapted(item: Result<StreamResponseView, Seq<char>>) -> Result<
    MessageView,
    ErrorView,
> {
    match item {
        Ok(response) => message_of_response(response),
        Err(text) => Err(ErrorView::OpenAIError(text)),
    }
}

/// A result in contracts: the view of the message, or the view of the error.
pub open spec fn outcome_view(outcome: Result<Message, Error>) -> Result<MessageView, ErrorView> {
    match outcome {
        Ok(message) => Ok(message@),
        Err(error) => Err(error@),
    }
}

impl Message {
    /// The message of a chat completion request that carries this message,
    /// built by async-openai. Where its builder fails, the failure comes
    /// back as `OpenAIError`.
    pub fn try_into_chat_message(self) -> (built: Result<ChatCompletionRequestMessage, Error>)
        ensures
            built_view(built) == built_or_error(built_chat_message(self@)),
    {
        let outcome = match self.role {
            Role::System => system_message(self.content),
            Role::User => user_message(self.content),
            Role::Assistant => assistant_message(self.content),
            Role::Function => tool_message(self.content),
        };
        from_builder(outcome)
    }

    /// The message that a streamed item of OpenAI stands for.
    pub fn from_stream_response(response: StreamResponse) -> (outcome: Result<Message, Error>)
        ensures
            outcome_view(outcome) == message_of_response(response@),
    {
        if response.choices.len() == 0 {
            return Err(
                Error::OpenAIConversionError(String::from_str("No choices in OpenAI response")),
            );
        }
        let delta = &response.choices[0];
        assert(response@.choices[0] == delta@);
        let role = match delta.role {
            None => {
                return Err(Error::OpenAIConversionError(String::from_str("No role in OAI message")));
            },
            Some(role) => role,
        };
        match &delta.content {
            None => Err(
                Error::OpenAIConversionError(String::from_str("No content in OpenAI response")),
            ),
            Some(text) => Ok(Message { role: Role::from(role), content: text.clone() }),
        }
    }
}

/// The code under which the model that OpenAI calls `id` is registered.
pub open spec fn model_code(id: Seq<char>) -> Seq<char> {
    "openai::"@ + id
}

/// The catalog entry of the model that OpenAI calls `id`.
pub open spec fn offered_model(id: Seq<char>) -> ModelView {
    ModelView { code: model_code(id), supports_function_calling: true, supports_images: true }
}

/// The OpenAI provider: the catalog that it serves, and how a conversation
/// goes out to the API and its answer comes back.
#[derive(Debug)]
pub struct OpenAIProvider {
    models: Vec<Model>,
}

impl OpenAIProvider {
    /// The models that this provider serves, in order.
    pub closed spec fn catalog(&self) -> Seq<ModelView> {
        model_views(self.models@)
    }

    /// The provider that serves the models that OpenAI listed under `ids`,
    /// in the order of the listing.
    pub fn new(ids: &Vec<String>) -> (provider: OpenAIProvider)
        ensures
            provider.catalog() == Seq::new(ids@.len(), |i: int| offered_model(ids@[i]@)),
    {
        let mut models: Vec<Model> = Vec::new();
        let mut i: usize = 0;
        while i < ids.len()
            invariant
                i <= ids@.len(),
                models@.len() == i,
                forall|k: int| 0 <= k < i ==> (#[trigger] models@[k])@ == offered_model(ids@[k]@),
            decreases ids@.len() - i,
        {
            let code = String::from_str("openai::").concat(ids[i].as_str());
            models.push(Model { code, supports_function_calling: true, supports_images: true });
            i += 1;
        }
        let provider = OpenAIProvider { models };
        assert(provider.catalog() =~= Seq::new(ids@.len(), |i: int| offered_model(ids@[i]@)));
        provider
    }

    /// The name of this provider, for diagnostics.
    pub fn name(&self) -> (name: &'static str)
        ensures
            name@ == "openai"@,
    {
        "openai"
    }

    /// The models that this provider serves.
    pub fn models(&self) -> (models: Vec<&Model>)
        ensures
            models@.len() == self.catalog().len(),
            forall|i: int| 0 <= i < models@.len() ==> (#[trigger] models@[i])@ == self.catalog()[i],
    {
        let mut models: Vec<&Model> = Vec::new();
        let mut i: usize = 0;
        while i < self.models.len()
            invariant
                i <= self.models@.len(),
                models@.len() == i,
                forall|k: int| 0 <= k < i ==> (#[trigger] models@[k])@ == self.models@[k]@,
            decreases self.models@.len() - i,
        {
            models.push(&self.models[i]);
            i += 1;
        }
        models
    }

    /// The request that asks `model` to continue the conversation: every
    /// message is built in order, then the request is built from the model's
    /// code and the built messages. The first failure of a builder ends the
    /// work and comes back as `OpenAIError`.
    pub fn chat_request(&self, model: &Model, messages: Vec<Message>) -> (built: Result<
        CreateChatCompletionRequest,
        Error,
    >)
        ensures
            all_built(message_views(messages@)) ==> built_view(built) == built_or_error(
                built_completion_request(
                    model@.code,
                    built_chat_messages(message_views(messages@)),
                ),
            ),
            forall|at: int| #[trigger]
                first_unbuilt_at(message_views(messages@), at) ==> built_view(built) == Err::<
                    CreateChatCompletionRequest,
                    ErrorView,
                >(
                    ErrorView::OpenAIError(
                        openai_error_text(
                            built_chat_message(message_views(messages@)[at])->Err_0,
                        ),
                    ),
                ),
    {
        let ghost all = message_views(messages@);
        let mut converted: Vec<ChatCompletionRequestMessage> = Vec::new();
        let mut i: usize = 0;
        while i < messages.len()
            invariant
                i <= messages@.len(),
                all == message_views(messages@),
                converted@.len() == i,
                forall|k: int|
                    0 <= k < i ==> built_chat_message(#[trigger] all[k]) == Ok::<
                        ChatCompletionRequestMessage,
                        OpenAIError,
                    >(converted@[k]),
            decreases messages@.len() - i,
        {
            match messages[i].clone().try_into_chat_message() {
                Ok(message) => converted.push(message),
                Err(error) => {
                    assert(built_chat_message(all[i as int]) is Err);
                    return Err(error);
                },
            }
            i += 1;
        }
        assert(converted@ =~= built_chat_messages(all));
        from_builder(completion_request(&model.code, converted))
    }

    /// Turns one item of the API's stream into what the pipeline forwards.
    pub fn adapt(item: Result<StreamResponse, String>) -> (outcome: Result<Message, Error>)
        ensures
            outcome_view(outcome) == adapted(item_view(item)),
    {
        match item {
            Ok(response) => Message::from_stream_response(response),
            Err(text) => Err(Error::OpenAIError(text)),
        }
    }
}

/// While every item of the API's stream adapts to a message, the pipeline
/// forwards exactly the adapted items, in the order of the stream.
pub proof fn lemma_adapted_stream_keeps_order(
    natives: Seq<Result<StreamResponseView, Seq<char>>>,
    entries: Seq<ProviderModelView>,
)
    requires
        forall|i: int| 0 <= i < natives.len() ==> adapted(#[trigger] natives[i]) is Ok,
    ensures
        run(
            Stage::Streaming,
            item_events(Seq::new(natives.len(), |i: int| adapted(natives[i]))),
            entries,
        ).0 == Stage::Streaming,
        sent(
            run(
                Stage::Streaming,
                item_events(Seq::new(natives.len(), |i: int| adapted(natives[i]))),
                entries,
            ).1,
        ) == Seq::new(natives.len(), |i: int| adapted(natives[i])->Ok_0),
{
    let items = Seq::new(natives.len(), |i: int| adapted(natives[i]));
    assert forall|i: int| 0 <= i < items.len() implies (#[trigger] items[i]) is Ok by {
        assert(adapted(natives[i]) is Ok);
    }
    lemma_stream_preserves_order(items, entries);
    assert(Seq::new(items.len(), |i: int| items[i]->Ok_0) =~= Seq::new(
        natives.len(),
        |i: int| adapted(natives[i])->Ok_0,
    ));
}

/// An item without choices, without a role or without text adapts to a
/// conversion error, and so does nothing else.
pub proof fn lemma_incomplete_item_is_conversion_error(response: StreamResponseView)
    ensures
        (message_of_response(response) matches Err(error) && error is OpenAIConversionError) <==> (
        response.choices.len() == 0 || response.choices[0].role is None
            || response.choices[0].content is None),
{
}

} // verus!
