use vstd::prelude::*;
use vstd::string::StringExecFns;

verus! {

/// Who speaks in a conversation turn.
#[derive(Clone, Copy, Debug, PartialEq, Eq, Structural)]
pub enum Role {
    System,
    User,
    Assistant,
    /// The result of a function call. Some providers say "tool": both words
    /// mean this one role.
    Function,
}

/// The name of a role on the wire.
pub open spec fn role_name(role: Role) -> Seq<char> {
    match role {
        Role::System => "system"@,
        Role::User => "user"@,
        Role::Assistant => "assistant"@,
        Role::Function => "function"@,
    }
}

/// The role that a name on the wire stands for: the four names of
/// `role_name`, and "tool" as a second spelling of `Function`.
pub open spec fn role_named(name: Seq<char>) -> Option<Role> {
    if name == "system"@ {
        Some(Role::System)
    } else if name == "user"@ {
        Some(Role::User)
    } else if name == "assistant"@ {
        Some(Role::Assistant)
    } else if name == "function"@ || name == "tool"@ {
        Some(Role::Function)
    } else {
        None
    }
}

impl Role {
    /// The name of this role on the wire.
    pub fn as_str(&self) -> (name: &'static str)
        ensures
            name@ == role_name(*self),
    {
        match self {
            Role::System => "system",
            Role::User => "user",
            Role::Assistant => "assistant",
            Role::Function => "function",
        }
    }

    /// The role that `name` stands for on the wire, if it names one.
    pub fn parse(name: &String) -> (role: Option<Role>)
        ensures
            role == role_named(name@),
    {
        if *name == String::from_str("system") {
            Some(Role::System)
        } else if *name == String::from_str("user") {
            Some(Role::User)
        } else if *name == String::from_str("assistant") {
            Some(Role::Assistant)
        } else if *name == String::from_str("function") || *name == String::from_str("tool") {
            Some(Role::Function)
        } else {
            None
        }
    }
}

/// The name that a role is written with is read back as that role.
pub proof fn lemma_role_name_round_trip(role: Role)
    ensures
        role_named(role_name(role)) == Some(role),
{
    reveal_strlit("system");
    reveal_strlit("user");
    reveal_strlit("assistant");
    reveal_strlit("function");
    reveal_strlit("tool");
    assert("system"@.len() == 6 && "user"@.len() == 4 && "assistant"@.len() == 9);
    assert("function"@.len() == 8 && "tool"@.len() == 4);
    assert("user"@[0] == 'u' && "tool"@[0] == 't');
}

/// What a [`Message`] is in contracts.
pub struct MessageView {
    pub role: Role,
    pub content: Seq<char>,
}

/// One conversation turn, independent of any provider.
#[derive(Debug, PartialEq, Eq)]
pub struct Message {
    pub role: Role,
    pub content: String,
}

impl View for Message {
    type V = MessageView;

    open spec fn view(&self) -> MessageView {
        MessageView { role: self.role, content: self.content@ }
    }
}

impl Clone for Message {
    fn clone(&self) -> (copy: Message)
        ensures
            copy@ == self@,
    {
        Message { role: self.role, content: self.content.clone() }
    }
}

/// The views of the messages of a conversation, in order.
pub open spec fn message_views(messages: Seq<Message>) -> Seq<MessageView> {
    Seq::new(messages.len(), |i: int| messages[i]@)
}

/// What a [`Model`] is in contracts.
pub struct ModelView {
    pub code: Seq<char>,
    pub supports_function_calling: bool,
    pub supports_images: bool,
}

/// One model that a provider offers. Its code names it across all providers
/// (`provider::model`).
#[derive(Debug, PartialEq, Eq)]
pub struct Model {
    pub code: String,
    pub supports_function_calling: bool,
    pub supports_images: bool,
}

impl View for Model {
    type V = ModelView;

    open spec fn view(&self) -> ModelView {
        ModelView {
            code: self.code@,
            supports_function_calling: self.supports_function_calling,
            supports_images: self.supports_images,
        }
    }
}

impl Clone for Model {
    fn clone(&self) -> (copy: Model)
        ensures
            copy@ == self@,
    {
        Model {
            code: self.code.clone(),
            supports_function_calling: self.supports_function_calling,
            supports_images: self.supports_images,
        }
    }
}

/// The views of the models of a catalog, in order.
pub open spec fn model_views(models: Seq<Model>) -> Seq<ModelView> {
    Seq::new(models.len(), |i: int| models[i]@)
}

/// The views of the catalogs of all providers, in configuration order.
pub open spec fn catalog_views(catalogs: Seq<Vec<Model>>) -> Seq<Seq<ModelView>> {
    Seq::new(catalogs.len(), |i: int| model_views(catalogs[i]@))
}

/// What an [`Invocation`] is in contracts.
pub struct InvocationView {
    pub model: Option<Seq<char>>,
    pub messages: Seq<MessageView>,
}

/// One request: the code of the model that the caller asks for, if any, and
/// the conversation so far.
#[derive(Debug, PartialEq, Eq)]
pub struct Invocation {
    pub model: Option<String>,
    pub messages: Vec<Message>,
}

impl View for Invocation {
    type V = InvocationView;

    open spec fn view(&self) -> InvocationView {
        InvocationView {
            model: match self.model {
                Some(code) => Some(code@),
                None => None,
            },
            messages: message_views(self.messages@),
        }
    }
}

/// What a [`ProviderModel`] is in contracts.
pub struct ProviderModelView {
    pub provider: usize,
    pub model: ModelView,
}

/// A model together with the provider that serves it. The provider is given
/// by its position in the list of configured providers.
#[derive(Debug, PartialEq, Eq)]
pub struct ProviderModel {
    pub provider: usize,
    pub model: Model,
}

impl View for ProviderModel {
    type V = ProviderModelView;

    open spec fn view(&self) -> ProviderModelView {
        ProviderModelView { provider: self.provider, model: self.model@ }
    }
}

impl Clone for ProviderModel {
    fn clone(&self) -> (copy: ProviderModel)
        ensures
            copy@ == self@,
    {
        ProviderModel { provider: self.provider, model: self.model.clone() }
    }
}

} // verus!
