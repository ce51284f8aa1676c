//! Discord interaction request and response types. These are plain data
//! structures that match the JSON structure established by the Discord API,
//! each with a mathematical view over which the translation is specified.

use vstd::prelude::*;

verus! {

/// The view of an optional string.
pub open spec fn text_view(text: Option<String>) -> Option<Seq<char>> {
    match text {
        Some(s) => Some(s@),
        None => None,
    }
}

/// What kind of user action an interaction request reports.
#[derive(Clone, Copy, PartialEq, Eq, Structural, Debug)]
pub enum InteractionType {
    Ping,
    ApplicationCommand,
    MessageComponent,
    ModalSubmit,
}

impl InteractionType {
    /// The number that stands for this kind on the wire.
    pub open spec fn spec_code(self) -> u8 {
        match self {
            InteractionType::Ping => 1,
            InteractionType::ApplicationCommand => 2,
            InteractionType::MessageComponent => 3,
            InteractionType::ModalSubmit => 5,
        }
    }

    /// The kind that a wire number stands for, if any.
    pub open spec fn spec_from_code(code: u8) -> Option<InteractionType> {
        if code == 1 {
            Some(InteractionType::Ping)
        } else if code == 2 {
            Some(InteractionType::ApplicationCommand)
        } else if code == 3 {
            Some(InteractionType::MessageComponent)
        } else if code == 5 {
            Some(InteractionType::ModalSubmit)
        } else {
            None
        }
    }

    /// The number that stands for this kind on the wire.
    #[verifier::when_used_as_spec(spec_code)]
    pub fn code(self) -> (code: u8)
        ensures
            code == self.spec_code(),
    {
        match self {
            InteractionType::Ping => 1,
            InteractionType::ApplicationCommand => 2,
            InteractionType::MessageComponent => 3,
            InteractionType::ModalSubmit => 5,
        }
    }

    /// The kind that a wire number stands for, if any.
    pub fn from_code(code: u8) -> (kind: Option<InteractionType>)
        ensures
            kind == Self::spec_from_code(code),
    {
        if code == 1 {
            Some(InteractionType::Ping)
        } else if code == 2 {
            Some(InteractionType::ApplicationCommand)
        } else if code == 3 {
            Some(InteractionType::MessageComponent)
        } else if code == 5 {
            Some(InteractionType::ModalSubmit)
        } else {
            None
        }
    }

    /// Every kind is found again from its wire number, and a wire number
    /// that stands for a kind is that kind's number.
    pub proof fn lemma_code_round_trip(kind: InteractionType, code: u8)
        ensures
            Self::spec_from_code(kind.spec_code()) == Some(kind),
            Self::spec_from_code(code) == Some(kind) ==> kind.spec_code() == code,
    {
    }
}

/// How the reply to an interaction is to be applied.
#[derive(Clone, Copy, PartialEq, Eq, Structural, Debug)]
pub enum InteractionCallbackType {
    Pong,
    ChannelMessageWithSource,
    UpdateMessage,
    Modal,
}

impl InteractionCallbackType {
    /// The number that stands for this reply type on the wire.
    pub open spec fn spec_code(self) -> u8 {
        match self {
            InteractionCallbackType::Pong => 1,
            InteractionCallbackType::ChannelMessageWithSource => 4,
            InteractionCallbackType::UpdateMessage => 7,
            InteractionCallbackType::Modal => 9,
        }
    }

    /// The number that stands for this reply type on the wire.
    #[verifier::when_used_as_spec(spec_code)]
    pub fn code(self) -> (code: u8)
        ensures
            code == self.spec_code(),
    {
        match self {
            InteractionCallbackType::Pong => 1,
            InteractionCallbackType::ChannelMessageWithSource => 4,
            InteractionCallbackType::UpdateMessage => 7,
            InteractionCallbackType::Modal => 9,
        }
    }
}

/// The kinds of component that this library reads and writes.
#[derive(Clone, Copy, PartialEq, Eq, Structural, Debug)]
pub enum ComponentType {
    ActionRow,
    Button,
    TextInput,
}

impl ComponentType {
    /// The number that stands for this component kind on the wire.
    pub open spec fn spec_code(self) -> u8 {
        match self {
            ComponentType::ActionRow => 1,
            ComponentType::Button => 2,
            ComponentType::TextInput => 4,
        }
    }

    /// The component kind that a wire number stands for, if any.
    pub open spec fn spec_from_code(code: u8) -> Option<ComponentType> {
        if code == 1 {
            Some(ComponentType::ActionRow)
        } else if code == 2 {
            Some(ComponentType::Button)
        } else if code == 4 {
            Some(ComponentType::TextInput)
        } else {
            None
        }
    }

    /// The number that stands for this component kind on the wire.
    #[verifier::when_used_as_spec(spec_code)]
    pub fn code(self) -> (code: u8)
        ensures
            code == self.spec_code(),
    {
        match self {
            ComponentType::ActionRow => 1,
            ComponentType::Button => 2,
            ComponentType::TextInput => 4,
        }
    }

    /// The component kind that a wire number stands for, if any.
    pub fn from_code(code: u8) -> (kind: Option<ComponentType>)
        ensures
            kind == Self::spec_from_code(code),
    {
        if code == 1 {
            Some(ComponentType::ActionRow)
        } else if code == 2 {
            Some(ComponentType::Button)
        } else if code == 4 {
            Some(ComponentType::TextInput)
        } else {
            None
        }
    }

    /// Every component kind is found again from its wire number, and a wire
    /// number that stands for a kind is that kind's number.
    pub proof fn lemma_code_round_trip(kind: ComponentType, code: u8)
        ensures
            Self::spec_from_code(kind.spec_code()) == Some(kind),
            Self::spec_from_code(code) == Some(kind) ==> kind.spec_code() == code,
    {
    }
}

/// The visual styles of a text input.
#[derive(Clone, Copy, PartialEq, Eq, Structural, Debug)]
pub enum TextInputStyle {
    Short,
}

impl TextInputStyle {
    /// The number that stands for this style on the wire.
    pub open spec fn spec_code(self) -> u8 {
        1
    }

    /// The number that stands for this style on the wire.
    #[verifier::when_used_as_spec(spec_code)]
    pub fn code(self) -> (code: u8)
        ensures
            code == self.spec_code(),
    {
        1
    }
}

/// The visual styles of a button.
#[derive(Clone, Copy, PartialEq, Eq, Structural, Debug)]
pub enum ButtonStyle {
    Primary,
}

impl ButtonStyle {
    /// The number that stands for this style on the wire.
    pub open spec fn spec_code(self) -> u8 {
        1
    }

    /// The number that stands for this style on the wire.
    #[verifier::when_used_as_spec(spec_code)]
    pub fn code(self) -> (code: u8)
        ensures
            code == self.spec_code(),
    {
        1
    }
}

/// A node of a component tree: an action row that holds other components, or
/// a leaf such as a button or a text input.
#[derive(PartialEq, Debug)]
pub struct Component {
    pub kind: ComponentType,
    pub label: Option<String>,
    pub style: Option<u8>,
    pub custom_id: Option<String>,
    pub value: Option<String>,
    pub components: Option<Vec<Component>>,
}

/// What a `Component` holds, as mathematical values.
pub struct ComponentView {
    pub kind: ComponentType,
    pub label: Option<Seq<char>>,
    pub style: Option<u8>,
    pub custom_id: Option<Seq<char>>,
    pub value: Option<Seq<char>>,
    pub components: Option<Seq<ComponentView>>,
}

/// The view of a component: its own fields, and the views of its children in
/// order.
pub open spec fn component_view(component: Component) -> ComponentView
    decreases component, 0nat,
{
    ComponentView {
        kind: component.kind,
        label: text_view(component.label),
        style: component.style,
        custom_id: text_view(component.custom_id),
        value: text_view(component.value),
        components: match component.components {
            Some(children) => Some(first_views(children@, children@.len())),
            None => None,
        },
    }
}

/// The views of the first `count` of the given components, in order.
pub open spec fn first_views(components: Seq<Component>, count: nat) -> Seq<ComponentView>
    decreases components, count,
{
    if 0 < count <= components.len() {
        first_views(components, (count - 1) as nat).push(
            component_view(components[count - 1]),
        )
    } else {
        Seq::empty()
    }
}

impl View for Component {
    type V = ComponentView;

    open spec fn view(&self) -> ComponentView {
        component_view(*self)
    }
}

/// The views of a sequence of components, in order.
pub open spec fn components_view(components: Seq<Component>) -> Seq<ComponentView> {
    Seq::new(components.len(), |i: int| components[i]@)
}

/// The first `count` views are the views of the first `count` components.
pub proof fn lemma_first_views(components: Seq<Component>, count: nat)
    requires
        count <= components.len(),
    ensures
        first_views(components, count) =~= components_view(components.take(count as int)),
    decreases count,
{
    if count > 0 {
        lemma_first_views(components, (count - 1) as nat);
    }
}

impl Component {
    /// The children in a component's view are the views of its children, in
    /// order.
    pub proof fn lemma_children_view(self)
        ensures
            self@.components == match self.components {
                Some(children) => Some(components_view(children@)),
                None => None,
            },
    {
        match self.components {
            Some(children) => {
                lemma_first_views(children@, children@.len());
                assert(children@.take(children@.len() as int) =~= children@);
            },
            None => {},
        }
    }
}

/// The user who caused an interaction.
#[derive(PartialEq, Debug)]
pub struct User {
    pub id: String,
}

/// What a `User` holds, as mathematical values.
pub struct UserView {
    pub id: Seq<char>,
}

impl View for User {
    type V = UserView;

    open spec fn view(&self) -> UserView {
        UserView { id: self.id@ }
    }
}

/// The guild member who caused an interaction.
#[derive(PartialEq, Debug)]
pub struct GuildMember {
    pub user: User,
}

/// What a `GuildMember` holds, as mathematical values.
pub struct GuildMemberView {
    pub user: UserView,
}

impl View for GuildMember {
    type V = GuildMemberView;

    open spec fn view(&self) -> GuildMemberView {
        GuildMemberView { user: self.user@ }
    }
}

/// The chat message that a component or a modal was attached to.
#[derive(PartialEq, Debug)]
pub struct Message {
    pub content: String,
}

/// What a `Message` holds, as mathematical values.
pub struct MessageView {
    pub content: Seq<char>,
}

impl View for Message {
    type V = MessageView;

    open spec fn view(&self) -> MessageView {
        MessageView { content: self.content@ }
    }
}

/// What the user invoked, pressed or submitted.
#[derive(PartialEq, Debug)]
pub struct InteractionData {
    pub name: Option<String>,
    pub custom_id: Option<String>,
    pub components: Option<Vec<Component>>,
}

/// What an `InteractionData` holds, as mathematical values.
pub struct InteractionDataView {
    pub name: Option<Seq<char>>,
    pub custom_id: Option<Seq<char>>,
    pub components: Option<Seq<ComponentView>>,
}

impl View for InteractionData {
    type V = InteractionDataView;

    open spec fn view(&self) -> InteractionDataView {
        InteractionDataView {
            name: text_view(self.name),
            custom_id: text_view(self.custom_id),
            components: match self.components {
                Some(rows) => Some(components_view(rows@)),
                None => None,
            },
        }
    }
}

/// An interaction as Discord sends it. Which of the optional parts is filled
/// depends on `kind`; nothing in the type enforces it.
#[derive(PartialEq, Debug)]
pub struct InteractionRequest {
    pub kind: InteractionType,
    pub data: Option<InteractionData>,
    pub member: Option<GuildMember>,
    pub message: Option<Message>,
}

/// What an `InteractionRequest` holds, as mathematical values.
pub struct InteractionRequestView {
    pub kind: InteractionType,
    pub data: Option<InteractionDataView>,
    pub member: Option<GuildMemberView>,
    pub message: Option<MessageView>,
}

impl View for InteractionRequest {
    type V = InteractionRequestView;

    open spec fn view(&self) -> InteractionRequestView {
        InteractionRequestView {
            kind: self.kind,
            data: match self.data {
                Some(data) => Some(data@),
                None => None,
            },
            member: match self.member {
                Some(member) => Some(member@),
                None => None,
            },
            message: match self.message {
                Some(message) => Some(message@),
                None => None,
            },
        }
    }
}

/// The payload of a reply.
#[derive(PartialEq, Debug)]
pub struct InteractionCallbackData {
    pub content: Option<String>,
    pub flags: Option<u8>,
    pub components: Vec<Component>,
    pub custom_id: Option<String>,
    pub title: Option<String>,
}

/// What an `InteractionCallbackData` holds, as mathematical values.
pub struct InteractionCallbackDataView {
    pub content: Option<Seq<char>>,
    pub flags: Option<u8>,
    pub components: Seq<ComponentView>,
    pub custom_id: Option<Seq<char>>,
    pub title: Option<Seq<char>>,
}

impl View for InteractionCallbackData {
    type V = InteractionCallbackDataView;

    open spec fn view(&self) -> InteractionCallbackDataView {
        InteractionCallbackDataView {
            content: text_view(self.content),
            flags: self.flags,
            components: components_view(self.components@),
            custom_id: text_view(self.custom_id),
            title: text_view(self.title),
        }
    }
}

/// The reply to an interaction as Discord expects it.
#[derive(PartialEq, Debug)]
pub struct InteractionResponse {
    pub kind: InteractionCallbackType,
    pub data: Option<InteractionCallbackData>,
}

/// What an `InteractionResponse` holds, as mathematical values.
pub struct InteractionResponseView {
    pub kind: InteractionCallbackType,
    pub data: Option<InteractionCallbackDataView>,
}

impl View for InteractionResponse {
    type V = InteractionResponseView;

    open spec fn view(&self) -> InteractionResponseView {
        InteractionResponseView {
            kind: self.kind,
            data: match self.data {
                Some(data) => Some(data@),
                None => None,
            },
        }
    }
}

} // verus!

