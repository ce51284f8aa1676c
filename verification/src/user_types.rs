//! Application-friendly types: what a handler receives for an interaction and
//! what it answers, and how both relate to Discord's wire types.

use crate::discord_types;
use crate::discord_types::{
    ButtonStyle, Component, ComponentType, ComponentView, InteractionCallbackData,
    InteractionCallbackDataView, InteractionCallbackType, InteractionRequest,
    InteractionRequestView, InteractionResponse, InteractionResponseView, InteractionType,
    TextInputStyle,
};
use crate::field_values::FieldValues;
use vstd::prelude::*;

verus! {

/// The most buttons that one row of a message can hold.
pub const MAX_BUTTONS_PER_ROW: usize = 5;

/// The flag bit that makes a message visible to its recipient only.
pub const EPHEMERAL_FLAG: u8 = 64;

/// A button component, which the user can interact with. If a user clicks such
/// a button, it will spawn a message component interaction.
#[derive(Clone, PartialEq, Debug)]
pub struct Button {
    pub id: String,
    pub text: String,
}

/// What a `Button` holds, as mathematical values.
pub struct ButtonView {
    pub id: Seq<char>,
    pub text: Seq<char>,
}

impl View for Button {
    type V = ButtonView;

    open spec fn view(&self) -> ButtonView {
        ButtonView { id: self.id@, text: self.text@ }
    }
}

/// A message response, resulting in a message in chat.
#[derive(Clone, PartialEq, Debug)]
pub struct Message {
    pub text: String,
    pub buttons: Vec<Button>,
    /// If true, the message will be visible to only the recipient.
    pub ephemeral: bool,
    /// If true, the message will replace the message that it answers.
    pub edit: bool,
}

/// What a `Message` holds, as mathematical values.
pub struct MessageView {
    pub text: Seq<char>,
    pub buttons: Seq<ButtonView>,
    pub ephemeral: bool,
    pub edit: bool,
}

impl View for Message {
    type V = MessageView;

    open spec fn view(&self) -> MessageView {
        MessageView {
            text: self.text@,
            buttons: Seq::new(self.buttons@.len(), |i: int| self.buttons@[i]@),
            ephemeral: self.ephemeral,
            edit: self.edit,
        }
    }
}

/// A text field included in a modal.
#[derive(Clone, PartialEq, Debug)]
pub struct TextField {
    pub id: String,
    pub label: String,
}

/// What a `TextField` holds, as mathematical values.
pub struct TextFieldView {
    pub id: Seq<char>,
    pub label: Seq<char>,
}

impl View for TextField {
    type V = TextFieldView;

    open spec fn view(&self) -> TextFieldView {
        TextFieldView { id: self.id@, label: self.label@ }
    }
}

/// A modal response, which allows the user to input text information. A modal
/// cannot be a response to a modal submit interaction.
#[derive(Clone, PartialEq, Debug)]
pub struct Modal {
    pub id: String,
    pub title: String,
    pub fields: Vec<TextField>,
}

/// What a `Modal` holds, as mathematical values.
pub struct ModalView {
    pub id: Seq<char>,
    pub title: Seq<char>,
    pub fields: Seq<TextFieldView>,
}

impl View for Modal {
    type V = ModalView;

    open spec fn view(&self) -> ModalView {
        ModalView {
            id: self.id@,
            title: self.title@,
            fields: Seq::new(self.fields@.len(), |i: int| self.fields@[i]@),
        }
    }
}

/// A response to an interaction. This response can either be a message in
/// chat, or a modal, which will pop up over the user's screen.
#[derive(Clone, PartialEq, Debug)]
pub enum Response {
    Message(Message),
    Modal(Modal),
}

/// What a `Response` holds, as mathematical values.
pub enum ResponseView {
    Message(MessageView),
    Modal(ModalView),
}

impl View for Response {
    type V = ResponseView;

    open spec fn view(&self) -> ResponseView {
        match self {
            Response::Message(m) => ResponseView::Message(m@),
            Response::Modal(m) => ResponseView::Modal(m@),
        }
    }
}

/// An action row that holds the given components and nothing else.
pub open spec fn action_row(children: Seq<ComponentView>) -> ComponentView {
    ComponentView {
        kind: ComponentType::ActionRow,
        label: None,
        style: None,
        custom_id: None,
        value: None,
        components: Some(children),
    }
}

/// The leaf component that shows a button: primary style, the button's text
/// as its label, the button's id as its id.
pub open spec fn button_component(button: ButtonView) -> ComponentView {
    ComponentView {
        kind: ComponentType::Button,
        label: Some(button.text),
        style: Some(ButtonStyle::Primary.spec_code()),
        custom_id: Some(button.id),
        value: None,
        components: None,
    }
}

/// The leaf component that shows a text field: short style, the field's
/// label and id.
pub open spec fn text_input_component(field: TextFieldView) -> ComponentView {
    ComponentView {
        kind: ComponentType::TextInput,
        label: Some(field.label),
        style: Some(TextInputStyle::Short.spec_code()),
        custom_id: Some(field.id),
        value: None,
        components: None,
    }
}

/// How many rows it takes to show `count` buttons.
pub open spec fn button_row_count(count: nat) -> nat {
    ((count + MAX_BUTTONS_PER_ROW - 1) / (MAX_BUTTONS_PER_ROW as int)) as nat
}

/// The buttons that stand in row `row`: up to five of them, starting at
/// button `5 * row`.
pub open spec fn buttons_of_row(buttons: Seq<ButtonView>, row: int) -> Seq<ButtonView> {
    let start = MAX_BUTTONS_PER_ROW * row;
    let end = if start + MAX_BUTTONS_PER_ROW <= buttons.len() {
        start + MAX_BUTTONS_PER_ROW
    } else {
        buttons.len() as int
    };
    buttons.subrange(start, end)
}

/// The rows of a message: consecutive groups of at most five buttons, in
/// the order of the message, one action row for each group.
pub open spec fn button_rows(buttons: Seq<ButtonView>) -> Seq<ComponentView> {
    Seq::new(
        button_row_count(buttons.len()),
        |row: int|
            action_row(
                Seq::new(
                    buttons_of_row(buttons, row).len(),
                    |i: int| button_component(buttons_of_row(buttons, row)[i]),
                ),
            ),
    )
}

/// The rows of a modal: one action row for each field, holding that field's
/// text input alone.
pub open spec fn field_rows(fields: Seq<TextFieldView>) -> Seq<ComponentView> {
    Seq::new(fields.len(), |i: int| action_row(seq![text_input_component(fields[i])]))
}

/// The reply that carries a message.
pub open spec fn message_response(message: MessageView) -> InteractionResponseView {
    InteractionResponseView {
        kind: if message.edit {
            InteractionCallbackType::UpdateMessage
        } else {
            InteractionCallbackType::ChannelMessageWithSource
        },
        data: Some(
            InteractionCallbackDataView {
                content: Some(message.text),
                flags: if message.ephemeral {
                    Some(EPHEMERAL_FLAG)
                } else {
                    None
                },
                components: button_rows(message.buttons),
                custom_id: None,
                title: None,
            },
        ),
    }
}

/// The reply that opens a modal.
pub open spec fn modal_response(modal: ModalView) -> InteractionResponseView {
    InteractionResponseView {
        kind: InteractionCallbackType::Modal,
        data: Some(
            InteractionCallbackDataView {
                content: None,
                flags: None,
                components: field_rows(modal.fields),
                custom_id: Some(modal.id),
                title: Some(modal.title),
            },
        ),
    }
}

/// The rows of a message hold every button once and in order, five to a row
/// but for the last: there are as many rows as it takes, row `r` holds the
/// buttons from `5 * r` on, and button `i` is child `i % 5` of row `i / 5`.
pub proof fn lemma_button_rows_hold_every_button(buttons: Seq<ButtonView>)
    ensures
        button_rows(buttons).len() == (buttons.len() + 4) / 5,
        forall|r: int|
            0 <= r < button_rows(buttons).len() ==> {
                let row = #[trigger] button_rows(buttons)[r];
                &&& row.kind == ComponentType::ActionRow
                &&& row.components is Some
                &&& 1 <= row.components->0.len() <= MAX_BUTTONS_PER_ROW
                &&& row.components->0.len() == if 5 * r + 5 <= buttons.len() {
                    5
                } else {
                    buttons.len() - 5 * r
                }
            },
        forall|i: int|
            0 <= i < buttons.len() ==> {
                &&& 0 <= i / 5 < button_rows(buttons).len()
                &&& 0 <= i % 5 < button_rows(buttons)[i / 5].components->0.len()
                &&& button_rows(buttons)[i / 5].components->0[i % 5] == button_component(
                    #[trigger] buttons[i],
                )
            },
{
    assert forall|i: int| 0 <= i < buttons.len() implies {
        &&& 0 <= i / 5 < button_rows(buttons).len()
        &&& 0 <= i % 5 < button_rows(buttons)[i / 5].components->0.len()
        &&& button_rows(buttons)[i / 5].components->0[i % 5] == button_component(
            #[trigger] buttons[i],
        )
    } by {
        let r = i / 5;
        assert(buttons_of_row(buttons, r)[i % 5] == buttons[i]);
    }
}

/// The rows of a modal are its fields in order, each alone in its row.
pub proof fn lemma_field_rows_hold_one_field_each(fields: Seq<TextFieldView>)
    ensures
        field_rows(fields).len() == fields.len(),
        forall|i: int|
            0 <= i < fields.len() ==> {
                let row = #[trigger] field_rows(fields)[i];
                &&& row.kind == ComponentType::ActionRow
                &&& row.components is Some
                &&& row.components->0.len() == 1
                &&& row.components->0[0] == text_input_component(fields[i])
            },
{
}

/// Wraps components into an action row.
fn make_action_row(children: Vec<Component>) -> (row: Component)
    ensures
        row@ == action_row(discord_types::components_view(children@)),
{
    let row = Component {
        kind: ComponentType::ActionRow,
        label: None,
        style: None,
        custom_id: None,
        value: None,
        components: Some(children),
    };
    proof {
        row.lemma_children_view();
    }
    row
}

impl Button {
    /// The wire component that shows this button.
    pub fn to_component(&self) -> (component: Component)
        ensures
            component@ == button_component(self@),
    {
        Component {
            kind: ComponentType::Button,
            label: Some(self.text.clone()),
            style: Some(ButtonStyle::Primary.code()),
            custom_id: Some(self.id.clone()),
            value: None,
            components: None,
        }
    }
}

impl TextField {
    /// The wire component that shows this text field.
    pub fn to_component(&self) -> (component: Component)
        ensures
            component@ == text_input_component(self@),
    {
        Component {
            kind: ComponentType::TextInput,
            label: Some(self.label.clone()),
            style: Some(TextInputStyle::Short.code()),
            custom_id: Some(self.id.clone()),
            value: None,
            components: None,
        }
    }
}

impl Message {
    /// Translates the message into the reply that Discord expects. Every
    /// button is kept: the rows hold all of them, five to a row, in order.
    pub fn into_response(self) -> (response: InteractionResponse)
        ensures
            response@ == message_response(self@),
            response.kind == if self.edit {
                InteractionCallbackType::UpdateMessage
            } else {
                InteractionCallbackType::ChannelMessageWithSource
            },
            response.data is Some,
            response.data->0.flags == if self.ephemeral {
                Some(EPHEMERAL_FLAG)
            } else {
                None
            },
    {
        let count = self.buttons.len();
        let ghost buttons = self@.buttons;
        let mut rows: Vec<Component> = Vec::new();
        let mut start: usize = 0;
        while start < count
            invariant
                count == self.buttons@.len(),
                buttons == self@.buttons,
                start <= count,
                start == count || start == MAX_BUTTONS_PER_ROW * rows@.len(),
                rows@.len() == button_row_count(start as nat),
                forall|r: int|
                    0 <= r < rows@.len() ==> (#[trigger] rows@[r])@ == button_rows(buttons)[r],
            decreases count - start,
        {
            let end = if count - start > MAX_BUTTONS_PER_ROW {
                start + MAX_BUTTONS_PER_ROW
            } else {
                count
            };
            let ghost row = rows@.len() as int;
            let mut children: Vec<Component> = Vec::new();
            let mut i: usize = start;
            while i < end
                invariant
                    count == self.buttons@.len(),
                    buttons == self@.buttons,
                    start <= i <= end <= count,
                    children@.len() == i - start,
                    forall|k: int|
                        0 <= k < children@.len() ==> (#[trigger] children@[k])@
                            == button_component(buttons[start + k]),
                decreases end - i,
            {
                children.push(self.buttons[i].to_component());
                i += 1;
            }
            let component = make_action_row(children);
            assert(component@ == button_rows(buttons)[row]) by {
                assert(buttons_of_row(buttons, row) =~= buttons.subrange(
                    start as int,
                    end as int,
                ));
                assert(component@.components->0 =~= button_rows(buttons)[row].components->0);
            }
            rows.push(component);
            start = end;
        }
        let response = InteractionResponse {
            kind: if self.edit {
                InteractionCallbackType::UpdateMessage
            } else {
                InteractionCallbackType::ChannelMessageWithSource
            },
            data: Some(
                InteractionCallbackData {
                    content: Some(self.text),
                    flags: if self.ephemeral {
                        Some(EPHEMERAL_FLAG)
                    } else {
                        None
                    },
                    components: rows,
                    custom_id: None,
                    title: None,
                },
            ),
        };
        assert(response@.data->0.components =~= button_rows(buttons));
        response
    }
}

impl Modal {
    /// Translates the modal into the reply that Discord expects: one row for
    /// each field, in order.
    pub fn into_response(self) -> (response: InteractionResponse)
        ensures
            response@ == modal_response(self@),
            response.kind == InteractionCallbackType::Modal,
    {
        let count = self.fields.len();
        let ghost fields = self@.fields;
        let mut rows: Vec<Component> = Vec::new();
        let mut i: usize = 0;
        while i < count
            invariant
                count == self.fields@.len(),
                fields == self@.fields,
                i <= count,
                rows@.len() == i,
                forall|r: int|
                    0 <= r < rows@.len() ==> (#[trigger] rows@[r])@ == field_rows(fields)[r],
            decreases count - i,
        {
            let mut children: Vec<Component> = Vec::new();
            children.push(self.fields[i].to_component());
            let component = make_action_row(children);
            assert(component@.components->0 =~= field_rows(fields)[i as int].components->0);
            rows.push(component);
            i += 1;
        }
        let response = InteractionResponse {
            kind: InteractionCallbackType::Modal,
            data: Some(
                InteractionCallbackData {
                    content: None,
                    flags: None,
                    components: rows,
                    custom_id: Some(self.id),
                    title: Some(self.title),
                },
            ),
        };
        assert(response@.data->0.components =~= field_rows(fields));
        response
    }
}

/// Convenience methods for building messages.
impl Message {
    /// Creates a new message, defaulting to non-ephemeral, and non-editing.
    pub fn new() -> (message: Message)
        ensures
            message@ == (MessageView {
                text: Seq::empty(),
                buttons: Seq::empty(),
                ephemeral: false,
                edit: false,
            }),
    {
        let message = Message {
            text: String::new(),
            buttons: Vec::new(),
            ephemeral: false,
            edit: false,
        };
        assert(message@.buttons =~= Seq::empty());
        message
    }

    /// Sets the `text` field on the message.
    pub fn text(self, text: &str) -> (message: Message)
        ensures
            message@ == (MessageView { text: text@, ..self@ }),
    {
        let mut message = self;
        message.text = text.to_owned();
        message
    }

    /// Adds a button to the message, behind those that it has.
    pub fn button(self, id: &str, text: &str) -> (message: Message)
        ensures
            message@ == (MessageView {
                buttons: self@.buttons.push(ButtonView { id: id@, text: text@ }),
                ..self@
            }),
    {
        let mut message = self;
        message.buttons.push(Button { id: id.to_owned(), text: text.to_owned() });
        assert(message@.buttons =~= self@.buttons.push(ButtonView { id: id@, text: text@ }));
        message
    }

    /// Sets the message to be ephemeral.
    pub fn ephemeral(self) -> (message: Message)
        ensures
            message@ == (MessageView { ephemeral: true, ..self@ }),
    {
        let mut message = self;
        message.ephemeral = true;
        message
    }

    /// Sets the message to edit the discord message that spawned it.
    pub fn edit(self) -> (message: Message)
        ensures
            message@ == (MessageView { edit: true, ..self@ }),
    {
        let mut message = self;
        message.edit = true;
        message
    }
}

/// Convenience methods for building modals.
impl Modal {
    /// Creates a new modal, with the id `unknown modal`, an empty title and
    /// no fields.
    pub fn new() -> (modal: Modal)
        ensures
            modal@ == (ModalView {
                id: "unknown modal"@,
                title: Seq::empty(),
                fields: Seq::empty(),
            }),
    {
        let modal = Modal {
            id: "unknown modal".to_owned(),
            title: String::new(),
            fields: Vec::new(),
        };
        assert(modal@.fields =~= Seq::empty());
        modal
    }

    /// Sets the `id` of the modal.
    pub fn id(self, id: &str) -> (modal: Modal)
        ensures
            modal@ == (ModalView { id: id@, ..self@ }),
    {
        let mut modal = self;
        modal.id = id.to_owned();
        modal
    }

    /// Sets the `title` of the modal.
    pub fn title(self, title: &str) -> (modal: Modal)
        ensures
            modal@ == (ModalView { title: title@, ..self@ }),
    {
        let mut modal = self;
        modal.title = title.to_owned();
        modal
    }

    /// Adds a field to the modal, behind those that it has.
    pub fn field(self, id: &str, label: &str) -> (modal: Modal)
        ensures
            modal@ == (ModalView {
                fields: self@.fields.push(TextFieldView { id: id@, label: label@ }),
                ..self@
            }),
    {
        let mut modal = self;
        modal.fields.push(TextField { id: id.to_owned(), label: label.to_owned() });
        assert(modal@.fields =~= self@.fields.push(TextFieldView { id: id@, label: label@ }));
        modal
    }
}

/// Why a request could not be translated.
#[derive(Clone, Copy, PartialEq, Eq, Structural, Debug)]
pub enum DecodeError {
    /// A part that the kind of interaction requires is absent.
    MissingField,
    /// A row of a submitted modal has no child, or its first child lacks its
    /// id or its value.
    MalformedComponents,
}

/// A message that a message component or modal was attached to.
/// This allows the application to maintain some notion of "state", by
/// reasoning based on the source message's text.
#[derive(Clone, PartialEq, Debug)]
pub struct SourceMessage {
    pub text: String,
}

/// What a `SourceMessage` holds, as mathematical values.
pub struct SourceMessageView {
    pub text: Seq<char>,
}

impl View for SourceMessage {
    type V = SourceMessageView;

    open spec fn view(&self) -> SourceMessageView {
        SourceMessageView { text: self.text@ }
    }
}

/// A top level interaction initiated by the user. Application commands do not
/// require any existing conversation with the bot to be occurring.
#[derive(Clone, PartialEq, Debug)]
pub struct ApplicationCommand {
    pub command_name: String,
    pub user_id: String,
}

/// What an `ApplicationCommand` holds, as mathematical values.
pub struct ApplicationCommandView {
    pub command_name: Seq<char>,
    pub user_id: Seq<char>,
}

impl View for ApplicationCommand {
    type V = ApplicationCommandView;

    open spec fn view(&self) -> ApplicationCommandView {
        ApplicationCommandView { command_name: self.command_name@, user_id: self.user_id@ }
    }
}

/// An interaction caused by the user's interaction with a message component
/// embedded in a chat message.
#[derive(Clone, PartialEq, Debug)]
pub struct MessageComponent {
    pub id: String,
    /// The message that this component was attached to.
    pub source: SourceMessage,
}

/// What a `MessageComponent` holds, as mathematical values.
pub struct MessageComponentView {
    pub id: Seq<char>,
    pub source: SourceMessageView,
}

impl View for MessageComponent {
    type V = MessageComponentView;

    open spec fn view(&self) -> MessageComponentView {
        MessageComponentView { id: self.id@, source: self.source@ }
    }
}

/// An interaction caused by the user submitting a completed modal form.
/// Modals are the primary way of retrieving text input from the user.
#[derive(Debug)]
pub struct ModalSubmit {
    pub id: String,
    pub values: FieldValues,
    /// The message that this modal was attached to.
    pub source: SourceMessage,
}

/// What a `ModalSubmit` holds, as mathematical values.
pub struct ModalSubmitView {
    pub id: Seq<char>,
    pub values: Map<Seq<char>, Seq<char>>,
    pub source: SourceMessageView,
}

impl View for ModalSubmit {
    type V = ModalSubmitView;

    open spec fn view(&self) -> ModalSubmitView {
        ModalSubmitView { id: self.id@, values: self.values@, source: self.source@ }
    }
}

/// The text of the message that a request came from; empty where the request
/// carries no message.
pub open spec fn source_of(request: InteractionRequestView) -> SourceMessageView {
    SourceMessageView {
        text: match request.message {
            Some(message) => message.content,
            None => Seq::empty(),
        },
    }
}

/// The application command that a request holds: its `data.name` and its
/// `member.user.id`, both of which must be there.
pub open spec fn application_command_of(request: InteractionRequestView) -> Result<
    ApplicationCommandView,
    DecodeError,
> {
    if request.data is Some && request.data->0.name is Some && request.member is Some {
        Ok(
            ApplicationCommandView {
                command_name: request.data->0.name->0,
                user_id: request.member->0.user.id,
            },
        )
    } else {
        Err(DecodeError::MissingField)
    }
}

/// The message component interaction that a request holds: its
/// `data.custom_id`, which must be there, and the source message.
pub open spec fn message_component_of(request: InteractionRequestView) -> Result<
    MessageComponentView,
    DecodeError,
> {
    if request.data is Some && request.data->0.custom_id is Some {
        Ok(MessageComponentView { id: request.data->0.custom_id->0, source: source_of(request) })
    } else {
        Err(DecodeError::MissingField)
    }
}

/// The id and value that a row of a submitted modal carries: those of its
/// first child. `None` where the row has no child or the child lacks either.
pub open spec fn row_entry(row: ComponentView) -> Option<(Seq<char>, Seq<char>)> {
    if row.components is Some && row.components->0.len() > 0
        && row.components->0[0].custom_id is Some && row.components->0[0].value is Some {
        Some((row.components->0[0].custom_id->0, row.components->0[0].value->0))
    } else {
        None
    }
}

/// Every row carries an id and a value.
pub open spec fn rows_well_formed(rows: Seq<ComponentView>) -> bool {
    forall|i: int| 0 <= i < rows.len() ==> (#[trigger] row_entry(rows[i])) is Some
}

/// The values of well-formed rows by field id. Where an id occurs in more
/// than one row, the last row decides.
pub open spec fn row_values(rows: Seq<ComponentView>) -> Map<Seq<char>, Seq<char>>
    decreases rows.len(),
{
    if rows.len() == 0 {
        Map::empty()
    } else {
        let entry = row_entry(rows.last())->0;
        row_values(rows.drop_last()).insert(entry.0, entry.1)
    }
}

/// The modal submission that a request holds: its `data.custom_id` and
/// `data.components`, which must be there, the values of the rows, and the
/// source message.
pub open spec fn modal_submit_of(request: InteractionRequestView) -> Result<
    ModalSubmitView,
    DecodeError,
> {
    if request.data is Some && request.data->0.custom_id is Some
        && request.data->0.components is Some {
        if rows_well_formed(request.data->0.components->0) {
            Ok(
                ModalSubmitView {
                    id: request.data->0.custom_id->0,
                    values: row_values(request.data->0.components->0),
                    source: source_of(request),
                },
            )
        } else {
            Err(DecodeError::MalformedComponents)
        }
    } else {
        Err(DecodeError::MissingField)
    }
}

impl SourceMessage {
    /// The source message of a request. A request without a message gives an
    /// empty text.
    pub fn from_request(request: &InteractionRequest) -> (source: SourceMessage)
        ensures
            source@ == source_of(request@),
    {
        match &request.message {
            Some(message) => SourceMessage { text: message.content.clone() },
            None => SourceMessage { text: String::new() },
        }
    }
}

impl ApplicationCommand {
    /// Reads an application command out of a request, whatever the request's
    /// kind says.
    pub fn from_request(request: &InteractionRequest) -> (decoded: Result<
        ApplicationCommand,
        DecodeError,
    >)
        ensures
            match decoded {
                Ok(command) => application_command_of(request@) == Ok::<_, DecodeError>(command@),
                Err(error) => application_command_of(request@) == Err::<
                    ApplicationCommandView,
                    _,
                >(error),
            },
    {
        match (&request.data, &request.member) {
            (Some(data), Some(member)) => match &data.name {
                Some(name) => Ok(
                    ApplicationCommand {
                        command_name: name.clone(),
                        user_id: member.user.id.clone(),
                    },
                ),
                None => Err(DecodeError::MissingField),
            },
            _ => Err(DecodeError::MissingField),
        }
    }
}

impl MessageComponent {
    /// Reads a message component interaction out of a request, whatever the
    /// request's kind says.
    pub fn from_request(request: &InteractionRequest) -> (decoded: Result<
        MessageComponent,
        DecodeError,
    >)
        ensures
            match decoded {
                Ok(component) => message_component_of(request@) == Ok::<_, DecodeError>(
                    component@,
                ),
                Err(error) => message_component_of(request@) == Err::<MessageComponentView, _>(
                    error,
                ),
            },
    {
        match &request.data {
            Some(data) => match &data.custom_id {
                Some(id) => Ok(
                    MessageComponent {
                        id: id.clone(),
                        source: SourceMessage::from_request(request),
                    },
                ),
                None => Err(DecodeError::MissingField),
            },
            None => Err(DecodeError::MissingField),
        }
    }
}

impl ModalSubmit {
    /// Reads a modal submission out of a request, whatever the request's
    /// kind says.
    pub fn from_request(request: &InteractionRequest) -> (decoded: Result<
        ModalSubmit,
        DecodeError,
    >)
        ensures
            match decoded {
                Ok(submit) => modal_submit_of(request@) == Ok::<_, DecodeError>(submit@),
                Err(error) => modal_submit_of(request@) == Err::<ModalSubmitView, _>(error),
            },
    {
        let data = match &request.data {
            Some(data) => data,
            None => {
                return Err(DecodeError::MissingField);
            },
        };
        let id = match &data.custom_id {
            Some(id) => id,
            None => {
                return Err(DecodeError::MissingField);
            },
        };
        let rows = match &data.components {
            Some(rows) => rows,
            None => {
                return Err(DecodeError::MissingField);
            },
        };
        let ghost row_views = discord_types::components_view(rows@);
        assert(request@.data->0.components->0 == row_views);
        let mut values = FieldValues::new();
        let count = rows.len();
        let mut i: usize = 0;
        while i < count
            invariant
                count == rows@.len(),
                row_views == discord_types::components_view(rows@),
                request@.data is Some,
                request@.data->0.custom_id is Some,
                request@.data->0.components == Some(row_views),
                i <= count,
                rows_well_formed(row_views.take(i as int)),
                values@ == row_values(row_views.take(i as int)),
            decreases count - i,
        {
            let row = &rows[i];
            proof {
                row.lemma_children_view();
                assert(row_views[i as int] == row@);
            }
            let ghost prefix = row_views.take(i + 1);
            assert(prefix.drop_last() =~= row_views.take(i as int));
            assert(prefix.last() == row@);
            let entry = match &row.components {
                Some(children) => if children.len() > 0 {
                    let child = &children[0];
                    assert(row@.components->0[0] == child@);
                    match (&child.custom_id, &child.value) {
                        (Some(child_id), Some(value)) => Some((child_id.clone(), value.clone())),
                        _ => None,
                    }
                } else {
                    None
                },
                None => None,
            };
            match entry {
                Some((child_id, value)) => {
                    assert(row_entry(row@) == Some((child_id@, value@)));
                    values.insert(child_id, value);
                },
                None => {
                    assert(row_entry(row_views[i as int]) is None);
                    return Err(DecodeError::MalformedComponents);
                },
            }
            assert(rows_well_formed(prefix)) by {
                assert forall|k: int| 0 <= k < prefix.len() implies (#[trigger] row_entry(
                    prefix[k],
                )) is Some by {
                    if k < i {
                        assert(prefix[k] == row_views.take(i as int)[k]);
                    }
                }
            }
            i += 1;
        }
        assert(row_views.take(count as int) =~= row_views);
        Ok(ModalSubmit { id: id.clone(), values, source: SourceMessage::from_request(request) })
    }
}

/// An interaction in application terms: what a handler receives. A liveness
/// ping is none of these; it is answered before any handler is asked.
#[derive(Debug)]
pub enum Request {
    ApplicationCommand(ApplicationCommand),
    MessageComponent(MessageComponent),
    ModalSubmit(ModalSubmit),
}

/// What a `Request` holds, as mathematical values.
pub enum RequestView {
    ApplicationCommand(ApplicationCommandView),
    MessageComponent(MessageComponentView),
    ModalSubmit(ModalSubmitView),
}

impl View for Request {
    type V = RequestView;

    open spec fn view(&self) -> RequestView {
        match self {
            Request::ApplicationCommand(command) => RequestView::ApplicationCommand(command@),
            Request::MessageComponent(component) => RequestView::MessageComponent(component@),
            Request::ModalSubmit(submit) => RequestView::ModalSubmit(submit@),
        }
    }
}

impl Request {
    /// The kind of interaction that this request stands for.
    pub open spec fn spec_kind(self) -> InteractionType {
        match self {
            Request::ApplicationCommand(_) => InteractionType::ApplicationCommand,
            Request::MessageComponent(_) => InteractionType::MessageComponent,
            Request::ModalSubmit(_) => InteractionType::ModalSubmit,
        }
    }

    /// The kind of interaction that this request stands for.
    pub fn kind(&self) -> (kind: InteractionType)
        ensures
            kind == self.spec_kind(),
    {
        match self {
            Request::ApplicationCommand(_) => InteractionType::ApplicationCommand,
            Request::MessageComponent(_) => InteractionType::MessageComponent,
            Request::ModalSubmit(_) => InteractionType::ModalSubmit,
        }
    }
}

/// What a wire request holds in application terms. The kind decides which
/// parts are read; a ping holds no request; a request that lacks what its
/// kind requires holds none either, and the failure says why.
pub open spec fn decoded(request: InteractionRequestView) -> Result<
    Option<RequestView>,
    DecodeError,
> {
    match request.kind {
        InteractionType::Ping => Ok(None),
        InteractionType::ApplicationCommand => match application_command_of(request) {
            Ok(command) => Ok(Some(RequestView::ApplicationCommand(command))),
            Err(error) => Err(error),
        },
        InteractionType::MessageComponent => match message_component_of(request) {
            Ok(component) => Ok(Some(RequestView::MessageComponent(component))),
            Err(error) => Err(error),
        },
        InteractionType::ModalSubmit => match modal_submit_of(request) {
            Ok(submit) => Ok(Some(RequestView::ModalSubmit(submit))),
            Err(error) => Err(error),
        },
    }
}

/// Reads a wire request in application terms, by its kind. A ping gives no
/// request.
pub fn decode(request: &InteractionRequest) -> (result: Result<Option<Request>, DecodeError>)
    ensures
        match result {
            Ok(Some(read)) => decoded(request@) == Ok::<_, DecodeError>(Some(read@)),
            Ok(None) => decoded(request@) == Ok::<Option<RequestView>, DecodeError>(None),
            Err(error) => decoded(request@) == Err::<Option<RequestView>, _>(error),
        },
{
    match request.kind {
        InteractionType::Ping => Ok(None),
        InteractionType::ApplicationCommand => match ApplicationCommand::from_request(request) {
            Ok(command) => Ok(Some(Request::ApplicationCommand(command))),
            Err(error) => Err(error),
        },
        InteractionType::MessageComponent => match MessageComponent::from_request(request) {
            Ok(component) => Ok(Some(Request::MessageComponent(component))),
            Err(error) => Err(error),
        },
        InteractionType::ModalSubmit => match ModalSubmit::from_request(request) {
            Ok(submit) => Ok(Some(Request::ModalSubmit(submit))),
            Err(error) => Err(error),
        },
    }
}

} // verus!
