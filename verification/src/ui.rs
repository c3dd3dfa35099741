//! Small state types shared with the terminal frontend: focus cycling,
//! popup buttons and settings-field identifiers, with the numeric
//! conversions the key dispatch relies on.

use vstd::prelude::*;

verus! {

/// Outcome of the latest request for a model reply.
#[derive(Clone, Debug)]
pub enum ResponseStatus {
    /// No failure to report.
    Normal,
    /// Receiving the reply failed; the payload is the error text.
    Failed(String),
}

/// Cursor bookkeeping of the input field: the position in characters and
/// the position in display cells.
#[derive(Clone, Copy, Debug, PartialEq, Eq, Structural)]
pub struct CursorProps {
    /// Cursor position counted in characters.
    pub cursor_index: usize,
    /// Cursor position counted in display cells.
    pub charactor_index: usize,
}

/// A chat record's attached image.
#[derive(Clone, Debug)]
pub struct ImageRecord {
    /// Identifier of this image record.
    pub image_record_id: String,
    /// Identifier of the chat record it belongs to.
    pub record_id: String,
    /// Where the image file lives.
    pub image_path: String,
    /// The image's format.
    pub image_type: String,
}

/// What handling a key in the image-path popup asks the caller to do.
#[derive(Clone, Debug)]
pub enum InputPopupHandleEvent {
    /// Keep the entered path; the payload is the popup's content.
    Save(String),
    /// Dismiss the popup.
    Cancel,
    /// Nothing to do.
    Nothing,
}

/// The components of the main window that can hold focus, in Tab order.
#[derive(Clone, Copy, Debug, PartialEq, Eq, Structural)]
pub enum MainFocusComponent {
    /// The message input field.
    InputField,
    /// The button starting a new conversation.
    NewChatButton,
    /// The saved-conversation list.
    ChatItemList,
    /// The button opening the settings window.
    SettingButton,
    /// The chat content display area.
    ChatShow,
}

/// Position of each focusable component in the Tab order.
pub open spec fn main_focus_number(m: MainFocusComponent) -> int {
    match m {
        MainFocusComponent::InputField => 0,
        MainFocusComponent::NewChatButton => 1,
        MainFocusComponent::ChatItemList => 2,
        MainFocusComponent::SettingButton => 3,
        MainFocusComponent::ChatShow => 4,
    }
}

impl MainFocusComponent {
    /// The component at a given position of the Tab order, for positions
    /// `0 ..= 4`; anything else is rejected.
    pub fn try_from(v: i32) -> (r: Result<MainFocusComponent, ()>)
        ensures
            0 <= v < 5 <==> r is Ok,
            r is Ok ==> main_focus_number(r->Ok_0) == v,
    {
        match v {
            0 => Ok(MainFocusComponent::InputField),
            1 => Ok(MainFocusComponent::NewChatButton),
            2 => Ok(MainFocusComponent::ChatItemList),
            3 => Ok(MainFocusComponent::SettingButton),
            4 => Ok(MainFocusComponent::ChatShow),
            _ => Err(()),
        }
    }

    /// The component focused after one press of Tab: the next one in the
    /// Tab order, wrapping around at the end.
    pub fn next_component(&self) -> (r: MainFocusComponent)
        ensures
            main_focus_number(r) == (main_focus_number(*self) + 1) % 5,
    {
        match self {
            MainFocusComponent::InputField => MainFocusComponent::NewChatButton,
            MainFocusComponent::NewChatButton => MainFocusComponent::ChatItemList,
            MainFocusComponent::ChatItemList => MainFocusComponent::SettingButton,
            MainFocusComponent::SettingButton => MainFocusComponent::ChatShow,
            MainFocusComponent::ChatShow => MainFocusComponent::InputField,
        }
    }
}

/// The two buttons of the delete-confirmation popup.
#[derive(Clone, Copy, Debug, PartialEq, Eq, Structural)]
pub enum ButtonType {
    /// Confirm the deletion.
    Confirm,
    /// Keep the conversation.
    Cancel,
}

/// Position of each popup button.
pub open spec fn button_number(b: ButtonType) -> int {
    match b {
        ButtonType::Confirm => 0,
        ButtonType::Cancel => 1,
    }
}

impl ButtonType {
    /// The button at a given position, for positions `0` and `1`; anything
    /// else is rejected.
    pub fn try_from(v: i32) -> (r: Result<ButtonType, ()>)
        ensures
            0 <= v < 2 <==> r is Ok,
            r is Ok ==> button_number(r->Ok_0) == v,
    {
        match v {
            0 => Ok(ButtonType::Confirm),
            1 => Ok(ButtonType::Cancel),
            _ => Err(()),
        }
    }

    /// The other button: selection toggles between the two.
    pub fn next_button(&self) -> (r: ButtonType)
        ensures
            button_number(r) == (button_number(*self) + 1) % 2,
    {
        match self {
            ButtonType::Confirm => ButtonType::Cancel,
            ButtonType::Cancel => ButtonType::Confirm,
        }
    }

    /// Whether pressing this button confirms the deletion.
    pub fn press(&self) -> (r: bool)
        ensures
            r <==> *self is Confirm,
    {
        match self {
            ButtonType::Confirm => true,
            ButtonType::Cancel => false,
        }
    }
}

/// The input fields of the settings window, in traversal order.
#[derive(Clone, Copy, Debug, PartialEq, Eq, Structural)]
pub enum InputIdentifier {
    /// The model name field.
    Model,
    /// The API key field.
    Key,
    /// The system instruction field.
    SystemInstruction,
    /// The response MIME type field.
    ResponseMineType,
    /// The maximum output tokens field.
    MaxOutputTokens,
    /// The temperature field.
    Temperature,
    /// The top-p field.
    TopP,
    /// The top-k field.
    TopK,
}

/// Position of each settings field in the traversal order.
pub open spec fn input_identifier_number(f: InputIdentifier) -> int {
    match f {
        InputIdentifier::Model => 0,
        InputIdentifier::Key => 1,
        InputIdentifier::SystemInstruction => 2,
        InputIdentifier::ResponseMineType => 3,
        InputIdentifier::MaxOutputTokens => 4,
        InputIdentifier::Temperature => 5,
        InputIdentifier::TopP => 6,
        InputIdentifier::TopK => 7,
    }
}

impl InputIdentifier {
    /// The settings field at a given position of the traversal order, for
    /// positions `0 ..= 7`; anything else is rejected.
    pub fn try_from(v: i32) -> (r: Result<InputIdentifier, ()>)
        ensures
            0 <= v < 8 <==> r is Ok,
            r is Ok ==> input_identifier_number(r->Ok_0) == v,
    {
        match v {
            0 => Ok(InputIdentifier::Model),
            1 => Ok(InputIdentifier::Key),
            2 => Ok(InputIdentifier::SystemInstruction),
            3 => Ok(InputIdentifier::ResponseMineType),
            4 => Ok(InputIdentifier::MaxOutputTokens),
            5 => Ok(InputIdentifier::Temperature),
            6 => Ok(InputIdentifier::TopP),
            7 => Ok(InputIdentifier::TopK),
            _ => Err(()),
        }
    }

    /// The field focused after one press of Tab: the next one in traversal
    /// order, wrapping around at the end.
    pub fn next_input_field(&self) -> (r: InputIdentifier)
        ensures
            input_identifier_number(r) == (input_identifier_number(*self) + 1) % 8,
    {
        match self {
            InputIdentifier::Model => InputIdentifier::Key,
            InputIdentifier::Key => InputIdentifier::SystemInstruction,
            InputIdentifier::SystemInstruction => InputIdentifier::ResponseMineType,
            InputIdentifier::ResponseMineType => InputIdentifier::MaxOutputTokens,
            InputIdentifier::MaxOutputTokens => InputIdentifier::Temperature,
            InputIdentifier::Temperature => InputIdentifier::TopP,
            InputIdentifier::TopP => InputIdentifier::TopK,
            InputIdentifier::TopK => InputIdentifier::Model,
        }
    }
}

} // verus!
