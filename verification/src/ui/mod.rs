//! A holder for one widget at a time. Of the two widgets that can be asked
//! for, it has the text field; asking for a list changes nothing.

use vstd::prelude::*;
use crate::canvas::input_text::{FieldState, InputTextConfig, InputTextDrawing};
use crate::ui::input_text::InputText;

pub mod input_text;
pub mod util;

verus! {

/// A widget and what it is set up with.
#[derive(Debug, Clone)]
pub enum UiWidgetSetupData {
    InputText,
    Select(Vec<String>),
}

#[derive(Debug, Clone, Copy, PartialEq, Eq, Structural)]
pub enum UiWidgetType {
    InputText,
    Select,
}

/// What the holder holds: which widget is active, and the text field.
pub struct UiState {
    pub widget: Option<UiWidgetType>,
    pub input: FieldState,
}

impl UiState {
    /// The state after a widget, or none, was asked for. The text field
    /// becomes active and empty; a list leaves everything as it is; none
    /// leaves no widget active.
    pub open spec fn with_type(self, data: Option<UiWidgetSetupData>) -> UiState {
        match data {
            Some(UiWidgetSetupData::InputText) => UiState {
                widget: Some(UiWidgetType::InputText),
                input: FieldState::empty(),
            },
            Some(UiWidgetSetupData::Select(_)) => self,
            None => UiState { widget: None, ..self },
        }
    }

    /// The state after a character was typed: it goes to the text field if
    /// that is active.
    pub open spec fn typed(self, c: char, width: u16) -> UiState {
        match self.widget {
            Some(UiWidgetType::InputText) => UiState {
                input: self.input.typed(InputTextConfig::default_config(), c, width),
                ..self
            },
            _ => self,
        }
    }

    /// The state after backspace: it goes to the text field if that is
    /// active.
    pub open spec fn erased(self) -> UiState {
        match self.widget {
            Some(UiWidgetType::InputText) => UiState { input: self.input.erased(), ..self },
            _ => self,
        }
    }
}

pub struct Ui {
    current_widget: Option<UiWidgetType>,
    input_text: InputText,
}

impl View for Ui {
    type V = UiState;

    closed spec fn view(&self) -> UiState {
        UiState { widget: self.current_widget, input: self.input_text@ }
    }
}

impl Ui {
    /// The text field.
    pub closed spec fn input(&self) -> InputText {
        self.input_text
    }

    pub open spec fn wf(&self) -> bool {
        self.input().wf() && self@.input == self.input()@
    }

    /// A holder without an active widget.
    pub fn new() -> (ui: Self)
        ensures
            ui.wf(),
            ui@ == (UiState { widget: None, input: FieldState::empty() }),
    {
        Self { current_widget: None, input_text: InputText::new() }
    }

    /// Asks for a widget, or for none.
    pub fn set_type(&mut self, data: Option<UiWidgetSetupData>)
        requires
            old(self).wf(),
        ensures
            final(self).wf(),
            final(self)@ == old(self)@.with_type(data),
    {
        match data {
            Some(UiWidgetSetupData::InputText) => {
                self.current_widget = Some(UiWidgetType::InputText);
                self.input_text.setup();
            },
            Some(UiWidgetSetupData::Select(_)) => {},
            None => self.current_widget = None,
        }
    }

    /// Passes a typed character, `glyph_width` wide, to the active widget.
    pub fn handle_text_input(&mut self, inputted_char: char, glyph_width: u16)
        requires
            old(self).wf(),
        ensures
            final(self).wf(),
            final(self)@ == old(self)@.typed(inputted_char, glyph_width),
    {
        match self.current_widget {
            Some(UiWidgetType::InputText) => self.input_text.handle_text_input(
                inputted_char,
                glyph_width,
            ),
            Some(UiWidgetType::Select) => {},
            None => {},
        }
    }

    /// Passes a backspace to the active widget.
    pub fn handle_backspace(&mut self)
        requires
            old(self).wf(),
        ensures
            final(self).wf(),
            final(self)@ == old(self)@.erased(),
    {
        match self.current_widget {
            Some(UiWidgetType::InputText) => self.input_text.handle_backspace(),
            Some(UiWidgetType::Select) => {},
            None => {},
        }
    }

    /// Where the active widget, if any, draws its parts. Only the text field
    /// draws anything.
    pub fn draw(&self) -> (d: Option<InputTextDrawing>)
        requires
            self.wf(),
        ensures
            d == match self@.widget {
                Some(UiWidgetType::InputText) => Some(self.input().field().drawing()),
                _ => None,
            },
    {
        match self.current_widget {
            Some(UiWidgetType::InputText) => Some(self.input_text.draw()),
            Some(UiWidgetType::Select) => None,
            None => None,
        }
    }

    /// The active widget, if any.
    pub fn current_widget(&self) -> (w: Option<UiWidgetType>)
        ensures
            w == self@.widget,
    {
        self.current_widget
    }

    pub fn input_text(&self) -> (t: &InputText)
        ensures
            *t == self.input(),
    {
        &self.input_text
    }
}

} // verus!
