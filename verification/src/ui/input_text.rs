//! The text field with its sizes fixed: from 500 to 1800 pixels wide, in the
//! middle of the screen.

use vstd::prelude::*;
use crate::canvas::input_text::{
    FieldState, InputTextConfig, InputTextDrawing, InputTextHandler,
};
use crate::geometry::Rect;

verus! {

pub const TEXT_MIN_WIDTH: u16 = 500;

pub const TEXT_MAX_WIDTH: u16 = 1800;

pub const TEXT_FONT_SIZE: u16 = 32;

pub const TEXT_HORIZONTAL_PADDING: u16 = 10;

pub const TEXT_VERTICAL_PADDING: u16 = 15;

pub const TEXT_DEFAULT_PLACEHOLDER: &'static str = "Enter text...";

/// The text field with the default configuration.
pub struct InputText {
    field: InputTextHandler,
}

impl View for InputText {
    type V = FieldState;

    closed spec fn view(&self) -> FieldState {
        self.field@
    }
}

impl InputText {
    /// The field itself.
    pub closed spec fn field(&self) -> InputTextHandler {
        self.field
    }

    /// The rectangle of the field on screen.
    pub open spec fn spec_background_rect(&self) -> Rect {
        self.field().background_rect()
    }

    /// The field is well formed, has the default configuration, and holds
    /// the state that this one shows.
    pub open spec fn wf(&self) -> bool {
        &&& self.field().wf()
        &&& self.field().config() == InputTextConfig::default_config()
        &&& self.field()@ == self@
    }

    /// An empty field.
    pub fn new() -> (t: Self)
        ensures
            t.wf(),
            t@ == FieldState::empty(),
    {
        Self { field: InputTextHandler::new(&InputTextConfig::default()) }
    }

    /// Clears the text and makes the field as narrow as it gets.
    pub fn setup(&mut self)
        requires
            old(self).wf(),
        ensures
            final(self).wf(),
            final(self)@ == FieldState::empty(),
    {
        self.field.setup();
    }

    /// Takes a typed character that is `glyph_width` wide on screen.
    pub fn handle_text_input(&mut self, inputted_char: char, glyph_width: u16)
        requires
            old(self).wf(),
        ensures
            final(self).wf(),
            final(self)@ == old(self)@.typed(
                InputTextConfig::default_config(),
                inputted_char,
                glyph_width,
            ),
    {
        self.field.handle_text_input(inputted_char, glyph_width);
    }

    /// Removes the last character, if there is one.
    pub fn handle_backspace(&mut self)
        requires
            old(self).wf(),
        ensures
            final(self).wf(),
            final(self)@ == old(self)@.erased(),
    {
        self.field.handle_backspace();
    }

    /// The whole text typed so far.
    pub fn entire_text(&self) -> (s: String)
        ensures
            s@ == self@.text,
    {
        self.field.entire_text()
    }

    /// The part of the text that the field shows.
    pub fn displayed_text(&self) -> (s: String)
        requires
            self.wf(),
        ensures
            s@ == self@.displayed(),
    {
        self.field.displayed_text()
    }

    /// Where the field draws its parts.
    pub fn draw(&self) -> (d: InputTextDrawing)
        requires
            self.wf(),
        ensures
            d == self.field().drawing(),
    {
        self.field.draw()
    }

    #[verifier::when_used_as_spec(spec_background_rect)]
    pub fn background_rect(&self) -> (r: Rect)
        ensures
            r == self.spec_background_rect(),
    {
        self.field.background_rect()
    }
}

} // verus!
