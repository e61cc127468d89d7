//! The interactive widgets shown in the middle of the screen, and the
//! dispatcher that forwards keyboard input to the active one.

use vstd::prelude::*;
use crate::app::FinishedMessage;
use crate::canvas::input_text::{
    FieldState, InputTextConfig, InputTextDrawing, InputTextHandler,
};
use crate::canvas::select::{
    all_positions, matching, texts, ListState, SelectConfig, SelectDrawing, SelectHandler,
};

pub mod input_text;
pub mod select;

verus! {

/// The arrow keys.
#[derive(Clone, Copy, Debug, PartialEq, Eq, Structural)]
pub enum ArrowKey {
    Up,
    Down,
    Left,
    Right,
}

/// The widget a command asks for: a text field, or a choice among options.
#[derive(Debug, Clone, PartialEq, Eq)]
pub enum CanvasMode {
    InputText,
    Select(Vec<String>),
}

/// A widget request as a plain value: the options as texts.
pub enum ModeState {
    InputText,
    Select(Seq<Seq<char>>),
}

impl View for CanvasMode {
    type V = ModeState;

    open spec fn view(&self) -> ModeState {
        match self {
            CanvasMode::InputText => ModeState::InputText,
            CanvasMode::Select(options) => ModeState::Select(texts(options@)),
        }
    }
}

/// The view of an optional widget request.
pub open spec fn mode_view(mode: Option<CanvasMode>) -> Option<ModeState> {
    match mode {
        Some(m) => Some(m@),
        None => None,
    }
}

/// What the canvas holds: the active widget, if any, and the state of the
/// text field, of the list and of the list's filter box.
pub struct CanvasState {
    pub mode: Option<ModeState>,
    pub input: FieldState,
    pub filter: FieldState,
    pub list: ListState,
}

impl CanvasState {
    /// The canvas after `mode` was set. A widget that becomes active starts
    /// afresh: the text field empty, the list with every option selected.
    pub open spec fn with_mode(self, mode: Option<ModeState>) -> CanvasState {
        match mode {
            None => CanvasState { mode, ..self },
            Some(ModeState::InputText) => CanvasState { mode, input: FieldState::empty(), ..self },
            Some(ModeState::Select(options)) => CanvasState {
                mode,
                filter: FieldState::empty(),
                list: ListState::fresh(options, all_positions(options.len())),
                ..self
            },
        }
    }

    /// The canvas after a character was typed: it goes to the active widget.
    /// The list takes it into its filter box and selects anew.
    pub open spec fn typed(
        self,
        input_config: InputTextConfig,
        filter_config: InputTextConfig,
        c: char,
        width: u16,
    ) -> CanvasState {
        match self.mode {
            None => self,
            Some(ModeState::InputText) => CanvasState {
                input: self.input.typed(input_config, c, width),
                ..self
            },
            Some(ModeState::Select(_)) => self.with_filter(
                self.filter.typed(filter_config, c, width),
            ),
        }
    }

    /// The canvas after backspace: it goes to the active widget.
    pub open spec fn erased(self) -> CanvasState {
        match self.mode {
            None => self,
            Some(ModeState::InputText) => CanvasState { input: self.input.erased(), ..self },
            Some(ModeState::Select(_)) => self.with_filter(self.filter.erased()),
        }
    }

    /// The canvas with `filter` in the list's filter box and the list
    /// selected anew from it.
    pub open spec fn with_filter(self, filter: FieldState) -> CanvasState {
        CanvasState {
            filter,
            list: ListState::fresh(
                self.list.options,
                matching(self.list.options, filter.text),
            ),
            ..self
        }
    }

    /// The canvas after an arrow key: only the list takes it.
    pub open spec fn moved(self, max_shown: int, key: ArrowKey) -> CanvasState {
        match self.mode {
            Some(ModeState::Select(_)) => CanvasState {
                list: self.list.moved(max_shown, key),
                ..self
            },
            _ => self,
        }
    }

    /// What Enter submits: the text of the text field, the highlighted option
    /// of the list, or nothing where there is no widget or no option.
    pub open spec fn submission(self) -> Option<Seq<char>> {
        match self.mode {
            None => None,
            Some(ModeState::InputText) => Some(self.input.text),
            Some(ModeState::Select(_)) => self.list.chosen(),
        }
    }
}

/// Where the active widget draws its parts.
#[derive(Debug)]
pub enum CanvasDrawing {
    InputText(InputTextDrawing),
    Select(SelectDrawing),
}

/// The canvas: the active widget, if any, and the two widgets themselves.
pub struct Canvas {
    current_mode: Option<CanvasMode>,
    handler_input_text: InputTextHandler,
    handler_select: SelectHandler,
}

impl View for Canvas {
    type V = CanvasState;

    closed spec fn view(&self) -> CanvasState {
        CanvasState {
            mode: mode_view(self.current_mode),
            input: self.handler_input_text@,
            filter: self.handler_select.input()@,
            list: self.handler_select@,
        }
    }
}

/// A copy of the strings `v`.
fn clone_strings(v: &Vec<String>) -> (r: Vec<String>)
    ensures
        r@ == v@,
{
    let mut r: Vec<String> = Vec::new();
    let mut i: usize = 0;
    while i < v.len()
        invariant
            i <= v.len(),
            r@ == v@.subrange(0, i as int),
        decreases v.len() - i,
    {
        r.push(v[i].clone());
        i += 1;
        assert(r@ =~= v@.subrange(0, i as int));
    }
    assert(v@.subrange(0, v.len() as int) =~= v@);
    r
}

/// A copy of an optional widget request.
pub fn copy_mode(mode: &Option<CanvasMode>) -> (r: Option<CanvasMode>)
    ensures
        mode_view(r) == mode_view(*mode),
{
    match mode {
        Some(CanvasMode::InputText) => Some(CanvasMode::InputText),
        Some(CanvasMode::Select(options)) => Some(CanvasMode::Select(clone_strings(options))),
        None => None,
    }
}

impl Canvas {
    /// The text field.
    pub closed spec fn input(&self) -> InputTextHandler {
        self.handler_input_text
    }

    /// The list.
    pub closed spec fn select(&self) -> SelectHandler {
        self.handler_select
    }

    /// Both widgets are well formed.
    pub open spec fn wf(&self) -> bool {
        &&& self.input().wf()
        &&& self.select().wf()
        &&& self@.input == self.input()@
        &&& self@.filter == self.select().input()@
        &&& self@.list == self.select()@
    }

    /// The configuration of the text field.
    pub open spec fn input_config(&self) -> InputTextConfig {
        self.input().config()
    }

    /// The configuration of the list's filter box.
    pub open spec fn filter_config(&self) -> InputTextConfig {
        self.select().config().input_text_config
    }

    /// Number of options the list shows at most.
    pub open spec fn max_shown(&self) -> int {
        self.select().max_shown()
    }

    /// The two configurations.
    pub open spec fn configs(&self) -> (InputTextConfig, SelectConfig) {
        (self.input().config(), self.select().config())
    }

    /// A canvas without an active widget, its widgets made with the default
    /// configurations.
    pub fn new() -> (c: Self)
        ensures
            c.wf(),
            c@.mode is None,
            c@.input == FieldState::empty(),
            c@.filter == FieldState::empty(),
            c@.list == ListState::fresh(Seq::empty(), Seq::empty()),
            c.input_config() == InputTextConfig::default_config(),
            c.select().config() == (SelectConfig {
                input_text_config: SelectConfig::default_config().placed_input_config(),
                ..SelectConfig::default_config()
            }),
    {
        Self {
            current_mode: None,
            handler_input_text: InputTextHandler::new(&InputTextConfig::default()),
            handler_select: SelectHandler::new(&SelectConfig::default()),
        }
    }

    /// Makes `mode` the active widget, or none. A widget that becomes active
    /// starts afresh.
    pub fn set_mode(&mut self, mode: Option<CanvasMode>)
        requires
            old(self).wf(),
        ensures
            final(self).wf(),
            final(self).configs() == old(self).configs(),
            final(self)@ == old(self)@.with_mode(mode_view(mode)),
    {
        match &mode {
            Some(CanvasMode::InputText) => self.handler_input_text.setup(),
            Some(CanvasMode::Select(options)) => self.handler_select.setup(clone_strings(options)),
            None => {},
        }
        self.current_mode = mode;
    }

    /// Passes a typed character, `glyph_width` wide, to the active widget.
    pub fn handle_text_input(&mut self, inputted_char: char, glyph_width: u16)
        requires
            old(self).wf(),
        ensures
            final(self).wf(),
            final(self).configs() == old(self).configs(),
            final(self)@ == old(self)@.typed(
                old(self).input_config(),
                old(self).filter_config(),
                inputted_char,
                glyph_width,
            ),
    {
        match &self.current_mode {
            Some(CanvasMode::InputText) => self.handler_input_text.handle_text_input(
                inputted_char,
                glyph_width,
            ),
            Some(CanvasMode::Select(_)) => self.handler_select.handle_text_input(
                inputted_char,
                glyph_width,
            ),
            None => {},
        }
    }

    /// Passes a backspace to the active widget.
    pub fn handle_backspace(&mut self)
        requires
            old(self).wf(),
        ensures
            final(self).wf(),
            final(self).configs() == old(self).configs(),
            final(self)@ == old(self)@.erased(),
    {
        match &self.current_mode {
            Some(CanvasMode::InputText) => self.handler_input_text.handle_backspace(),
            Some(CanvasMode::Select(_)) => self.handler_select.handle_backspace(),
            None => {},
        }
    }

    /// What Enter submits from the active widget, if anything.
    pub fn handle_enter(&self) -> (r: Option<FinishedMessage>)
        requires
            self.wf(),
        ensures
            self@.submission() is None ==> r is None,
            self@.submission() is Some ==> (r matches Some(FinishedMessage::UserInput(s)) && s@
                == self@.submission()->0),
    {
        match &self.current_mode {
            Some(CanvasMode::InputText) => Some(self.handler_input_text.handle_enter()),
            Some(CanvasMode::Select(_)) => self.handler_select.handle_enter(),
            None => None,
        }
    }

    /// Passes an arrow key to the active widget.
    pub fn handle_arrow_key(&mut self, key: ArrowKey)
        requires
            old(self).wf(),
        ensures
            final(self).wf(),
            final(self).configs() == old(self).configs(),
            final(self)@ == old(self)@.moved(old(self).max_shown(), key),
    {
        match &self.current_mode {
            Some(CanvasMode::InputText) => self.handler_input_text.handle_arrow_key(),
            Some(CanvasMode::Select(_)) => self.handler_select.handle_arrow_key(key),
            None => {},
        }
    }

    /// Where the active widget, if any, draws its parts.
    pub fn draw(&self) -> (d: Option<CanvasDrawing>)
        requires
            self.wf(),
        ensures
            match self@.mode {
                None => d is None,
                Some(ModeState::InputText) => d matches Some(CanvasDrawing::InputText(i)) && i
                    == self.input().drawing(),
                Some(ModeState::Select(_)) => d matches Some(CanvasDrawing::Select(s))
                    && self.select().draws(s),
            },
    {
        match &self.current_mode {
            Some(CanvasMode::InputText) => Some(
                CanvasDrawing::InputText(self.handler_input_text.draw()),
            ),
            Some(CanvasMode::Select(_)) => Some(CanvasDrawing::Select(self.handler_select.draw())),
            None => None,
        }
    }

    /// The active widget, if any.
    pub fn current_mode(&self) -> (m: &Option<CanvasMode>)
        ensures
            mode_view(*m) == self@.mode,
    {
        &self.current_mode
    }

    pub fn handler_input_text(&self) -> (h: &InputTextHandler)
        ensures
            *h == self.input(),
    {
        &self.handler_input_text
    }

    pub fn handler_select(&self) -> (h: &SelectHandler)
        ensures
            *h == self.select(),
    {
        &self.handler_select
    }
}

} // verus!
