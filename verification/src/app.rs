//! The command state machine: one command runs at a time, later ones wait in
//! arrival order, and each finished command yields one result line.
//!
//! The machine is driven from outside. Once per frame its caller hands it the
//! time and the command that arrived, if any; key presses are handed over as
//! they come. What is to be written out, and whether to quit, comes back as
//! plain values.

use vstd::prelude::*;
use std::collections::VecDeque;
use crate::canvas::input_text::InputTextConfig;
use crate::canvas::select::texts;
use crate::canvas::{copy_mode, mode_view, ArrowKey, Canvas, CanvasState};
use crate::message::Message;
use crate::textbox::{Textbox, TextboxState, TextboxUpdate};

verus! {

/// What ends a command: the dialogue box finished showing its text, or the
/// user submitted the value of a widget.
#[derive(Debug, PartialEq, Eq)]
pub enum FinishedMessage {
    Textbox,
    UserInput(String),
}

#[derive(Debug, PartialEq, Eq)]
pub enum AppState {
    Idle,
    ExecutingCommand(Message),
}

/// The keys the application reacts to, besides typed characters.
#[derive(Clone, Copy, Debug, PartialEq, Eq, Structural)]
pub enum KeyCode {
    Back,
    Return,
    Escape,
    Left,
    Right,
    Up,
    Down,
}

/// What one frame asks of the caller.
#[derive(Debug)]
pub struct UpdateResult {
    /// The result line of the command that finished in this frame.
    pub output: Option<String>,
    /// No command runs, none waits, and one has finished: time to quit.
    pub quit: bool,
    /// What the dialogue box did. After `Revealed` the height of its text is
    /// to be measured and reported.
    pub textbox: TextboxUpdate,
}

/// What a key press asks of the caller.
#[derive(Debug)]
pub struct KeyResult {
    /// A line to write out.
    pub output: Option<String>,
    pub quit: bool,
}

/// A completion signal as a plain value.
pub enum SignalState {
    Textbox,
    UserInput(Seq<char>),
}

impl View for FinishedMessage {
    type V = SignalState;

    open spec fn view(&self) -> SignalState {
        match self {
            FinishedMessage::Textbox => SignalState::Textbox,
            FinishedMessage::UserInput(s) => SignalState::UserInput(s@),
        }
    }
}

/// The text of an optional string.
pub open spec fn text_of(s: Option<String>) -> Option<Seq<char>> {
    match s {
        Some(s) => Some(s@),
        None => None,
    }
}

/// The view of an optional completion signal.
pub open spec fn signal_view(signal: Option<FinishedMessage>) -> Option<SignalState> {
    match signal {
        Some(s) => Some(s@),
        None => None,
    }
}

/// The result of a command: an object with the command's token, if it had
/// one, under `id`, and `data`. Neither is escaped.
pub open spec fn finished_message(data: Seq<char>, id: Option<Seq<char>>) -> Seq<char> {
    match id {
        Some(id) => "{\"id\": \""@ + id + "\", \"data\": \""@ + data + "\"}"@,
        None => "{\"data\": \""@ + data + "\"}"@,
    }
}

/// What a completion signal reports as the command's data.
pub open spec fn signal_data(signal: SignalState) -> Seq<char> {
    match signal {
        SignalState::Textbox => "Finished displaying text"@,
        SignalState::UserInput(text) => text,
    }
}

/// The line written for a finished command: its result and a line feed.
pub open spec fn output_line(data: Seq<char>, id: Option<Seq<char>>) -> Seq<char> {
    finished_message(data, id) + "\n"@
}

/// What stays the same while the application runs.
pub struct AppSetup {
    /// The emotions for which there is an avatar image.
    pub emotions: Seq<Seq<char>>,
    /// The emotion shown while no command asks for another.
    pub default_avatar: Seq<char>,
    pub input_config: InputTextConfig,
    pub filter_config: InputTextConfig,
    /// Number of options the list shows at most.
    pub max_shown: int,
    /// Height above which the text of the dialogue box is too high.
    pub max_height: i64,
}

/// What the application holds.
pub struct AppModel {
    /// The command that runs, if any.
    pub executing: Option<Message>,
    /// The commands that arrived while another ran, oldest first.
    pub waiting: Seq<Message>,
    /// The completion signal that has not been taken up yet.
    pub signal: Option<SignalState>,
    pub textbox: TextboxState,
    pub canvas: CanvasState,
    /// The emotion of the avatar that is shown.
    pub avatar: Seq<char>,
    /// Some command has finished.
    pub executed: bool,
}

impl AppModel {
    /// Commands wait only while one runs, and a signal is only held for a
    /// running command.
    pub open spec fn wf(self) -> bool {
        &&& self.executing is None ==> self.waiting.len() == 0
        &&& self.signal is Some ==> self.executing is Some
    }

    /// The commands that have arrived and not finished, oldest first: the one
    /// that runs, then those that wait.
    pub open spec fn pending(self) -> Seq<Message> {
        match self.executing {
            Some(m) => seq![m] + self.waiting,
            None => self.waiting,
        }
    }

    /// The state after `m` began to run. Its text goes to the dialogue box,
    /// which is to report completion only if the command has no widget; with
    /// no text the box is hidden. Its widget, or none, becomes the active
    /// one. Its emotion is shown if there is an image for it.
    pub open spec fn begun(self, setup: AppSetup, m: Message, now: u64) -> AppModel {
        AppModel {
            executing: Some(m),
            textbox: match m.textbox_text {
                Some(text) => TextboxState::showing(text@, m.canvas_mode is None, now),
                None => self.textbox.hidden(),
            },
            canvas: self.canvas.with_mode(mode_view(m.canvas_mode)),
            avatar: match m.avatar_emotion {
                Some(emotion) => if setup.emotions.contains(emotion@) {
                    emotion@
                } else {
                    self.avatar
                },
                None => self.avatar,
            },
            ..self
        }
    }

    /// The state after `m` arrived: it waits if a command runs, else it
    /// begins.
    pub open spec fn arrived(self, setup: AppSetup, m: Message, now: u64) -> AppModel {
        if self.executing is Some {
            AppModel { waiting: self.waiting.push(m), ..self }
        } else {
            self.begun(setup, m, now)
        }
    }

    /// The state after a widget or the dialogue box signalled completion.
    /// The signal is held if a command runs and no signal is held yet, and
    /// dropped otherwise.
    pub open spec fn signalled(self, signal: SignalState) -> AppModel {
        if self.executing is Some && self.signal is None {
            AppModel { signal: Some(signal), ..self }
        } else {
            self
        }
    }

    /// Whether a held signal finishes the running command now.
    pub open spec fn settles(self) -> bool {
        self.signal is Some && self.executing is Some
    }

    /// The state after the held signal, if any, was taken up: the running
    /// command is finished, the avatar shows the default emotion, and no
    /// widget is active.
    pub open spec fn settled(self, setup: AppSetup) -> AppModel {
        if self.settles() {
            AppModel {
                executing: None,
                signal: None,
                avatar: setup.default_avatar,
                executed: true,
                canvas: self.canvas.with_mode(None),
                ..self
            }
        } else {
            AppModel { signal: None, ..self }
        }
    }

    /// The line written when the held signal is taken up.
    pub open spec fn settled_output(self) -> Option<Seq<char>> {
        if self.settles() {
            Some(output_line(signal_data(self.signal->0), text_of(self.executing->0.id)))
        } else {
            None
        }
    }

    /// The state after the dialogue box was advanced to `now`. A box that
    /// finishes signals completion.
    pub open spec fn ticked(self, now: u64) -> AppModel {
        let advanced = AppModel { textbox: self.textbox.ticked(now), ..self };
        if self.textbox.tick_event(now) == TextboxUpdate::Finished {
            advanced.signalled(SignalState::Textbox)
        } else {
            advanced
        }
    }

    /// The state after the oldest waiting command, if no command runs and
    /// one waits, began to run.
    pub open spec fn resumed(self, setup: AppSetup, now: u64) -> AppModel {
        if self.executing is None && self.waiting.len() > 0 {
            AppModel { waiting: self.waiting.drop_first(), ..self }.begun(
                setup,
                self.waiting[0],
                now,
            )
        } else {
            self
        }
    }

    /// No command runs, none waits, and one has finished.
    pub open spec fn drained(self) -> bool {
        self.executing is None && self.waiting.len() == 0 && self.executed
    }

    /// The state with the command that arrived, if any.
    pub open spec fn received(self, setup: AppSetup, incoming: Option<Message>, now: u64) -> AppModel {
        match incoming {
            Some(m) => self.arrived(setup, m, now),
            None => self,
        }
    }

    /// The state after one frame at time `now`, in this order: the command
    /// that arrived is taken in; a held completion signal finishes the
    /// running command; the dialogue box advances; and if no command runs
    /// any more, the oldest waiting one begins.
    pub open spec fn updated(self, setup: AppSetup, now: u64, incoming: Option<Message>) -> AppModel {
        self.received(setup, incoming, now).settled(setup).ticked(now).resumed(setup, now)
    }

    /// The state after a key press. Backspace and the arrow keys go to the
    /// active widget. Enter signals completion with what the active widget
    /// submits, if it submits anything. Escape changes nothing.
    pub open spec fn pressed(self, setup: AppSetup, key: KeyCode) -> AppModel {
        match key {
            KeyCode::Back => AppModel { canvas: self.canvas.erased(), ..self },
            KeyCode::Return => match self.canvas.submission() {
                Some(text) => self.signalled(SignalState::UserInput(text)),
                None => self,
            },
            KeyCode::Escape => self,
            KeyCode::Left => self.moved(setup, ArrowKey::Left),
            KeyCode::Right => self.moved(setup, ArrowKey::Right),
            KeyCode::Up => self.moved(setup, ArrowKey::Up),
            KeyCode::Down => self.moved(setup, ArrowKey::Down),
        }
    }

    /// The state after an arrow key.
    pub open spec fn moved(self, setup: AppSetup, key: ArrowKey) -> AppModel {
        AppModel { canvas: self.canvas.moved(setup.max_shown, key), ..self }
    }

    /// The line written when a key is pressed: Escape while a command with a
    /// token runs announces the end under that token.
    pub open spec fn pressed_output(self, key: KeyCode) -> Option<Seq<char>> {
        match (key, self.executing) {
            (KeyCode::Escape, Some(m)) => match m.id {
                Some(id) => Some(output_line("Quitting..."@, Some(id@))),
                None => None,
            },
            _ => None,
        }
    }

    /// The state after a character, `width` wide, was typed.
    pub open spec fn typed(self, setup: AppSetup, c: char, width: u16) -> AppModel {
        AppModel {
            canvas: self.canvas.typed(setup.input_config, setup.filter_config, c, width),
            ..self
        }
    }

    /// The state after the height of the dialogue box's text was reported.
    pub open spec fn measured(self, setup: AppSetup, rendered_height: u32) -> AppModel {
        AppModel { textbox: self.textbox.measured(rendered_height, setup.max_height), ..self }
    }
}

/// A copy of an optional string.
fn copy_text(s: &Option<String>) -> (r: Option<String>)
    ensures
        r == *s,
{
    match s {
        Some(s) => Some(s.clone()),
        None => None,
    }
}

/// The application: the command that runs, those that wait, the dialogue
/// box, the canvas, and the avatar's emotion.
pub struct App {
    current_state: AppState,
    default_avatar_image: String,
    current_avatar_image: String,
    avatar_images: Vec<String>,
    textbox: Textbox,
    canvas: Canvas,
    message_queue: VecDeque<Message>,
    finished_signal: Option<FinishedMessage>,
    executed_command: bool,
}

impl View for App {
    type V = AppModel;

    closed spec fn view(&self) -> AppModel {
        AppModel {
            executing: match self.current_state {
                AppState::Idle => None,
                AppState::ExecutingCommand(m) => Some(m),
            },
            waiting: self.message_queue@,
            signal: signal_view(self.finished_signal),
            textbox: self.textbox@,
            canvas: self.canvas@,
            avatar: self.current_avatar_image@,
            executed: self.executed_command,
        }
    }
}

impl App {
    /// What stays the same while the application runs.
    pub closed spec fn setup(&self) -> AppSetup {
        AppSetup {
            emotions: texts(self.avatar_images@),
            default_avatar: self.default_avatar_image@,
            input_config: self.canvas.input_config(),
            filter_config: self.canvas.filter_config(),
            max_shown: self.canvas.max_shown(),
            max_height: self.textbox.max_height(),
        }
    }

    /// The dialogue box and the canvas are well formed.
    pub closed spec fn parts_wf(&self) -> bool {
        &&& self.textbox.wf()
        &&& self.canvas.wf()
    }

    /// The state is well formed, and so are the dialogue box and the canvas.
    pub open spec fn wf(&self) -> bool {
        &&& self@.wf()
        &&& self.parts_wf()
    }

    /// The dialogue box.
    pub closed spec fn spec_textbox(&self) -> Textbox {
        self.textbox
    }

    /// The canvas.
    pub closed spec fn spec_canvas(&self) -> Canvas {
        self.canvas
    }

    /// An idle application. `avatar_images` names the emotions for which
    /// there is an avatar image; the avatar shows `normal`. The dialogue box
    /// is hidden, and no widget is active.
    pub fn new(
        avatar_images: Vec<String>,
        avatar_image_width: u16,
        textbox_image_height: u16,
        now: u64,
    ) -> (app: App)
        ensures
            app.wf(),
            app@.executing is None,
            app@.waiting.len() == 0,
            app@.signal is None,
            app@.textbox == TextboxState::showing(Seq::empty(), false, now).hidden(),
            app@.canvas.mode is None,
            app@.avatar == "normal"@,
            !app@.executed,
            app.setup().emotions == texts(avatar_images@),
            app.setup().default_avatar == "normal"@,
            app.setup().input_config == InputTextConfig::default_config(),
            app.setup().max_shown == 5,
            app.setup().max_height == textbox_image_height - 2 * crate::textbox::VERTICAL_PADDING,
    {
        App {
            current_state: AppState::Idle,
            default_avatar_image: "normal".to_owned(),
            current_avatar_image: "normal".to_owned(),
            avatar_images,
            textbox: Textbox::new(avatar_image_width, textbox_image_height, now),
            canvas: Canvas::new(),
            message_queue: VecDeque::new(),
            finished_signal: None,
            executed_command: false,
        }
    }

    /// Whether there is an avatar image for `emotion`.
    fn knows_emotion(&self, emotion: &String) -> (b: bool)
        ensures
            b == texts(self.avatar_images@).contains(emotion@),
    {
        let mut i: usize = 0;
        while i < self.avatar_images.len()
            invariant
                i <= self.avatar_images.len(),
                forall|k: int| 0 <= k < i ==> texts(self.avatar_images@)[k] != emotion@,
            decreases self.avatar_images.len() - i,
        {
            if self.avatar_images[i] == *emotion {
                assert(texts(self.avatar_images@)[i as int] == emotion@);
                return true;
            }
            i += 1;
        }
        false
    }

    /// Lets `message` begin to run.
    fn begin(&mut self, message: Message, now: u64)
        requires
            old(self).textbox.wf(),
            old(self).canvas.wf(),
        ensures
            final(self)@ == old(self)@.begun(old(self).setup(), message, now),
            final(self).setup() == old(self).setup(),
            final(self).textbox.wf(),
            final(self).canvas.wf(),
    {
        match &message.textbox_text {
            Some(text) => {
                let finished_sender_enabled = message.canvas_mode.is_none();
                self.textbox.set_text(text, finished_sender_enabled, now);
            },
            None => self.textbox.dismiss(),
        }
        self.canvas.set_mode(copy_mode(&message.canvas_mode));
        match &message.avatar_emotion {
            Some(emotion) => {
                if self.knows_emotion(emotion) {
                    self.current_avatar_image = emotion.clone();
                }
            },
            None => {},
        }
        self.current_state = AppState::ExecutingCommand(message);
    }

    /// Takes in a command. It begins to run at once if no command runs, and
    /// waits behind those that arrived before it otherwise.
    pub fn handle_message(&mut self, message: Message, now: u64)
        requires
            old(self).wf(),
        ensures
            final(self).wf(),
            final(self).setup() == old(self).setup(),
            final(self)@ == old(self)@.arrived(old(self).setup(), message, now),
    {
        match &self.current_state {
            AppState::ExecutingCommand(_) => self.message_queue.push_back(message),
            AppState::Idle => self.begin(message, now),
        }
    }

    /// The result of a command as an object with `data` and, if the command
    /// had a token, `id`.
    pub fn make_finished_message(data: String, id: Option<String>) -> (r: String)
        ensures
            r@ == finished_message(data@, text_of(id)),
    {
        let mut r = String::new();
        match id {
            Some(id) => {
                r.append("{\"id\": \"");
                r.append(id.as_str());
                r.append("\", \"data\": \"");
            },
            None => {
                r.append("{\"data\": \"");
            },
        }
        r.append(data.as_str());
        r.append("\"}");
        assert(r@ =~= finished_message(data@, text_of(id)));
        r
    }

    /// The line to write out for a result: the object and a line feed.
    pub fn output_message(data: String, id: Option<String>) -> (r: String)
        ensures
            r@ == output_line(data@, text_of(id)),
    {
        let mut r = Self::make_finished_message(data, id);
        r.append("\n");
        r
    }
    /// Holds a completion signal, if a command runs and none is held yet.
    fn signal(&mut self, signal: FinishedMessage)
        requires
            old(self).parts_wf(),
        ensures
            final(self).parts_wf(),
            final(self).setup() == old(self).setup(),
            final(self)@ == old(self)@.signalled(signal@),
    {
        match &self.current_state {
            AppState::ExecutingCommand(_) => {
                if self.finished_signal.is_none() {
                    self.finished_signal = Some(signal);
                }
            },
            AppState::Idle => {},
        }
    }

    /// Takes up the held completion signal, if any, and gives the line to
    /// write out for the command that it finishes.
    fn settle(&mut self) -> (output: Option<String>)
        requires
            old(self).parts_wf(),
        ensures
            final(self).parts_wf(),
            final(self).setup() == old(self).setup(),
            final(self)@ == old(self)@.settled(old(self).setup()),
            text_of(output) == old(self)@.settled_output(),
    {
        let signal = match self.finished_signal.take() {
            Some(signal) => signal,
            None => {
                return None;
            },
        };
        let id = match &self.current_state {
            AppState::ExecutingCommand(message) => copy_text(&message.id),
            AppState::Idle => {
                return None;
            },
        };
        self.current_state = AppState::Idle;
        self.current_avatar_image = self.default_avatar_image.clone();
        self.executed_command = true;
        self.canvas.set_mode(None);
        let data = match signal {
            FinishedMessage::Textbox => "Finished displaying text".to_owned(),
            FinishedMessage::UserInput(text) => text,
        };
        Some(Self::output_message(data, id))
    }

    /// One frame at time `now`, with the command that arrived since the last
    /// one, if any. In this order: the command is taken in; a held
    /// completion signal finishes the running command, whose result line is
    /// returned; the dialogue box advances; and if no command runs any more,
    /// the oldest waiting one begins, or, with none waiting and one
    /// finished, the caller is told to quit.
    pub fn update(&mut self, now: u64, incoming: Option<Message>) -> (result: UpdateResult)
        requires
            old(self).wf(),
        ensures
            final(self).wf(),
            final(self).setup() == old(self).setup(),
            final(self)@ == old(self)@.updated(old(self).setup(), now, incoming),
            text_of(result.output) == old(self)@.received(
                old(self).setup(),
                incoming,
                now,
            ).settled_output(),
            result.textbox == old(self)@.received(old(self).setup(), incoming, now).settled(
                old(self).setup(),
            ).textbox.tick_event(now),
            result.quit == old(self)@.received(old(self).setup(), incoming, now).settled(
                old(self).setup(),
            ).ticked(now).drained(),
    {
        match incoming {
            Some(message) => self.handle_message(message, now),
            None => {},
        }
        let output = self.settle();
        let textbox = self.textbox.update(now);
        if textbox == TextboxUpdate::Finished {
            self.signal(FinishedMessage::Textbox);
        }
        let mut quit = false;
        match &self.current_state {
            AppState::Idle => {
                match self.message_queue.pop_front() {
                    Some(message) => {
                        assert(self.message_queue@ =~= old(self)@.received(
                            old(self).setup(),
                            incoming,
                            now,
                        ).settled(old(self).setup()).ticked(now).waiting.drop_first());
                        self.begin(message, now);
                    },
                    None => {
                        quit = self.executed_command;
                    },
                }
            },
            AppState::ExecutingCommand(_) => {},
        }
        UpdateResult { output, quit, textbox }
    }

    /// A key press. Backspace and the arrow keys go to the active widget.
    /// Enter signals completion with what the active widget submits. Escape
    /// asks the caller to quit, with a line to write out first if a command
    /// with a token runs.
    pub fn key_down_event(&mut self, key: KeyCode) -> (result: KeyResult)
        requires
            old(self).wf(),
        ensures
            final(self).wf(),
            final(self).setup() == old(self).setup(),
            final(self)@ == old(self)@.pressed(old(self).setup(), key),
            text_of(result.output) == old(self)@.pressed_output(key),
            result.quit == (key == KeyCode::Escape),
    {
        let mut output: Option<String> = None;
        let mut quit = false;
        match key {
            KeyCode::Back => self.canvas.handle_backspace(),
            KeyCode::Return => {
                match self.canvas.handle_enter() {
                    Some(signal) => self.signal(signal),
                    None => {},
                }
            },
            KeyCode::Escape => {
                match &self.current_state {
                    AppState::ExecutingCommand(message) => {
                        match &message.id {
                            Some(id) => {
                                output = Some(
                                    Self::output_message(
                                        "Quitting...".to_owned(),
                                        Some(id.clone()),
                                    ),
                                );
                            },
                            None => {},
                        }
                    },
                    AppState::Idle => {},
                }
                quit = true;
            },
            KeyCode::Left => self.canvas.handle_arrow_key(ArrowKey::Left),
            KeyCode::Right => self.canvas.handle_arrow_key(ArrowKey::Right),
            KeyCode::Up => self.canvas.handle_arrow_key(ArrowKey::Up),
            KeyCode::Down => self.canvas.handle_arrow_key(ArrowKey::Down),
        }
        KeyResult { output, quit }
    }

    /// A typed character, `glyph_width` wide on screen: it goes to the
    /// active widget.
    pub fn text_input_event(&mut self, ch: char, glyph_width: u16)
        requires
            old(self).wf(),
        ensures
            final(self).wf(),
            final(self).setup() == old(self).setup(),
            final(self)@ == old(self)@.typed(old(self).setup(), ch, glyph_width),
    {
        self.canvas.handle_text_input(ch, glyph_width);
    }

    /// The height of the dialogue box's text, as measured after `update`
    /// reported `Revealed`: it goes to the dialogue box.
    pub fn handle_rendered_height(&mut self, rendered_height: u32)
        requires
            old(self).wf(),
        ensures
            final(self).wf(),
            final(self).setup() == old(self).setup(),
            final(self)@ == old(self)@.measured(old(self).setup(), rendered_height),
    {
        self.textbox.handle_rendered_height(rendered_height);
    }

    /// Where the avatar is drawn: in the bottom right corner of the screen.
    pub fn draw(avatar_image_width: u16, avatar_image_height: u16) -> (position: (i64, i64))
        ensures
            position.0 == crate::SCREEN_WIDTH - avatar_image_width,
            position.1 == crate::SCREEN_HEIGHT - avatar_image_height,
    {
        (
            crate::SCREEN_WIDTH as i64 - avatar_image_width as i64,
            crate::SCREEN_HEIGHT as i64 - avatar_image_height as i64,
        )
    }

    /// The emotion of the avatar that is shown.
    pub fn current_avatar_image(&self) -> (emotion: &String)
        ensures
            emotion@ == self@.avatar,
    {
        &self.current_avatar_image
    }

    /// Whether a command runs, and which.
    pub fn current_state(&self) -> (state: &AppState)
        ensures
            match *state {
                AppState::Idle => self@.executing is None,
                AppState::ExecutingCommand(m) => self@.executing == Some(m),
            },
    {
        &self.current_state
    }

    /// Number of commands that wait.
    pub fn queued(&self) -> (n: usize)
        ensures
            n == self@.waiting.len(),
    {
        self.message_queue.len()
    }

    pub fn textbox(&self) -> (t: &Textbox)
        ensures
            *t == self.spec_textbox(),
            t@ == self@.textbox,
            self.wf() ==> t.wf(),
    {
        &self.textbox
    }

    pub fn canvas(&self) -> (c: &Canvas)
        ensures
            *c == self.spec_canvas(),
            c@ == self@.canvas,
            self.wf() ==> c.wf(),
    {
        &self.canvas
    }
}

/// What can happen to the application.
pub enum AppEvent {
    /// A frame at a time, with the command that arrived, if any.
    Frame(u64, Option<Message>),
    /// A key press.
    Key(KeyCode),
    /// A typed character and the width of its glyph.
    Char(char, u16),
    /// The height of the dialogue box's text was reported.
    Height(u32),
}

impl AppModel {
    /// The state after `event`.
    pub open spec fn after(self, setup: AppSetup, event: AppEvent) -> AppModel {
        match event {
            AppEvent::Frame(now, incoming) => self.updated(setup, now, incoming),
            AppEvent::Key(key) => self.pressed(setup, key),
            AppEvent::Char(c, width) => self.typed(setup, c, width),
            AppEvent::Height(rendered_height) => self.measured(setup, rendered_height),
        }
    }

    /// The state after the events `events`, in order.
    pub open spec fn after_all(self, setup: AppSetup, events: Seq<AppEvent>) -> AppModel
        decreases events.len(),
    {
        if events.len() == 0 {
            self
        } else {
            self.after_all(setup, events.drop_last()).after(setup, events.last())
        }
    }

    /// Whether `event` finishes the running command: it is a frame in which
    /// a completion signal is held for a command that runs.
    pub open spec fn finishes(self, setup: AppSetup, event: AppEvent) -> bool {
        match event {
            AppEvent::Frame(now, incoming) => self.received(setup, incoming, now).settles(),
            _ => false,
        }
    }

    /// Number of commands that finish in the course of `events`.
    pub open spec fn finished_count(self, setup: AppSetup, events: Seq<AppEvent>) -> nat
        decreases events.len(),
    {
        if events.len() == 0 {
            0
        } else {
            let before = self.finished_count(setup, events.drop_last());
            if self.after_all(setup, events.drop_last()).finishes(setup, events.last()) {
                before + 1
            } else {
                before
            }
        }
    }
}

/// The command that arrives with `event`, if any.
pub open spec fn arrival(event: AppEvent) -> Seq<Message> {
    match event {
        AppEvent::Frame(_, Some(m)) => seq![m],
        _ => Seq::empty(),
    }
}

/// The commands that arrive in the course of `events`, in order.
pub open spec fn arrivals(events: Seq<AppEvent>) -> Seq<Message>
    decreases events.len(),
{
    if events.len() == 0 {
        Seq::empty()
    } else {
        arrivals(events.drop_last()) + arrival(events.last())
    }
}

/// One event keeps the state well formed, appends the command that arrives
/// to the pending ones, and removes the oldest pending one if it finishes a
/// command.
pub proof fn lemma_event_keeps_order(state: AppModel, setup: AppSetup, event: AppEvent)
    requires
        state.wf(),
    ensures
        state.after(setup, event).wf(),
        state.finishes(setup, event) ==> (state.pending() + arrival(event)).len() > 0,
        state.after(setup, event).pending() == (state.pending() + arrival(event)).skip(
            if state.finishes(setup, event) {
                1int
            } else {
                0int
            },
        ),
{
    match event {
        AppEvent::Frame(now, incoming) => {
            let received = state.received(setup, incoming, now);
            assert(received.pending() =~= state.pending() + arrival(event));
            let settled = received.settled(setup);
            assert(settled.pending() =~= received.pending().skip(
                if received.settles() {
                    1int
                } else {
                    0int
                },
            ));
            let ticked = settled.ticked(now);
            assert(ticked.pending() == settled.pending());
            let resumed = ticked.resumed(setup, now);
            assert(resumed.pending() =~= ticked.pending());
        },
        _ => {
            assert(state.after(setup, event).pending() =~= (state.pending() + arrival(event)).skip(
                0,
            ));
        },
    }
}

/// Commands run in the order in which they arrive, one at a time. Whatever
/// happens, the pending commands are those that were pending at the start
/// followed by those that arrived since, in arrival order, less as many of
/// the oldest as commands have finished; and the command that runs is the
/// oldest of them. So a command begins only when every command that arrived
/// before it has finished.
pub proof fn lemma_first_in_first_out(state: AppModel, setup: AppSetup, events: Seq<AppEvent>)
    requires
        state.wf(),
    ensures
        ({
            let after = state.after_all(setup, events);
            let finished = state.finished_count(setup, events);
            let all = state.pending() + arrivals(events);
            &&& after.wf()
            &&& finished <= all.len()
            &&& after.pending() == all.skip(finished as int)
            &&& after.pending().len() > 0 ==> after.executing == Some(after.pending()[0])
            &&& after.pending().len() == 0 ==> after.executing is None
        }),
    decreases events.len(),
{
    if events.len() > 0 {
        let front = events.drop_last();
        let before = state.after_all(setup, front);
        lemma_first_in_first_out(state, setup, front);
        lemma_event_keeps_order(before, setup, events.last());
        let finished = state.finished_count(setup, front);
        let all = state.pending() + arrivals(front);
        let step: int = if before.finishes(setup, events.last()) {
            1
        } else {
            0
        };
        assert((all.skip(finished as int) + arrival(events.last())).skip(step) =~= (all + arrival(
            events.last(),
        )).skip(finished + step));
        assert(state.pending() + arrivals(events) =~= all + arrival(events.last()));
    } else {
        assert(state.pending() + arrivals(events) =~= state.pending());
        assert(state.pending().skip(0) =~= state.pending());
    }
}

} // verus!
