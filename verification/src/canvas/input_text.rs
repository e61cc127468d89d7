//! A one-line text field that grows with its text up to a maximum width and
//! then shows a sliding window of what was typed.
//!
//! The field does not measure text. Each character comes with the width its
//! glyph takes on screen, and the width of a text is the sum over its
//! characters.

use vstd::prelude::*;
use crate::app::FinishedMessage;
use crate::geometry::{Color, Rect, MAX_POSITION};
use crate::text::{accepted_char, is_accepted_char, string_of};
use crate::{SCREEN_HEIGHT, SCREEN_WIDTH};

verus! {

#[derive(Clone, Copy, Debug)]
pub struct InputTextConfig {
    pub text_min_width: u16,
    pub text_max_width: u16,
    pub text_font_size: u16,
    pub text_horizontal_padding: u16,
    pub text_vertical_padding: u16,
    pub text_default_placeholder: &'static str,
    /// Opacity of the placeholder, in percent.
    pub text_placeholder_alpha: u8,
    pub text_color: Color,
    pub background_outline_width: u16,
    pub background_outline_color: Color,
    pub background_color: Color,
    pub y_position: i64,
    pub x_position: i64,
}

impl InputTextConfig {
    /// The narrowest field has room for its padding and is no wider than the
    /// widest, and the position is at most `MAX_POSITION` from the origin.
    pub open spec fn valid(&self) -> bool {
        &&& 2 * self.text_horizontal_padding <= self.text_min_width <= self.text_max_width
        &&& -MAX_POSITION <= self.x_position <= MAX_POSITION
        &&& -MAX_POSITION <= self.y_position <= MAX_POSITION
    }

    pub fn is_valid(&self) -> (b: bool)
        ensures
            b == self.valid(),
    {
        let padding: u32 = 2 * (self.text_horizontal_padding as u32);
        padding <= self.text_min_width as u32 && self.text_min_width <= self.text_max_width
            && -MAX_POSITION <= self.x_position && self.x_position <= MAX_POSITION
            && -MAX_POSITION <= self.y_position && self.y_position <= MAX_POSITION
    }

    /// Height of the field: one line of text and the padding above and below.
    pub open spec fn field_height(&self) -> int {
        self.text_font_size + 2 * self.text_vertical_padding
    }

    /// Height of the field.
    pub fn height(&self) -> (h: i64)
        ensures
            h == self.field_height(),
    {
        let padding: i64 = self.text_vertical_padding as i64;
        self.text_font_size as i64 + 2 * padding
    }

    /// The width the field takes to show a text that is `text_width` wide:
    /// text and padding, but never less than the minimum nor more than the
    /// maximum.
    pub open spec fn fitted_width(&self, text_width: int) -> int {
        let needed = text_width + 2 * self.text_horizontal_padding;
        if needed <= self.text_min_width {
            self.text_min_width as int
        } else if needed <= self.text_max_width {
            needed
        } else {
            self.text_max_width as int
        }
    }

    /// Whether a text that is `text_width` wide fits into the widest field.
    pub open spec fn fits(&self, text_width: int) -> bool {
        text_width + 2 * self.text_horizontal_padding <= self.text_max_width
    }

    /// The field `width` wide, centred on the configured position.
    pub open spec fn centered_rect(&self, width: int) -> Rect {
        Rect {
            x: (self.x_position - width / 2) as i64,
            y: (self.y_position - self.field_height() / 2) as i64,
            w: width as i64,
            h: self.field_height() as i64,
        }
    }
}

impl InputTextConfig {
    /// The configuration that `default` gives: a field from 500 to 1800
    /// pixels wide in the middle of the screen, black on white.
    pub open spec fn default_config() -> InputTextConfig {
        InputTextConfig {
            text_min_width: 500,
            text_max_width: 1800,
            text_font_size: 32,
            text_horizontal_padding: 10,
            text_vertical_padding: 15,
            text_default_placeholder: "Enter text...",
            text_placeholder_alpha: 70,
            text_color: Color { r: 0, g: 0, b: 0, a: 255 },
            background_outline_width: 2,
            background_outline_color: Color { r: 0, g: 0, b: 0, a: 255 },
            background_color: Color { r: 255, g: 255, b: 255, a: 255 },
            y_position: (SCREEN_HEIGHT / 2) as i64,
            x_position: (SCREEN_WIDTH / 2) as i64,
        }
    }
}

impl Default for InputTextConfig {
    fn default() -> (c: Self)
        ensures
            c == InputTextConfig::default_config(),
            c.valid(),
    {
        Self {
            text_min_width: 500,
            text_max_width: 1800,
            text_font_size: 32,
            text_horizontal_padding: 10,
            text_vertical_padding: 15,
            text_default_placeholder: "Enter text...",
            text_placeholder_alpha: 70,
            text_color: Color::black(),
            background_outline_width: 2,
            background_outline_color: Color::black(),
            background_color: Color::white(),
            y_position: (SCREEN_HEIGHT / 2) as i64,
            x_position: (SCREEN_WIDTH / 2) as i64,
        }
    }
}

/// Sum of the glyph widths `widths`.
pub open spec fn text_width(widths: Seq<u16>) -> int
    decreases widths.len(),
{
    if widths.len() == 0 {
        0
    } else {
        widths[0] + text_width(widths.drop_first())
    }
}

/// Start of the window after sliding it right from `from`: the first position
/// from which the rest of the text is at most `limit` wide. The window never
/// slides past the last character.
pub open spec fn slid(widths: Seq<u16>, from: int, limit: int) -> int
    decreases widths.len() - from,
{
    if from + 1 >= widths.len() || text_width(widths.subrange(from, widths.len() as int))
        <= limit {
        from
    } else {
        slid(widths, from + 1, limit)
    }
}

/// What a text field holds: the text typed so far, the width of each of its
/// characters, and the position where the shown window starts.
pub struct FieldState {
    pub text: Seq<char>,
    pub widths: Seq<u16>,
    pub first: int,
}

impl FieldState {
    pub open spec fn empty() -> FieldState {
        FieldState { text: Seq::empty(), widths: Seq::empty(), first: 0 }
    }

    /// One width per character, and a window that is empty only if the text
    /// is.
    pub open spec fn wf(self) -> bool {
        &&& self.widths.len() == self.text.len()
        &&& 0 <= self.first <= self.text.len()
        &&& self.text.len() > 0 ==> self.first < self.text.len()
    }

    /// The shown window: the text from `first` on.
    pub open spec fn displayed(self) -> Seq<char> {
        self.text.subrange(self.first, self.text.len() as int)
    }

    /// Width of the shown window.
    pub open spec fn displayed_width(self) -> int {
        text_width(self.widths.subrange(self.first, self.widths.len() as int))
    }

    /// The window is a proper part of the text.
    pub open spec fn truncated(self) -> bool {
        self.first > 0
    }

    /// Width of the field around this text: the maximum while the window is
    /// truncated, else what fits the text.
    pub open spec fn field_width(self, config: InputTextConfig) -> int {
        if self.truncated() {
            config.text_max_width as int
        } else {
            config.fitted_width(self.displayed_width())
        }
    }

    /// The state after the character `c`, `width` wide, was typed. A
    /// character that the field does not accept changes nothing. An accepted
    /// one is appended, and the window slides right until it fits.
    pub open spec fn typed(self, config: InputTextConfig, c: char, width: u16) -> FieldState {
        if accepted_char(c) {
            let widths = self.widths.push(width);
            FieldState {
                text: self.text.push(c),
                widths,
                first: slid(
                    widths,
                    self.first,
                    config.text_max_width - 2 * config.text_horizontal_padding,
                ),
            }
        } else {
            self
        }
    }

    /// The state after backspace. The last character goes, and a truncated
    /// window grows by one character at its front.
    pub open spec fn erased(self) -> FieldState {
        if self.text.len() == 0 {
            self
        } else {
            FieldState {
                text: self.text.drop_last(),
                widths: self.widths.drop_last(),
                first: if self.first > 0 {
                    self.first - 1
                } else {
                    0
                },
            }
        }
    }
}

/// Dropping the first glyph of a window lowers its width by that glyph's.
pub proof fn lemma_text_width_step(widths: Seq<u16>, from: int)
    requires
        0 <= from < widths.len(),
    ensures
        text_width(widths.subrange(from, widths.len() as int)) == widths[from] + text_width(
            widths.subrange(from + 1, widths.len() as int),
        ),
{
    let len = widths.len() as int;
    assert(widths.subrange(from, len).drop_first() =~= widths.subrange(from + 1, len));
}

/// A text is at least 0 wide and at most 65535 per character.
pub proof fn lemma_text_width_bounds(widths: Seq<u16>)
    ensures
        0 <= text_width(widths) <= widths.len() * 0xffff,
    decreases widths.len(),
{
    if widths.len() > 0 {
        lemma_text_width_bounds(widths.drop_first());
    }
}

/// Width of the glyphs from position `from` on.
fn width_from(widths: &Vec<u16>, from: usize) -> (sum: u128)
    requires
        from <= widths.len(),
    ensures
        sum == text_width(widths@.subrange(from as int, widths.len() as int)),
        sum <= (widths.len() - from) * 0xffff,
{
    let len: usize = widths.len();
    let mut sum: u128 = 0;
    let mut i: usize = len;
    assert(widths@.subrange(len as int, len as int) =~= Seq::<u16>::empty());
    while i > from
        invariant
            len == widths.len(),
            from <= i <= len,
            sum == text_width(widths@.subrange(i as int, len as int)),
            sum <= (len - i) * 0xffff,
        decreases i,
    {
        i -= 1;
        proof {
            lemma_text_width_step(widths@, i as int);
        }
        sum += widths[i] as u128;
    }
    sum
}

/// Where a text field draws its parts.
#[derive(Clone, Copy, Debug, PartialEq, Eq, Structural)]
pub struct InputTextDrawing {
    pub outline_rect: Rect,
    pub background_rect: Rect,
    pub text_x: i64,
    pub text_y: i64,
    /// The placeholder is drawn in place of the text.
    pub placeholder: bool,
}

/// The text field: its configuration, its rectangle on screen, and the text
/// typed into it.
pub struct InputTextHandler {
    config: InputTextConfig,
    background_rect: Rect,
    entire_text: Vec<char>,
    glyph_widths: Vec<u16>,
    first_displayed: usize,
}

impl View for InputTextHandler {
    type V = FieldState;

    closed spec fn view(&self) -> FieldState {
        FieldState {
            text: self.entire_text@,
            widths: self.glyph_widths@,
            first: self.first_displayed as int,
        }
    }
}

impl InputTextHandler {
    pub closed spec fn spec_config(&self) -> InputTextConfig {
        self.config
    }

    pub closed spec fn spec_background_rect(&self) -> Rect {
        self.background_rect
    }

    /// The configuration is valid, the state is well formed, and the
    /// rectangle is the one that the state asks for.
    pub open spec fn wf(&self) -> bool {
        &&& self.spec_config().valid()
        &&& self@.wf()
        &&& self.spec_background_rect() == self.spec_config().centered_rect(
            self@.field_width(self.spec_config()),
        )
    }

    #[verifier::when_used_as_spec(spec_config)]
    pub fn config(&self) -> (c: InputTextConfig)
        ensures
            c == self.spec_config(),
    {
        self.config
    }

    #[verifier::when_used_as_spec(spec_background_rect)]
    pub fn background_rect(&self) -> (r: Rect)
        ensures
            r == self.spec_background_rect(),
    {
        self.background_rect
    }

    /// The rectangle one outline width larger on every side.
    pub open spec fn outline_rect(&self) -> Rect {
        let outline = self.spec_config().background_outline_width;
        Rect {
            x: (self.spec_background_rect().x - outline) as i64,
            y: (self.spec_background_rect().y - outline) as i64,
            w: (self.spec_background_rect().w + 2 * outline) as i64,
            h: (self.spec_background_rect().h + 2 * outline) as i64,
        }
    }

    /// Where the field draws its parts: the outline under the background,
    /// and on it, behind the padding and centred vertically, the text, or
    /// the placeholder while nothing has been typed.
    pub open spec fn drawing(&self) -> InputTextDrawing {
        let rect = self.spec_background_rect();
        InputTextDrawing {
            outline_rect: self.outline_rect(),
            background_rect: rect,
            text_x: (rect.x + self.spec_config().text_horizontal_padding) as i64,
            text_y: (rect.y + rect.h / 2 - self.spec_config().text_font_size / 2) as i64,
            placeholder: self@.text.len() == 0,
        }
    }

    /// The rectangle one outline width larger on every side.
    pub fn get_outline_rect(&self) -> (r: Rect)
        requires
            self.wf(),
        ensures
            r == self.outline_rect(),
    {
        let outline: i64 = self.config.background_outline_width as i64;
        Rect {
            x: self.background_rect.x - outline,
            y: self.background_rect.y - outline,
            w: self.background_rect.w + 2 * outline,
            h: self.background_rect.h + 2 * outline,
        }
    }

    /// The rectangle of a field that was just made from `config`: as narrow
    /// as the field gets, centred on the configured position.
    pub fn get_initial_background_rect(config: &InputTextConfig) -> (r: Rect)
        requires
            config.valid(),
        ensures
            r == config.centered_rect(config.text_min_width as int),
    {
        Self::rect_of_width(config, config.text_min_width)
    }

    fn rect_of_width(config: &InputTextConfig, width: u16) -> (r: Rect)
        requires
            config.valid(),
        ensures
            r == config.centered_rect(width as int),
    {
        let height: i64 = config.height();
        Rect {
            x: config.x_position - (width / 2) as i64,
            y: config.y_position - height / 2,
            w: width as i64,
            h: height,
        }
    }

    /// An empty field.
    pub fn new(config: &InputTextConfig) -> (h: Self)
        requires
            config.valid(),
        ensures
            h.wf(),
            h.config() == *config,
            h.background_rect() == config.centered_rect(config.text_min_width as int),
            h@ == FieldState::empty(),
    {
        let h = Self {
            config: *config,
            background_rect: Self::get_initial_background_rect(config),
            entire_text: Vec::new(),
            glyph_widths: Vec::new(),
            first_displayed: 0,
        };
        assert(h@.widths.subrange(0, 0) =~= Seq::<u16>::empty());
        h
    }

    /// Clears the text and makes the field as narrow as it gets.
    pub fn setup(&mut self)
        requires
            old(self).wf(),
        ensures
            final(self).wf(),
            final(self).config() == old(self).config(),
            final(self)@ == FieldState::empty(),
    {
        self.entire_text = Vec::new();
        self.glyph_widths = Vec::new();
        self.first_displayed = 0;
        assert(self@.widths.subrange(0, 0) =~= Seq::<u16>::empty());
        self.refit();
    }

    /// Sets the rectangle to what the text and the window ask for.
    fn refit(&mut self)
        requires
            old(self).config.valid(),
            old(self)@.wf(),
        ensures
            final(self).wf(),
            final(self).config() == old(self).config(),
            final(self)@ == old(self)@,
    {
        let max: u16 = self.config.text_max_width;
        let min: u16 = self.config.text_min_width;
        let width: u16 = if self.first_displayed > 0 {
            max
        } else {
            let padding: u128 = self.config.text_horizontal_padding as u128;
            let needed: u128 = width_from(&self.glyph_widths, 0) + 2 * padding;
            if needed <= min as u128 {
                min
            } else if needed <= max as u128 {
                needed as u16
            } else {
                max
            }
        };
        self.background_rect = Self::rect_of_width(&self.config, width);
    }

    /// Takes a typed character that is `glyph_width` wide on screen. Letters,
    /// digits, ASCII punctuation and the space are appended; any other
    /// character is ignored. While text and padding fit into the widest
    /// field, the field is as wide as they are. Once they do not, the field
    /// has its maximum width and shows the end of the text: characters leave
    /// the window at its front until the rest fits, the new one always
    /// staying.
    pub fn handle_text_input(&mut self, inputted_char: char, glyph_width: u16)
        requires
            old(self).wf(),
        ensures
            final(self).wf(),
            final(self).config() == old(self).config(),
            final(self)@ == old(self)@.typed(old(self).config(), inputted_char, glyph_width),
    {
        if !is_accepted_char(inputted_char) {
            return ;
        }
        self.entire_text.push(inputted_char);
        self.glyph_widths.push(glyph_width);
        let len: usize = self.glyph_widths.len();
        let padding: u128 = 2 * self.config.text_horizontal_padding as u128;
        let max: u128 = self.config.text_max_width as u128;
        let ghost limit: int = self.config.text_max_width - 2 * self.config.text_horizontal_padding;
        let ghost start: int = self.first_displayed as int;
        let mut first: usize = self.first_displayed;
        let mut sum: u128 = width_from(&self.glyph_widths, first);
        while first + 1 < len && sum + padding > max
            invariant
                len == self.glyph_widths.len(),
                len > 0,
                start <= first < len,
                padding == 2 * self.config.text_horizontal_padding,
                max == self.config.text_max_width,
                limit == max - padding,
                sum == text_width(self.glyph_widths@.subrange(first as int, len as int)),
                sum <= (len - first) * 0xffff,
                slid(self.glyph_widths@, start, limit) == slid(
                    self.glyph_widths@,
                    first as int,
                    limit,
                ),
            decreases len - first,
        {
            proof {
                lemma_text_width_step(self.glyph_widths@, first as int);
                lemma_text_width_bounds(self.glyph_widths@.subrange(first + 1, len as int));
            }
            sum -= self.glyph_widths[first] as u128;
            first += 1;
        }
        self.first_displayed = first;
        self.refit();
    }

    /// Removes the last character, if there is one. A window that showed
    /// only part of the text keeps its length: it takes up the character in
    /// front of it. The field narrows to the text once the window shows all
    /// of it.
    pub fn handle_backspace(&mut self)
        requires
            old(self).wf(),
        ensures
            final(self).wf(),
            final(self).config() == old(self).config(),
            final(self)@ == old(self)@.erased(),
    {
        if self.entire_text.len() == 0 {
            return ;
        }
        self.entire_text.pop();
        self.glyph_widths.pop();
        if self.first_displayed > 0 {
            self.first_displayed -= 1;
        }
        self.refit();
    }

    /// Where the field draws its parts.
    pub fn draw(&self) -> (d: InputTextDrawing)
        requires
            self.wf(),
        ensures
            d == self.drawing(),
    {
        let rect = self.background_rect;
        InputTextDrawing {
            outline_rect: self.get_outline_rect(),
            background_rect: rect,
            text_x: rect.x + self.config.text_horizontal_padding as i64,
            text_y: rect.y + rect.h / 2 - (self.config.text_font_size / 2) as i64,
            placeholder: self.entire_text.len() == 0,
        }
    }

    /// What Enter submits: the whole text.
    pub fn handle_enter(&self) -> (r: FinishedMessage)
        ensures
            r matches FinishedMessage::UserInput(s) && s@ == self@.text,
    {
        FinishedMessage::UserInput(self.entire_text())
    }

    /// Arrow keys do nothing in a text field.
    pub fn handle_arrow_key(&mut self)
        ensures
            *final(self) == *old(self),
    {
    }

    /// The whole text typed so far.
    pub fn entire_text(&self) -> (s: String)
        ensures
            s@ == self@.text,
    {
        string_of(&self.entire_text)
    }

    /// The part of the text that the field shows.
    pub fn displayed_text(&self) -> (s: String)
        requires
            self.wf(),
        ensures
            s@ == self@.displayed(),
    {
        let mut shown: Vec<char> = Vec::new();
        let mut i: usize = self.first_displayed;
        while i < self.entire_text.len()
            invariant
                self.first_displayed <= i <= self.entire_text.len(),
                shown@ == self.entire_text@.subrange(self.first_displayed as int, i as int),
            decreases self.entire_text.len() - i,
        {
            shown.push(self.entire_text[i]);
            i += 1;
            assert(shown@ =~= self.entire_text@.subrange(self.first_displayed as int, i as int));
        }
        string_of(&shown)
    }

    /// Width of the field.
    pub fn field_width(&self) -> (w: u16)
        requires
            self.wf(),
        ensures
            w == self@.field_width(self.config()),
            w == self.background_rect().w,
    {
        self.background_rect.w as u16
    }

    /// Whether the field shows the placeholder: it does while nothing has
    /// been typed.
    pub fn shows_placeholder(&self) -> (b: bool)
        ensures
            b == (self@.text.len() == 0),
    {
        self.entire_text.len() == 0
    }
}

/// One key press in a text field.
pub enum Keystroke {
    /// A character and the width of its glyph.
    Char(char, u16),
    Backspace,
}

impl FieldState {
    /// The state after one key press.
    pub open spec fn pressed(self, config: InputTextConfig, key: Keystroke) -> FieldState {
        match key {
            Keystroke::Char(c, width) => self.typed(config, c, width),
            Keystroke::Backspace => self.erased(),
        }
    }

    /// The state after the key presses `keys`, in order.
    pub open spec fn pressed_all(self, config: InputTextConfig, keys: Seq<Keystroke>) -> FieldState
        decreases keys.len(),
    {
        if keys.len() == 0 {
            self
        } else {
            self.pressed_all(config, keys.drop_last()).pressed(config, keys.last())
        }
    }

    /// The state after backspace was pressed `n` times.
    pub open spec fn erased_times(self, n: nat) -> FieldState
        decreases n,
    {
        if n == 0 {
            self
        } else {
            self.erased().erased_times((n - 1) as nat)
        }
    }

    /// Typing `c` appends it and leaves the window where a backspace finds it
    /// again: at the start of the text, or one character further right than
    /// before.
    pub open spec fn restorable(self, config: InputTextConfig, c: char, width: u16) -> bool {
        let after = self.typed(config, c, width);
        accepted_char(c) && (after.first == 0 || after.first == self.first + 1)
    }

    /// Every key press of `keys` is a character, typed in a state from which
    /// it is restorable.
    pub open spec fn all_restorable(self, config: InputTextConfig, keys: Seq<Keystroke>) -> bool {
        forall|i: int|
            0 <= i < keys.len() ==> match #[trigger] keys[i] {
                Keystroke::Char(c, width) => self.pressed_all(config, keys.take(i)).restorable(
                    config,
                    c,
                    width,
                ),
                Keystroke::Backspace => false,
            }
    }
}

/// A window that slides right from inside the text stays inside it and never
/// moves left.
pub proof fn lemma_slid_range(widths: Seq<u16>, from: int, limit: int)
    requires
        0 <= from < widths.len(),
    ensures
        from <= slid(widths, from, limit) < widths.len(),
    decreases widths.len() - from,
{
    if !(from + 1 >= widths.len() || text_width(widths.subrange(from, widths.len() as int))
        <= limit) {
        lemma_slid_range(widths, from + 1, limit);
    }
}

/// The window slides to the first start from which the rest of the text
/// fits: from every start before it, from `from` on, the rest is wider than
/// `limit`; and from where it stops the rest fits, unless it stopped at the
/// last character.
pub proof fn lemma_slid_is_first_fit(widths: Seq<u16>, from: int, limit: int)
    requires
        0 <= from < widths.len(),
    ensures
        from <= slid(widths, from, limit) < widths.len(),
        forall|k: int|
            from <= k < slid(widths, from, limit) ==> text_width(
                #[trigger] widths.subrange(k, widths.len() as int),
            ) > limit,
        text_width(widths.subrange(slid(widths, from, limit), widths.len() as int)) <= limit
            || slid(widths, from, limit) == widths.len() - 1,
    decreases widths.len() - from,
{
    if !(from + 1 >= widths.len() || text_width(widths.subrange(from, widths.len() as int))
        <= limit) {
        lemma_slid_is_first_fit(widths, from + 1, limit);
    }
}

/// The field is never narrower than its minimum nor wider than its maximum.
pub proof fn lemma_field_width_bounds(state: FieldState, config: InputTextConfig)
    requires
        config.valid(),
    ensures
        config.text_min_width <= state.field_width(config) <= config.text_max_width,
{
}

/// The shown window is the end of the text: the text is what lies before the
/// window followed by the window.
pub proof fn lemma_displayed_is_suffix(state: FieldState)
    requires
        state.wf(),
    ensures
        state.text == state.text.subrange(0, state.first) + state.displayed(),
        state.displayed().len() <= state.text.len(),
{
    assert(state.text =~= state.text.subrange(0, state.first) + state.displayed());
}

/// A key press keeps a well-formed state well formed.
pub proof fn lemma_pressed_wf(state: FieldState, config: InputTextConfig, key: Keystroke)
    requires
        state.wf(),
    ensures
        state.pressed(config, key).wf(),
{
    match key {
        Keystroke::Char(c, width) => {
            if accepted_char(c) {
                lemma_slid_range(
                    state.widths.push(width),
                    state.first,
                    config.text_max_width - 2 * config.text_horizontal_padding,
                );
            }
        },
        Keystroke::Backspace => {},
    }
}

/// Any number of key presses keep a well-formed state well formed.
pub proof fn lemma_pressed_all_wf(state: FieldState, config: InputTextConfig, keys: Seq<Keystroke>)
    requires
        state.wf(),
    ensures
        state.pressed_all(config, keys).wf(),
    decreases keys.len(),
{
    if keys.len() > 0 {
        lemma_pressed_all_wf(state, config, keys.drop_last());
        lemma_pressed_wf(state.pressed_all(config, keys.drop_last()), config, keys.last());
    }
}

/// Whatever is typed and erased, in whatever order: the state stays well
/// formed, the field stays between its minimum and its maximum width, and the
/// shown window is the end of the text.
pub proof fn lemma_field_invariant(
    state: FieldState,
    config: InputTextConfig,
    keys: Seq<Keystroke>,
)
    requires
        state.wf(),
        config.valid(),
    ensures
        ({
            let after = state.pressed_all(config, keys);
            &&& after.wf()
            &&& config.text_min_width <= after.field_width(config) <= config.text_max_width
            &&& after.text == after.text.subrange(0, after.first) + after.displayed()
        }),
{
    lemma_pressed_all_wf(state, config, keys);
    lemma_displayed_is_suffix(state.pressed_all(config, keys));
}

/// Backspace undoes a typed character exactly when the character was
/// accepted and the window ended up at the start of the text or one
/// character further right than before.
pub proof fn lemma_backspace_undoes_typing(
    state: FieldState,
    config: InputTextConfig,
    c: char,
    width: u16,
)
    requires
        state.wf(),
    ensures
        state.typed(config, c, width).erased() == state <==> state.restorable(config, c, width)
            || (!accepted_char(c) && state.text.len() == 0),
{
    let after = state.typed(config, c, width);
    if accepted_char(c) {
        lemma_slid_range(
            state.widths.push(width),
            state.first,
            config.text_max_width - 2 * config.text_horizontal_padding,
        );
        assert(after.text.drop_last() =~= state.text);
        assert(after.widths.drop_last() =~= state.widths);
    } else if state.text.len() > 0 {
        assert(after.erased().text.len() != state.text.len());
    }
}

/// Typing any number of characters and then pressing backspace as many times
/// gives back the state from before, provided each character was restorable
/// when it was typed.
pub proof fn lemma_round_trip(state: FieldState, config: InputTextConfig, keys: Seq<Keystroke>)
    requires
        state.wf(),
        state.all_restorable(config, keys),
    ensures
        state.pressed_all(config, keys).erased_times(keys.len()) == state,
    decreases keys.len(),
{
    if keys.len() > 0 {
        let front = keys.drop_last();
        let before = state.pressed_all(config, front);
        assert(keys.take(keys.len() - 1) =~= front);
        assert(state.all_restorable(config, front)) by {
            assert forall|i: int| 0 <= i < front.len() implies match #[trigger] front[i] {
                Keystroke::Char(c, width) => state.pressed_all(config, front.take(i)).restorable(
                    config,
                    c,
                    width,
                ),
                Keystroke::Backspace => false,
            } by {
                assert(front.take(i) =~= keys.take(i));
                assert(front[i] == keys[i]);
            }
        }
        lemma_pressed_all_wf(state, config, front);
        match keys.last() {
            Keystroke::Char(c, width) => {
                lemma_backspace_undoes_typing(before, config, c, width);
            },
            Keystroke::Backspace => {},
        }
        lemma_round_trip(state, config, front);
    }
}

} // verus!
