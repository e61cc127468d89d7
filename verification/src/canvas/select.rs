//! A list of options under a filter box. The text in the box selects the
//! options that are shown; a window of bounded length scrolls over the
//! selected ones, and a highlight moves inside the window.

use vstd::prelude::*;
use crate::app::FinishedMessage;
use crate::canvas::input_text::{
    FieldState, InputTextConfig, InputTextDrawing, InputTextHandler,
};
use crate::canvas::ArrowKey;
use crate::geometry::{Rect, MAX_POSITION};
use crate::text::{lemma_refined_query_selects_less, refines, selects, strings_match};
use crate::{SCREEN_HEIGHT, SCREEN_WIDTH};

verus! {

#[derive(Clone, Copy, Debug)]
pub struct SelectConfig {
    pub input_text_config: InputTextConfig,
    pub max_options_shown: u32,
    pub x_position: i64,
    pub y_position: i64,
}

impl SelectConfig {
    /// The filter box is valid, the list shows at least one option, and it is
    /// placed at most half of `MAX_POSITION` from the origin.
    pub open spec fn valid(&self) -> bool {
        &&& self.input_text_config.valid()
        &&& self.max_options_shown > 0
        &&& -(MAX_POSITION / 2) <= self.x_position <= MAX_POSITION / 2
        &&& -(MAX_POSITION / 2) <= self.y_position <= MAX_POSITION / 2
    }

    pub fn is_valid(&self) -> (b: bool)
        ensures
            b == self.valid(),
    {
        self.input_text_config.is_valid() && self.max_options_shown > 0 && -(MAX_POSITION / 2)
            <= self.x_position && self.x_position <= MAX_POSITION / 2 && -(MAX_POSITION / 2)
            <= self.y_position && self.y_position <= MAX_POSITION / 2
    }

    /// Height of the whole list: the filter box and one line for each option
    /// that can be shown.
    pub open spec fn total_height(&self) -> int {
        self.input_text_config.field_height() + self.input_text_config.field_height()
            * self.max_options_shown
    }

    /// The rectangle of a list that was just made: as wide as the narrowest
    /// filter box, centred on the configured position.
    pub open spec fn list_rect(&self) -> Rect {
        Rect {
            x: (self.x_position - self.input_text_config.text_min_width / 2) as i64,
            y: (self.y_position - self.total_height() / 2) as i64,
            w: self.input_text_config.text_min_width as i64,
            h: self.total_height() as i64,
        }
    }

    /// The configuration of the filter box inside the list: the one given,
    /// centred vertically on the top edge of the list.
    pub open spec fn placed_input_config(&self) -> InputTextConfig {
        InputTextConfig { y_position: self.list_rect().y, ..self.input_text_config }
    }
}

impl SelectConfig {
    /// The configuration that `default` gives: the default filter box, five
    /// options shown, in the middle of the screen.
    pub open spec fn default_config() -> SelectConfig {
        SelectConfig {
            input_text_config: InputTextConfig::default_config(),
            max_options_shown: 5,
            x_position: (SCREEN_WIDTH / 2) as i64,
            y_position: (SCREEN_HEIGHT / 2) as i64,
        }
    }
}

impl Default for SelectConfig {
    fn default() -> (c: Self)
        ensures
            c == SelectConfig::default_config(),
            c.valid(),
    {
        Self {
            input_text_config: InputTextConfig::default(),
            max_options_shown: 5,
            x_position: (SCREEN_WIDTH / 2) as i64,
            y_position: (SCREEN_HEIGHT / 2) as i64,
        }
    }
}

/// A list is at most 0x3_0001_0000_0000 pixels high.
pub proof fn lemma_total_height_bounds(config: SelectConfig)
    ensures
        0 <= config.total_height() <= 0x3_0001_0000_0000,
{
    let row = config.input_text_config.field_height();
    let shown = config.max_options_shown as int;
    assert(0 <= row * shown <= 0x3_0000 * 0x1_0000_0000) by (nonlinear_arith)
        requires
            0 <= row <= 0x3_0000,
            0 <= shown <= 0x1_0000_0000,
    ;
}

/// The positions among the first `n` options that `query` selects, in
/// increasing order.
pub open spec fn matching_upto(options: Seq<Seq<char>>, query: Seq<char>, n: int) -> Seq<usize>
    decreases n,
{
    if n <= 0 {
        Seq::empty()
    } else {
        let before = matching_upto(options, query, n - 1);
        if selects(query, options[n - 1]) {
            before.push((n - 1) as usize)
        } else {
            before
        }
    }
}

/// The positions of the options that `query` selects, in increasing order.
pub open spec fn matching(options: Seq<Seq<char>>, query: Seq<char>) -> Seq<usize> {
    matching_upto(options, query, options.len() as int)
}

/// What the list holds besides its filter box: the options, the positions of
/// the selected ones, where the window over them starts, and which entry of
/// the window is highlighted.
pub struct ListState {
    pub options: Seq<Seq<char>>,
    pub filtered: Seq<usize>,
    pub window_start: int,
    pub highlighted: Option<usize>,
}

impl ListState {
    /// Length of the window: as many selected options as there are, up to
    /// `max_shown`.
    pub open spec fn window_len(self, max_shown: int) -> int {
        if self.filtered.len() <= max_shown {
            self.filtered.len() as int
        } else {
            max_shown
        }
    }

    /// The window: a run of consecutive entries of `filtered`.
    pub open spec fn visible(self, max_shown: int) -> Seq<usize> {
        self.filtered.subrange(self.window_start, self.window_start + self.window_len(max_shown))
    }

    /// The selected positions are positions of options, in strictly
    /// increasing order; the window lies inside them; and an entry of the
    /// window is highlighted unless nothing is selected.
    pub open spec fn wf(self, max_shown: int) -> bool {
        &&& max_shown > 0
        &&& (forall|k: int| 0 <= k < self.filtered.len() ==> self.filtered[k] < self.options.len())
        &&& (forall|j: int, k: int|
            0 <= j < k < self.filtered.len() ==> self.filtered[j] < self.filtered[k])
        &&& 0 <= self.window_start
        &&& self.window_start + self.window_len(max_shown) <= self.filtered.len()
        &&& self.highlighted is None <==> self.filtered.len() == 0
        &&& self.highlighted is Some ==> self.highlighted->0 < self.window_len(max_shown)
    }

    /// The list right after its selection was set to `filtered`: the window
    /// at the start, the first entry highlighted if there is one.
    pub open spec fn fresh(options: Seq<Seq<char>>, filtered: Seq<usize>) -> ListState {
        ListState {
            options,
            filtered,
            window_start: 0,
            highlighted: if filtered.len() > 0 {
                Some(0usize)
            } else {
                None
            },
        }
    }

    /// The list after an arrow key. Up and down move the highlight inside the
    /// window; at the window's edge they move the window by one entry
    /// instead, if the selection goes on in that direction. Left and right do
    /// nothing.
    pub open spec fn moved(self, max_shown: int, key: ArrowKey) -> ListState {
        match (key, self.highlighted) {
            (ArrowKey::Up, Some(h)) => if h > 0 {
                ListState { highlighted: Some((h - 1) as usize), ..self }
            } else if self.window_start > 0 {
                ListState { window_start: self.window_start - 1, ..self }
            } else {
                self
            },
            (ArrowKey::Down, Some(h)) => if h + 1 < self.window_len(max_shown) {
                ListState { highlighted: Some((h + 1) as usize), ..self }
            } else if self.window_start + self.window_len(max_shown) < self.filtered.len() {
                ListState { window_start: self.window_start + 1, ..self }
            } else {
                self
            },
            _ => self,
        }
    }

    /// The list after the arrow keys `keys`, in order.
    pub open spec fn moved_all(self, max_shown: int, keys: Seq<ArrowKey>) -> ListState
        decreases keys.len(),
    {
        if keys.len() == 0 {
            self
        } else {
            self.moved_all(max_shown, keys.drop_last()).moved(max_shown, keys.last())
        }
    }

    /// The highlighted option, if any.
    pub open spec fn chosen(self) -> Option<Seq<char>> {
        match self.highlighted {
            Some(h) => Some(self.options[self.filtered[self.window_start + h] as int]),
            None => None,
        }
    }
}

/// The texts of the strings `v`.
pub open spec fn texts(v: Seq<String>) -> Seq<Seq<char>> {
    Seq::new(v.len(), |i: int| v[i]@)
}

/// The positions from 0 up to `n`, in order.
pub open spec fn all_positions(n: nat) -> Seq<usize> {
    Seq::new(n, |i: int| i as usize)
}

/// What `matching_upto` holds: positions below `n`, in strictly increasing
/// order, of exactly the options that the query selects.
pub proof fn lemma_matching_upto(options: Seq<Seq<char>>, query: Seq<char>, n: int)
    requires
        0 <= n <= options.len() <= usize::MAX,
    ensures
        ({
            let m = matching_upto(options, query, n);
            &&& m.len() <= n
            &&& (forall|k: int|
                0 <= k < m.len() ==> m[k] < n && selects(query, options[m[k] as int]))
            &&& (forall|j: int, k: int| 0 <= j < k < m.len() ==> m[j] < m[k])
            &&& (forall|i: int|
                0 <= i < n && selects(query, options[i]) ==> m.contains(i as usize))
        }),
    decreases n,
{
    if n > 0 {
        lemma_matching_upto(options, query, n - 1);
        let before = matching_upto(options, query, n - 1);
        let m = matching_upto(options, query, n);
        assert forall|i: int| 0 <= i < n && selects(query, options[i]) implies m.contains(
            i as usize,
        ) by {
            if i < n - 1 {
                let k = choose|k: int| 0 <= k < before.len() && before[k] == i as usize;
                assert(m[k] == i as usize);
            } else {
                assert(m[m.len() - 1] == i as usize);
            }
        }
    }
}

/// The empty query selects every option.
pub proof fn lemma_matching_all(options: Seq<Seq<char>>, query: Seq<char>, n: int)
    requires
        0 <= n <= options.len() <= usize::MAX,
        query.len() == 0,
    ensures
        matching_upto(options, query, n) == all_positions(n as nat),
    decreases n,
{
    if n > 0 {
        lemma_matching_all(options, query, n - 1);
    }
    assert(matching_upto(options, query, n) =~= all_positions(n as nat));
}

/// Where one option of the window is drawn.
#[derive(Clone, Copy, Debug, PartialEq, Eq, Structural)]
pub struct OptionDrawing {
    /// Position of the option among all options.
    pub option: usize,
    pub x: i64,
    pub y: i64,
}

/// Where a list draws its parts.
#[derive(Debug)]
pub struct SelectDrawing {
    pub background_rect: Rect,
    pub input: InputTextDrawing,
    /// The bar behind the highlighted option.
    pub selected_rect: Option<Rect>,
    /// The options of the window, from the top down.
    pub options: Vec<OptionDrawing>,
}

/// The list widget: its configuration, its rectangle on screen, the filter
/// box, the options, and which of them are selected, shown and highlighted.
pub struct SelectHandler {
    config: SelectConfig,
    input_text_handler: InputTextHandler,
    background_rect: Rect,
    all_options_strings: Vec<String>,
    filtered_options_indexes: Vec<usize>,
    visible_start: usize,
    selected_option: Option<usize>,
}

impl View for SelectHandler {
    type V = ListState;

    closed spec fn view(&self) -> ListState {
        ListState {
            options: texts(self.all_options_strings@),
            filtered: self.filtered_options_indexes@,
            window_start: self.visible_start as int,
            highlighted: self.selected_option,
        }
    }
}

impl SelectHandler {
    pub closed spec fn spec_config(&self) -> SelectConfig {
        self.config
    }

    pub closed spec fn spec_background_rect(&self) -> Rect {
        self.background_rect
    }

    /// The filter box.
    pub closed spec fn input(&self) -> InputTextHandler {
        self.input_text_handler
    }

    /// Number of options the window can hold.
    pub open spec fn max_shown(&self) -> int {
        self.spec_config().max_options_shown as int
    }

    /// The configuration is valid, the filter box is well formed and made
    /// from it, the list state is well formed, and the selected options are
    /// those that the text in the filter box selects.
    pub open spec fn wf(&self) -> bool {
        &&& self.spec_config().valid()
        &&& self.input().wf()
        &&& self.input().config() == self.spec_config().input_text_config
        &&& self@.wf(self.max_shown())
        &&& self@.filtered == matching(self@.options, self.input()@.text)
        &&& self.spec_background_rect().y == self.spec_config().list_rect().y
        &&& self.spec_background_rect().h == self.spec_config().list_rect().h
        &&& -2 * MAX_POSITION <= self.spec_background_rect().x <= 2 * MAX_POSITION
        &&& 0 <= self.spec_background_rect().w <= u16::MAX
    }

    /// Height of one row of the list.
    pub open spec fn row_height(&self) -> int {
        self.spec_config().input_text_config.field_height()
    }

    /// Top edge of the first row: below the filter box and its outline.
    pub open spec fn rows_top(&self) -> int {
        let input_height = self.input().background_rect().h;
        self.spec_background_rect().y - input_height / 2
            + self.spec_config().input_text_config.text_font_size / 2 + input_height
            + self.spec_config().input_text_config.background_outline_width
    }

    /// The bar behind the highlighted option: the row of the highlight, over
    /// the whole width of the list.
    pub open spec fn selected_rect(&self) -> Option<Rect> {
        match self@.highlighted {
            Some(row) => Some(
                Rect {
                    x: self.spec_background_rect().x,
                    y: (self.rows_top() + row * self.row_height()) as i64,
                    w: self.spec_background_rect().w,
                    h: self.row_height() as i64,
                },
            ),
            None => None,
        }
    }

    /// Where the option in row `row` of the window is drawn: inside its row
    /// by the padding.
    pub open spec fn option_drawing(&self, row: int) -> OptionDrawing {
        OptionDrawing {
            option: self@.visible(self.max_shown())[row],
            x: (self.spec_background_rect().x
                + self.spec_config().input_text_config.text_horizontal_padding) as i64,
            y: (self.rows_top() + self.spec_config().input_text_config.text_vertical_padding + row
                * self.row_height()) as i64,
        }
    }

    #[verifier::when_used_as_spec(spec_config)]
    pub fn config(&self) -> (c: SelectConfig)
        ensures
            c == self.spec_config(),
    {
        self.config
    }

    #[verifier::when_used_as_spec(spec_background_rect)]
    pub fn background_rect(&self) -> (r: Rect)
        ensures
            r == self.spec_background_rect(),
    {
        self.background_rect
    }

    pub fn input_text_handler(&self) -> (h: &InputTextHandler)
        ensures
            *h == self.input(),
    {
        &self.input_text_handler
    }

    /// Whether the query selects the option: without regard to case, nor to
    /// whitespace around the option.
    pub fn strings_match(option: &str, query: &str) -> (b: bool)
        ensures
            b == selects(query@, option@),
    {
        strings_match(option, query)
    }

    /// A list without options. The filter box sits on the top edge of the
    /// list's rectangle.
    pub fn new(config: &SelectConfig) -> (h: Self)
        requires
            config.valid(),
        ensures
            h.wf(),
            h.config() == (SelectConfig {
                input_text_config: config.placed_input_config(),
                ..*config
            }),
            h.background_rect() == config.list_rect(),
            h.input()@ == FieldState::empty(),
            h@ == ListState::fresh(Seq::empty(), Seq::empty()),
    {
        let mut config = *config;
        let input_text_background = InputTextHandler::get_initial_background_rect(
            &config.input_text_config,
        );
        let option_height: i64 = config.input_text_config.height();
        let shown: i64 = config.max_options_shown as i64;
        assert(0 <= option_height * shown <= 0x3_0000 * 0x1_0000_0000) by (nonlinear_arith)
            requires
                0 <= option_height <= 0x3_0000,
                0 <= shown <= 0x1_0000_0000,
        ;
        let total_height: i64 = input_text_background.h + option_height * shown;
        let background_rect = Rect {
            x: config.x_position - input_text_background.w / 2,
            y: config.y_position - total_height / 2,
            w: input_text_background.w,
            h: total_height,
        };
        config.input_text_config.y_position = background_rect.y;
        let input_text_handler = InputTextHandler::new(&config.input_text_config);
        let h = Self {
            config,
            input_text_handler,
            background_rect,
            all_options_strings: Vec::new(),
            filtered_options_indexes: Vec::new(),
            visible_start: 0,
            selected_option: None,
        };
        assert(h@.options =~= Seq::<Seq<char>>::empty());
        h
    }

    /// Starts a new choice among `options`: the filter box is cleared, every
    /// option is selected, the window shows the first ones, and the first
    /// option, if there is one, is highlighted.
    pub fn setup(&mut self, options: Vec<String>)
        requires
            old(self).wf(),
        ensures
            final(self).wf(),
            final(self).config() == old(self).config(),
            final(self).background_rect() == old(self).background_rect(),
            final(self).input()@ == FieldState::empty(),
            final(self)@ == ListState::fresh(texts(options@), all_positions(options@.len())),
    {
        self.input_text_handler.setup();
        let n: usize = options.len();
        self.all_options_strings = options;
        let mut filtered: Vec<usize> = Vec::new();
        let mut i: usize = 0;
        while i < n
            invariant
                i <= n,
                filtered@ == all_positions(i as nat),
            decreases n - i,
        {
            filtered.push(i);
            i += 1;
            assert(filtered@ =~= all_positions(i as nat));
        }
        self.filtered_options_indexes = filtered;
        self.visible_start = 0;
        self.selected_option = if n > 0 {
            Some(0)
        } else {
            None
        };
        proof {
            lemma_matching_all(self@.options, Seq::empty(), n as int);
        }
    }

    /// Selects the options anew from the text in the filter box, in the
    /// order of the options, and puts window and highlight back at the
    /// start.
    pub fn filter_options(&mut self)
        requires
            old(self).wf(),
        ensures
            final(self).wf(),
            final(self).config() == old(self).config(),
            final(self).background_rect() == old(self).background_rect(),
            final(self).input() == old(self).input(),
            final(self)@ == ListState::fresh(
                old(self)@.options,
                matching(old(self)@.options, old(self).input()@.text),
            ),
    {
        self.refilter();
    }

    /// Makes the list as wide as its filter box.
    fn follow_input(&mut self)
        ensures
            final(self).config == old(self).config,
            final(self).input_text_handler == old(self).input_text_handler,
            final(self)@ == old(self)@,
            final(self).background_rect == (Rect {
                x: old(self).input_text_handler.background_rect().x,
                w: old(self).input_text_handler.background_rect().w,
                ..old(self).background_rect
            }),
    {
        let input_rect = self.input_text_handler.background_rect();
        self.background_rect.w = input_rect.w;
        self.background_rect.x = input_rect.x;
    }

    /// Passes a typed character to the filter box, makes the list as wide as
    /// the box, and selects the options anew.
    pub fn handle_text_input(&mut self, inputted_char: char, glyph_width: u16)
        requires
            old(self).wf(),
        ensures
            final(self).wf(),
            final(self).config() == old(self).config(),
            final(self).input()@ == old(self).input()@.typed(
                old(self).config().input_text_config,
                inputted_char,
                glyph_width,
            ),
            final(self)@ == ListState::fresh(
                old(self)@.options,
                matching(old(self)@.options, final(self).input()@.text),
            ),
            final(self).background_rect() == (Rect {
                x: final(self).input().background_rect().x,
                w: final(self).input().background_rect().w,
                ..old(self).background_rect()
            }),
    {
        self.input_text_handler.handle_text_input(inputted_char, glyph_width);
        self.follow_input();
        self.refilter();
    }

    /// Passes a backspace to the filter box, makes the list as wide as the
    /// box, and selects the options anew.
    pub fn handle_backspace(&mut self)
        requires
            old(self).wf(),
        ensures
            final(self).wf(),
            final(self).config() == old(self).config(),
            final(self).input()@ == old(self).input()@.erased(),
            final(self)@ == ListState::fresh(
                old(self)@.options,
                matching(old(self)@.options, final(self).input()@.text),
            ),
            final(self).background_rect() == (Rect {
                x: final(self).input().background_rect().x,
                w: final(self).input().background_rect().w,
                ..old(self).background_rect()
            }),
    {
        self.input_text_handler.handle_backspace();
        self.follow_input();
        self.refilter();
    }

    /// `filter_options` for a list whose filter box has just changed.
    fn refilter(&mut self)
        requires
            old(self).config.valid(),
            old(self).input_text_handler.wf(),
            old(self).input_text_handler.config() == old(self).config.input_text_config,
            old(self).background_rect.y == old(self).config.list_rect().y,
            old(self).background_rect.h == old(self).config.list_rect().h,
            -2 * MAX_POSITION <= old(self).background_rect.x <= 2 * MAX_POSITION,
            0 <= old(self).background_rect.w <= u16::MAX,
        ensures
            final(self).wf(),
            final(self).config == old(self).config,
            final(self).background_rect == old(self).background_rect,
            final(self).input_text_handler == old(self).input_text_handler,
            final(self)@ == ListState::fresh(
                old(self)@.options,
                matching(old(self)@.options, old(self).input_text_handler@.text),
            ),
    {
        let query = self.input_text_handler.entire_text();
        let n: usize = self.all_options_strings.len();
        let ghost options = self@.options;
        let mut filtered: Vec<usize> = Vec::new();
        let mut i: usize = 0;
        while i < n
            invariant
                n == self.all_options_strings.len(),
                options == texts(self.all_options_strings@),
                i <= n,
                filtered@ == matching_upto(options, query@, i as int),
            decreases n - i,
        {
            if Self::strings_match(self.all_options_strings[i].as_str(), query.as_str()) {
                filtered.push(i);
            }
            i += 1;
        }
        proof {
            lemma_matching_upto(options, query@, n as int);
        }
        self.selected_option = if filtered.len() > 0 {
            Some(0)
        } else {
            None
        };
        self.filtered_options_indexes = filtered;
        self.visible_start = 0;
    }

    /// Length of the window.
    fn window_len(&self) -> (len: usize)
        ensures
            len == self@.window_len(self.max_shown()),
    {
        let max: usize = self.config.max_options_shown as usize;
        if self.filtered_options_indexes.len() <= max {
            self.filtered_options_indexes.len()
        } else {
            max
        }
    }

    /// Moves the highlight, or the window once the highlight is at its
    /// edge. A key that has nowhere to go does nothing.
    pub fn handle_arrow_key(&mut self, key: ArrowKey)
        requires
            old(self).wf(),
        ensures
            final(self).wf(),
            final(self).config() == old(self).config(),
            final(self).background_rect() == old(self).background_rect(),
            final(self).input() == old(self).input(),
            final(self)@ == old(self)@.moved(old(self).max_shown(), key),
    {
        let len: usize = self.window_len();
        let total: usize = self.filtered_options_indexes.len();
        match (key, self.selected_option) {
            (ArrowKey::Up, Some(selected)) => {
                if selected > 0 {
                    self.selected_option = Some(selected - 1);
                } else if self.visible_start > 0 {
                    self.visible_start -= 1;
                }
            },
            (ArrowKey::Down, Some(selected)) => {
                if selected + 1 < len {
                    self.selected_option = Some(selected + 1);
                } else if self.visible_start + len < total {
                    self.visible_start += 1;
                }
            },
            _ => {},
        }
    }

    /// What Enter submits: the highlighted option, or nothing when no option
    /// is selected.
    pub fn handle_enter(&self) -> (r: Option<FinishedMessage>)
        requires
            self.wf(),
        ensures
            self@.chosen() is None ==> r is None,
            self@.chosen() is Some ==> (r matches Some(FinishedMessage::UserInput(s)) && s@
                == self@.chosen()->0),
    {
        assert(self.visible_start + self@.window_len(self.max_shown())
            <= self.filtered_options_indexes.len());
        match self.selected_option {
            Some(selected) => {
                let position: usize = self.filtered_options_indexes[self.visible_start + selected];
                Some(FinishedMessage::UserInput(self.all_options_strings[position].clone()))
            },
            None => None,
        }
    }

    /// `d` is where the list draws its parts: its background, its filter
    /// box, the bar behind the highlighted option, and one entry for each
    /// option of the window, from the top down.
    pub open spec fn draws(&self, d: SelectDrawing) -> bool {
        &&& d.background_rect == self.spec_background_rect()
        &&& d.input == self.input().drawing()
        &&& d.selected_rect == self.selected_rect()
        &&& d.options@.len() == self@.window_len(self.max_shown())
        &&& (forall|row: int|
            0 <= row < d.options@.len() ==> d.options@[row] == self.option_drawing(row))
    }

    /// Top edge of row `row`.
    fn row_top(&self, row: usize) -> (y: i64)
        requires
            self.wf(),
            row < self@.window_len(self.max_shown()),
        ensures
            y == self.rows_top() + row * self.row_height(),
            -MAX_POSITION <= y <= MAX_POSITION,
    {
        let config = &self.config.input_text_config;
        let input_height: i64 = self.input_text_handler.background_rect().h;
        let row_height: i64 = config.height();
        let row: i64 = row as i64;
        proof {
            lemma_total_height_bounds(self.config);
        }
        assert(0 <= row * row_height <= 0x1_0000_0000 * 0x3_0000) by (nonlinear_arith)
            requires
                0 <= row <= 0x1_0000_0000,
                0 <= row_height <= 0x3_0000,
        ;
        self.background_rect.y - input_height / 2 + (config.text_font_size / 2) as i64
            + input_height + config.background_outline_width as i64 + row * row_height
    }

    /// Where the list draws its parts: its background, the filter box, the
    /// bar behind the highlighted option, and the options of the window.
    pub fn draw(&self) -> (d: SelectDrawing)
        requires
            self.wf(),
        ensures
            self.draws(d),
    {
        let config = &self.config.input_text_config;
        let row_height: i64 = config.height();
        let selected_rect = match self.selected_option {
            Some(selected) => Some(
                Rect {
                    x: self.background_rect.x,
                    y: self.row_top(selected),
                    w: self.background_rect.w,
                    h: row_height,
                },
            ),
            None => None,
        };
        let len: usize = self.window_len();
        let total: usize = self.filtered_options_indexes.len();
        let mut options: Vec<OptionDrawing> = Vec::new();
        let mut row: usize = 0;
        while row < len
            invariant
                self.wf(),
                len == self@.window_len(self.max_shown()),
                total == self.filtered_options_indexes.len(),
                self.visible_start + len <= total,
                config == &self.config.input_text_config,
                row <= len,
                options@.len() == row,
                forall|k: int| 0 <= k < row ==> options@[k] == self.option_drawing(k),
            decreases len - row,
        {
            options.push(
                OptionDrawing {
                    option: self.filtered_options_indexes[self.visible_start + row],
                    x: self.background_rect.x + config.text_horizontal_padding as i64,
                    y: self.row_top(row) + config.text_vertical_padding as i64,
                },
            );
            row += 1;
        }
        SelectDrawing {
            background_rect: self.background_rect,
            input: self.input_text_handler.draw(),
            selected_rect,
            options,
        }
    }

    /// The options, as they were given.
    pub fn all_options_strings(&self) -> (r: &Vec<String>)
        ensures
            texts(r@) == self@.options,
    {
        &self.all_options_strings
    }

    /// The positions of the selected options.
    pub fn filtered_options_indexes(&self) -> (r: &Vec<usize>)
        ensures
            r@ == self@.filtered,
    {
        &self.filtered_options_indexes
    }

    /// The positions of the options in the window.
    pub fn filtered_options_visible_indexes(&self) -> (r: Vec<usize>)
        requires
            self.wf(),
        ensures
            r@ == self@.visible(self.max_shown()),
    {
        let len: usize = self.window_len();
        let mut r: Vec<usize> = Vec::new();
        let mut i: usize = 0;
        while i < len
            invariant
                i <= len,
                self.visible_start + len <= self.filtered_options_indexes.len(),
                r@ == self.filtered_options_indexes@.subrange(
                    self.visible_start as int,
                    self.visible_start + i,
                ),
            decreases len - i,
        {
            r.push(self.filtered_options_indexes[self.visible_start + i]);
            i += 1;
            assert(r@ =~= self.filtered_options_indexes@.subrange(
                self.visible_start as int,
                self.visible_start + i,
            ));
        }
        r
    }

    /// Which entry of the window is highlighted.
    pub fn selected_option(&self) -> (r: Option<usize>)
        ensures
            r == self@.highlighted,
    {
        self.selected_option
    }
}

/// A freshly filtered list is well formed.
pub proof fn lemma_fresh_wf(options: Seq<Seq<char>>, query: Seq<char>, max_shown: int)
    requires
        options.len() <= usize::MAX,
        max_shown > 0,
    ensures
        ListState::fresh(options, matching(options, query)).wf(max_shown),
{
    lemma_matching_upto(options, query, options.len() as int);
}

/// Filtering narrows with each keystroke: the options selected after a
/// character was typed into the filter box were selected before it, provided
/// the text after it refines the text before it.
pub proof fn lemma_typing_narrows(
    options: Seq<Seq<char>>,
    field: FieldState,
    config: InputTextConfig,
    c: char,
    width: u16,
)
    requires
        options.len() <= usize::MAX,
        refines(field.typed(config, c, width).text, field.text),
    ensures
        forall|p: usize| #[trigger]
            matching(options, field.typed(config, c, width).text).contains(p) ==> matching(
                options,
                field.text,
            ).contains(p),
{
    let old = field.text;
    let new = field.typed(config, c, width).text;
    let n = options.len() as int;
    lemma_matching_upto(options, old, n);
    lemma_matching_upto(options, new, n);
    assert forall|p: usize| #[trigger] matching(options, new).contains(p) implies matching(
        options,
        old,
    ).contains(p) by {
        let k = choose|k: int| 0 <= k < matching(options, new).len() && matching(options, new)[k]
            == p;
        lemma_refined_query_selects_less(new, old, options[p as int]);
    }
}

/// An arrow key keeps a well-formed list well formed and leaves options and
/// selection as they are.
pub proof fn lemma_moved_wf(state: ListState, max_shown: int, key: ArrowKey)
    requires
        state.wf(max_shown),
    ensures
        state.moved(max_shown, key).wf(max_shown),
        state.moved(max_shown, key).options == state.options,
        state.moved(max_shown, key).filtered == state.filtered,
{
}

/// Whatever arrow keys are pressed: the list stays well formed, and the
/// window stays a run of consecutive selected options, as long as the
/// selection up to the most the list shows.
pub proof fn lemma_window_invariant(state: ListState, max_shown: int, keys: Seq<ArrowKey>)
    requires
        state.wf(max_shown),
    ensures
        ({
            let after = state.moved_all(max_shown, keys);
            let window = after.visible(max_shown);
            &&& after.wf(max_shown)
            &&& after.options == state.options
            &&& after.filtered == state.filtered
            &&& window.len() == if state.filtered.len() <= max_shown {
                state.filtered.len() as int
            } else {
                max_shown
            }
            &&& 0 <= after.window_start
            &&& after.window_start + window.len() <= state.filtered.len()
            &&& (forall|k: int|
                0 <= k < window.len() ==> window[k] == state.filtered[after.window_start + k])
        }),
    decreases keys.len(),
{
    if keys.len() > 0 {
        lemma_window_invariant(state, max_shown, keys.drop_last());
        lemma_moved_wf(state.moved_all(max_shown, keys.drop_last()), max_shown, keys.last());
    }
}

} // verus!
