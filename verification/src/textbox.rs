//! The dialogue box: it reveals a text a character at a time, starts a new
//! page at a word boundary when the revealed text grows too high, and can
//! hide itself some time after the text is complete.
//!
//! Times are milliseconds since start. The box does not lay out text: after a
//! reveal its caller measures the height of what is shown and reports it.

use vstd::prelude::*;
use crate::text::{chars_of, string_of};
use crate::{SCREEN_HEIGHT, SCREEN_WIDTH};

verus! {

pub const FONT_SIZE: u16 = 32;

pub const HORIZONTAL_PADDING: u16 = 10;

pub const VERTICAL_PADDING: u16 = 15;

/// Time between two reveals, in milliseconds.
pub const TEXT_ANIMATION_SPEED: u64 = 30;

/// Time a complete text stays before the box hides itself, in milliseconds.
pub const DISAPPEAR_SPEED: u64 = 2000;

/// Time from `since` to `now`; none if `now` is the earlier.
pub open spec fn elapsed(now: u64, since: u64) -> int {
    if now >= since {
        now - since
    } else {
        0
    }
}

/// Number of characters revealed at once at position `at`: a space takes the
/// character after it along.
pub open spec fn reveal_step(text: Seq<char>, at: int) -> int {
    if text[at] == ' ' && at + 1 < text.len() {
        2
    } else {
        1
    }
}

/// Position of the last space at or before `at`, or -1 if there is none.
pub open spec fn last_space(text: Seq<char>, at: int) -> int
    decreases at + 1,
{
    if at < 0 {
        -1
    } else if text[at] == ' ' {
        at
    } else {
        last_space(text, at - 1)
    }
}

/// Where the next page starts when the text overflows after a reveal that
/// began at `at`: behind the last space at or before `at`, or at `at` itself
/// when there is no such space.
pub open spec fn page_break(text: Seq<char>, at: int) -> int {
    let space = last_space(text, at);
    if space >= 0 {
        space + 1
    } else {
        at
    }
}

/// What a call of `update` did.
#[derive(Clone, Copy, Debug, PartialEq, Eq, Structural)]
pub enum TextboxUpdate {
    /// Nothing changed.
    Nothing,
    /// More of the text is shown: its height is to be measured and reported.
    Revealed,
    /// The whole text is shown; the time was taken.
    Completed,
    /// The box has hidden itself and its command is finished.
    Finished,
}

/// What the dialogue box holds.
pub struct TextboxState {
    pub shown: bool,
    /// The text of the current page and what follows it.
    pub full_text: Seq<char>,
    /// Number of characters of `full_text` that are shown.
    pub revealed: int,
    /// Where the last reveal began.
    pub reveal_point: int,
    pub last_reveal_time: u64,
    pub completion_time: Option<u64>,
    pub notify_on_complete: bool,
}

impl TextboxState {
    /// The shown text is a prefix of the full text, and the last reveal began
    /// inside it.
    pub open spec fn wf(self) -> bool {
        &&& 0 <= self.reveal_point <= self.revealed <= self.full_text.len()
        &&& self.revealed > 0 ==> self.reveal_point < self.revealed
    }

    /// The text that is shown.
    pub open spec fn revealed_text(self) -> Seq<char> {
        self.full_text.subrange(0, self.revealed)
    }

    /// A box that shows nothing of `text` yet.
    pub open spec fn showing(text: Seq<char>, notify_on_complete: bool, now: u64) -> TextboxState {
        TextboxState {
            shown: true,
            full_text: text,
            revealed: 0,
            reveal_point: 0,
            last_reveal_time: now,
            completion_time: None,
            notify_on_complete,
        }
    }

    /// The same box, hidden.
    pub open spec fn hidden(self) -> TextboxState {
        TextboxState { shown: false, ..self }
    }

    /// What `update` reports at time `now`.
    pub open spec fn tick_event(self, now: u64) -> TextboxUpdate {
        if !self.shown {
            TextboxUpdate::Nothing
        } else {
            match self.completion_time {
                Some(completed) => if self.notify_on_complete && elapsed(now, completed)
                    >= DISAPPEAR_SPEED {
                    TextboxUpdate::Finished
                } else {
                    TextboxUpdate::Nothing
                },
                None => if elapsed(now, self.last_reveal_time) < TEXT_ANIMATION_SPEED {
                    TextboxUpdate::Nothing
                } else if self.revealed < self.full_text.len() {
                    TextboxUpdate::Revealed
                } else {
                    TextboxUpdate::Completed
                },
            }
        }
    }

    /// The box after `update` at time `now`.
    pub open spec fn ticked(self, now: u64) -> TextboxState {
        match self.tick_event(now) {
            TextboxUpdate::Nothing => self,
            TextboxUpdate::Finished => self.hidden(),
            TextboxUpdate::Revealed => TextboxState {
                revealed: self.revealed + reveal_step(self.full_text, self.revealed),
                reveal_point: self.revealed,
                last_reveal_time: now,
                ..self
            },
            TextboxUpdate::Completed => TextboxState {
                completion_time: Some(now),
                last_reveal_time: now,
                ..self
            },
        }
    }

    /// The box after the shown text was found too high: the text from the
    /// page break on is kept, and none of it is shown.
    pub open spec fn next_page(self) -> TextboxState {
        TextboxState {
            full_text: self.full_text.subrange(
                page_break(self.full_text, self.reveal_point),
                self.full_text.len() as int,
            ),
            revealed: 0,
            reveal_point: 0,
            ..self
        }
    }

    /// The box after the height of the shown text was reported. A height
    /// above `max_height` starts a new page, if the box is shown and shows
    /// any text.
    pub open spec fn measured(self, rendered_height: u32, max_height: i64) -> TextboxState {
        if self.shown && self.revealed > 0 && rendered_height > max_height {
            self.next_page()
        } else {
            self
        }
    }
}

/// Where the dialogue box draws its frame and its text.
#[derive(Clone, Copy, Debug, PartialEq, Eq, Structural)]
pub struct TextboxLayout {
    pub image_x: i64,
    pub image_y: i64,
    pub text_x: i64,
    pub text_y: i64,
}

/// The dialogue box.
pub struct Textbox {
    shown: bool,
    entire_text: Vec<char>,
    displayed_len: usize,
    reveal_point: usize,
    time_last_char_appeared: u64,
    time_finished: Option<u64>,
    image_height: u16,
    bounds_width: i64,
    finished_sender_enabled: bool,
}

impl View for Textbox {
    type V = TextboxState;

    closed spec fn view(&self) -> TextboxState {
        TextboxState {
            shown: self.shown,
            full_text: self.entire_text@,
            revealed: self.displayed_len as int,
            reveal_point: self.reveal_point as int,
            last_reveal_time: self.time_last_char_appeared,
            completion_time: self.time_finished,
            notify_on_complete: self.finished_sender_enabled,
        }
    }
}

impl Textbox {
    /// Height of the frame image.
    pub closed spec fn spec_image_height(&self) -> u16 {
        self.image_height
    }

    /// Width at which the text wraps.
    pub closed spec fn spec_bounds_width(&self) -> i64 {
        self.bounds_width
    }

    /// Height above which the shown text is too high: the frame without its
    /// vertical padding.
    pub open spec fn max_height(&self) -> i64 {
        (self.spec_image_height() - 2 * VERTICAL_PADDING) as i64
    }

    pub open spec fn wf(&self) -> bool {
        self@.wf()
    }

    /// A hidden box beside an avatar that is `avatar_image_width` wide, in a
    /// frame that is `image_height` high. The text wraps at the width that
    /// the avatar and the padding leave of the screen.
    pub fn new(avatar_image_width: u16, image_height: u16, now: u64) -> (t: Self)
        ensures
            t.wf(),
            t@ == TextboxState::showing(Seq::empty(), false, now).hidden(),
            t.spec_image_height() == image_height,
            t.spec_bounds_width() == SCREEN_WIDTH - avatar_image_width - 2 * HORIZONTAL_PADDING,
    {
        let padding: i64 = HORIZONTAL_PADDING as i64;
        Self {
            shown: false,
            entire_text: Vec::new(),
            displayed_len: 0,
            reveal_point: 0,
            time_last_char_appeared: now,
            time_finished: None,
            image_height,
            bounds_width: SCREEN_WIDTH as i64 - avatar_image_width as i64 - 2 * padding,
            finished_sender_enabled: false,
        }
    }

    /// Shows the box with a new text, none of it revealed yet.
    pub fn set_text(&mut self, text: &String, finished_listener_enabled: bool, now: u64)
        ensures
            final(self).wf(),
            final(self)@ == TextboxState::showing(text@, finished_listener_enabled, now),
            final(self).spec_image_height() == old(self).spec_image_height(),
            final(self).spec_bounds_width() == old(self).spec_bounds_width(),
    {
        self.shown = true;
        self.time_finished = None;
        self.time_last_char_appeared = now;
        self.entire_text = chars_of(text.as_str());
        self.displayed_len = 0;
        self.reveal_point = 0;
        self.finished_sender_enabled = finished_listener_enabled;
    }

    /// Hides the box. Its text stays.
    pub fn dismiss(&mut self)
        ensures
            final(self)@ == old(self)@.hidden(),
            final(self).spec_image_height() == old(self).spec_image_height(),
            final(self).spec_bounds_width() == old(self).spec_bounds_width(),
    {
        self.shown = false;
    }

    /// Advances the box to time `now`. A hidden box does nothing. A box whose
    /// text is complete hides itself and reports `Finished` once
    /// `DISAPPEAR_SPEED` has passed since, if it was asked to; else it does
    /// nothing. A box that is still revealing waits until
    /// `TEXT_ANIMATION_SPEED` has passed since the last reveal; then it shows
    /// the next character, and the one after it if the next is a space, or,
    /// with no character left, takes the time of completion.
    pub fn update(&mut self, now: u64) -> (event: TextboxUpdate)
        requires
            old(self).wf(),
        ensures
            final(self).wf(),
            event == old(self)@.tick_event(now),
            final(self)@ == old(self)@.ticked(now),
            final(self).spec_image_height() == old(self).spec_image_height(),
            final(self).spec_bounds_width() == old(self).spec_bounds_width(),
    {
        if !self.shown {
            return TextboxUpdate::Nothing;
        }
        match self.time_finished {
            Some(time_finished) => {
                if self.finished_sender_enabled && now >= time_finished && now - time_finished
                    >= DISAPPEAR_SPEED {
                    self.dismiss();
                    TextboxUpdate::Finished
                } else {
                    TextboxUpdate::Nothing
                }
            },
            None => {
                if now < self.time_last_char_appeared || now - self.time_last_char_appeared
                    < TEXT_ANIMATION_SPEED {
                    return TextboxUpdate::Nothing;
                }
                self.time_last_char_appeared = now;
                if self.displayed_len < self.entire_text.len() {
                    self.add_char();
                    TextboxUpdate::Revealed
                } else {
                    self.time_finished = Some(now);
                    TextboxUpdate::Completed
                }
            },
        }
    }

    /// Shows the next character, and the one after it if the next is a space.
    fn add_char(&mut self)
        requires
            old(self)@.wf(),
            old(self).displayed_len < old(self).entire_text.len(),
        ensures
            final(self)@ == (TextboxState {
                revealed: old(self)@.revealed + reveal_step(
                    old(self)@.full_text,
                    old(self)@.revealed,
                ),
                reveal_point: old(self)@.revealed,
                ..old(self)@
            }),
            final(self)@.wf(),
            final(self).image_height == old(self).image_height,
            final(self).bounds_width == old(self).bounds_width,
    {
        let index: usize = self.displayed_len;
        let step: usize = if self.entire_text[index] == ' ' && index + 1 < self.entire_text.len() {
            2
        } else {
            1
        };
        self.reveal_point = index;
        self.displayed_len = index + step;
    }

    /// Takes the height of the shown text, as it was measured after a
    /// reveal. If the box is shown, shows some text, and that text is higher
    /// than the frame leaves room for, a new page starts: the text before
    /// the page break is dropped, and what follows is revealed from its
    /// start.
    pub fn handle_rendered_height(&mut self, rendered_height: u32)
        requires
            old(self).wf(),
        ensures
            final(self).wf(),
            final(self)@ == old(self)@.measured(rendered_height, old(self).max_height()),
            final(self).spec_image_height() == old(self).spec_image_height(),
            final(self).spec_bounds_width() == old(self).spec_bounds_width(),
    {
        let padding: i64 = VERTICAL_PADDING as i64;
        let max_height: i64 = self.image_height as i64 - 2 * padding;
        if !self.shown || self.displayed_len == 0 || rendered_height as i64 <= max_height {
            return ;
        }
        let len: usize = self.entire_text.len();
        let mut cut: usize = self.reveal_point;
        let mut i: usize = self.reveal_point + 1;
        while i > 0
            invariant_except_break
                last_space(self.entire_text@, self.reveal_point as int) == last_space(
                    self.entire_text@,
                    i - 1,
                ),
                cut == self.reveal_point,
            invariant
                self.reveal_point < len == self.entire_text.len(),
                i <= self.reveal_point + 1,
            ensures
                cut == page_break(self.entire_text@, self.reveal_point as int),
                cut <= len,
            decreases i,
        {
            i -= 1;
            if self.entire_text[i] == ' ' {
                cut = i + 1;
                break ;
            }
        }
        let mut rest: Vec<char> = Vec::new();
        let mut j: usize = cut;
        while j < len
            invariant
                cut <= j <= len == self.entire_text.len(),
                rest@ == self.entire_text@.subrange(cut as int, j as int),
            decreases len - j,
        {
            rest.push(self.entire_text[j]);
            j += 1;
            assert(rest@ =~= self.entire_text@.subrange(cut as int, j as int));
        }
        self.entire_text = rest;
        self.displayed_len = 0;
        self.reveal_point = 0;
    }

    /// Whether the box is shown.
    pub fn is_shown(&self) -> (b: bool)
        ensures
            b == self@.shown,
    {
        self.shown
    }

    /// The text that is shown.
    pub fn displayed_text(&self) -> (s: String)
        requires
            self.wf(),
        ensures
            s@ == self@.revealed_text(),
    {
        let mut shown: Vec<char> = Vec::new();
        let mut i: usize = 0;
        while i < self.displayed_len
            invariant
                i <= self.displayed_len <= self.entire_text.len(),
                shown@ == self.entire_text@.subrange(0, i as int),
            decreases self.displayed_len - i,
        {
            shown.push(self.entire_text[i]);
            i += 1;
            assert(shown@ =~= self.entire_text@.subrange(0, i as int));
        }
        string_of(&shown)
    }

    /// The text of the current page and what follows it.
    pub fn entire_text(&self) -> (s: String)
        ensures
            s@ == self@.full_text,
    {
        string_of(&self.entire_text)
    }

    /// Width at which the text wraps.
    #[verifier::when_used_as_spec(spec_bounds_width)]
    pub fn bounds_width(&self) -> (w: i64)
        ensures
            w == self.spec_bounds_width(),
    {
        self.bounds_width
    }

    /// Where frame and text go on screen, if the box is shown: the frame in
    /// the bottom left corner, the text inside it by the padding.
    pub fn draw(&self) -> (layout: Option<TextboxLayout>)
        ensures
            layout == if self@.shown {
                Some(
                    TextboxLayout {
                        image_x: 0,
                        image_y: (SCREEN_HEIGHT - self.spec_image_height()) as i64,
                        text_x: HORIZONTAL_PADDING as i64,
                        text_y: (SCREEN_HEIGHT - self.spec_image_height() + VERTICAL_PADDING) as i64,
                    },
                )
            } else {
                None
            },
    {
        if self.shown {
            let image_y: i64 = SCREEN_HEIGHT as i64 - self.image_height as i64;
            Some(
                TextboxLayout {
                    image_x: 0,
                    image_y,
                    text_x: HORIZONTAL_PADDING as i64,
                    text_y: image_y + VERTICAL_PADDING as i64,
                },
            )
        } else {
            None
        }
    }
}

/// A second `update` at the same time does nothing: the box is as the first
/// left it, and whatever the first revealed, it revealed at most two
/// characters.
pub proof fn lemma_tick_idempotent(state: TextboxState, now: u64)
    ensures
        state.ticked(now).tick_event(now) == TextboxUpdate::Nothing,
        state.ticked(now).ticked(now) == state.ticked(now),
        state.revealed <= state.ticked(now).revealed <= state.revealed + 2,
{
}

/// The last space at or before `at` is a space, lies at or before `at`, and
/// no space follows it up to `at`.
pub proof fn lemma_last_space(text: Seq<char>, at: int)
    requires
        0 <= at < text.len(),
    ensures
        -1 <= last_space(text, at) <= at,
        last_space(text, at) >= 0 ==> text[last_space(text, at)] == ' ',
        forall|i: int| last_space(text, at) < i <= at ==> text[i] != ' ',
    decreases at,
{
    if text[at] != ' ' {
        if at > 0 {
            lemma_last_space(text, at - 1);
        } else {
            assert(last_space(text, at - 1) == -1);
        }
    }
}

/// A page never breaks inside a word that has a space before it: the break
/// lies behind the last space up to the reveal, and only a text without such
/// a space breaks at the reveal itself.
pub proof fn lemma_page_break(text: Seq<char>, at: int)
    requires
        0 <= at < text.len(),
    ensures
        0 <= page_break(text, at) <= at + 1,
        page_break(text, at) > 0 && text[page_break(text, at) - 1] != ' ' ==> page_break(text, at)
            == at && forall|i: int| 0 <= i <= at ==> text[i] != ' ',
        forall|i: int| page_break(text, at) <= i <= at ==> text[i] != ' ',
{
    lemma_last_space(text, at);
}

/// `update` and a reported height keep the box well formed: what is shown is
/// a prefix of the full text.
pub proof fn lemma_textbox_wf(state: TextboxState, now: u64, rendered_height: u32, max_height: i64)
    requires
        state.wf(),
    ensures
        state.ticked(now).wf(),
        state.measured(rendered_height, max_height).wf(),
        state.hidden().wf(),
{
    if state.shown && state.revealed > 0 {
        lemma_page_break(state.full_text, state.reveal_point);
    }
}

} // verus!
