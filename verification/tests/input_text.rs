use joshu_core::app::FinishedMessage;
use joshu_core::canvas::input_text::{InputTextConfig, InputTextHandler};
use joshu_core::geometry::{Color, Rect};

fn field() -> InputTextHandler {
    let config = InputTextConfig::default();
    assert!(config.is_valid());
    InputTextHandler::new(&config)
}

fn type_text(f: &mut InputTextHandler, text: &str, width: u16) {
    for c in text.chars() {
        f.handle_text_input(c, width);
    }
}

fn snapshot(f: &InputTextHandler) -> (String, String, Rect) {
    (f.entire_text(), f.displayed_text(), f.background_rect())
}

#[test]
fn default_config_has_the_documented_values() {
    let c = InputTextConfig::default();
    assert_eq!(c.text_min_width, 500);
    assert_eq!(c.text_max_width, 1800);
    assert_eq!(c.text_font_size, 32);
    assert_eq!(c.text_horizontal_padding, 10);
    assert_eq!(c.text_vertical_padding, 15);
    assert_eq!(c.text_default_placeholder, "Enter text...");
    assert_eq!(c.text_placeholder_alpha, 70);
    assert_eq!(c.text_color, Color { r: 0, g: 0, b: 0, a: 255 });
    assert_eq!(c.background_outline_width, 2);
    assert_eq!(c.background_outline_color, Color::black());
    assert_eq!(c.background_color, Color::white());
    assert_eq!(c.x_position, 960);
    assert_eq!(c.y_position, 540);
}

#[test]
fn config_validity() {
    let mut c = InputTextConfig::default();
    assert!(c.is_valid());
    c.text_min_width = 1801;
    assert!(!c.is_valid());
    c.text_min_width = 1800;
    assert!(c.is_valid());
    c.text_horizontal_padding = 901;
    assert!(!c.is_valid());
    c.text_horizontal_padding = 900;
    assert!(c.is_valid());
    c.x_position = i64::MAX;
    assert!(!c.is_valid());
    c.x_position = 0;
    c.y_position = i64::MIN;
    assert!(!c.is_valid());
}

#[test]
fn new_field_is_empty_and_narrow() {
    let f = field();
    assert_eq!(f.entire_text(), "");
    assert_eq!(f.displayed_text(), "");
    assert_eq!(f.field_width(), 500);
    assert!(f.shows_placeholder());
    assert_eq!(f.background_rect(), Rect { x: 710, y: 509, w: 500, h: 62 });
}

#[test]
fn initial_background_rect_is_centred() {
    let c = InputTextConfig::default();
    assert_eq!(
        InputTextHandler::get_initial_background_rect(&c),
        Rect { x: 710, y: 509, w: 500, h: 62 }
    );
    let mut odd = c;
    odd.text_min_width = 501;
    odd.text_font_size = 33;
    odd.x_position = -3;
    odd.y_position = 7;
    assert_eq!(
        InputTextHandler::get_initial_background_rect(&odd),
        Rect { x: -253, y: -24, w: 501, h: 63 }
    );
}

#[test]
fn outline_rect_is_larger_by_the_outline_on_every_side() {
    let f = field();
    assert_eq!(f.get_outline_rect(), Rect { x: 708, y: 507, w: 504, h: 66 });
}

#[test]
fn short_text_leaves_the_field_at_its_minimum() {
    let mut f = field();
    type_text(&mut f, "abc", 20);
    assert_eq!(f.entire_text(), "abc");
    assert_eq!(f.displayed_text(), "abc");
    assert_eq!(f.field_width(), 500);
    assert!(!f.shows_placeholder());
    // 24 glyphs and the padding are exactly the minimum
    let mut g = field();
    type_text(&mut g, &"x".repeat(24), 20);
    assert_eq!(g.field_width(), 500);
}

#[test]
fn field_grows_to_fit_text_and_padding() {
    let mut f = field();
    type_text(&mut f, &"x".repeat(25), 20);
    assert_eq!(f.field_width(), 520);
    assert_eq!(f.background_rect(), Rect { x: 700, y: 509, w: 520, h: 62 });
    type_text(&mut f, "y", 7);
    assert_eq!(f.field_width(), 527);
    assert_eq!(f.background_rect().x, 960 - 263);
}

#[test]
fn field_reaches_its_maximum_exactly() {
    let mut f = field();
    type_text(&mut f, &"x".repeat(89), 20);
    assert_eq!(f.field_width(), 1800);
    assert_eq!(f.displayed_text(), "x".repeat(89));
    assert_eq!(f.background_rect(), Rect { x: 60, y: 509, w: 1800, h: 62 });
}

#[test]
fn overflow_slides_the_window_and_keeps_the_full_text() {
    let mut f = field();
    let text: String = ('a'..='z').cycle().take(89).collect();
    type_text(&mut f, &text, 20);
    f.handle_text_input('!', 20);
    assert_eq!(f.entire_text(), format!("{text}!"));
    assert_eq!(f.displayed_text(), format!("{}!", &text[1..]));
    assert_eq!(f.field_width(), 1800);
    f.handle_text_input('?', 20);
    assert_eq!(f.displayed_text(), format!("{}!?", &text[2..]));
    assert_eq!(f.entire_text().chars().count(), 91);
}

#[test]
fn overflow_drops_as_many_characters_as_it_takes() {
    let mut f = field();
    type_text(&mut f, &"i".repeat(89), 20);
    f.handle_text_input('W', 45);
    // three narrow glyphs make room for the wide one
    assert_eq!(f.displayed_text(), format!("{}W", "i".repeat(86)));
    assert_eq!(f.field_width(), 1800);
}

#[test]
fn window_always_shows_the_newest_character() {
    let mut f = field();
    type_text(&mut f, "abc", 20);
    f.handle_text_input('W', 5000);
    assert_eq!(f.entire_text(), "abcW");
    assert_eq!(f.displayed_text(), "W");
    assert_eq!(f.field_width(), 1800);
    let mut g = field();
    g.handle_text_input('W', 5000);
    assert_eq!(g.displayed_text(), "W");
    assert_eq!(g.field_width(), 1800);
}

#[test]
fn characters_that_are_not_accepted_change_nothing() {
    let mut f = field();
    type_text(&mut f, "ab", 20);
    let before = snapshot(&f);
    for c in ['\n', '\t', '\u{8}', '\u{1b}', '\u{7f}'] {
        f.handle_text_input(c, 20);
        assert_eq!(snapshot(&f), before);
    }
}

#[test]
fn letters_of_any_script_are_accepted() {
    let mut f = field();
    type_text(&mut f, "\u{e9}\u{3a3}\u{4e2d} 9!", 20);
    assert_eq!(f.entire_text(), "\u{e9}\u{3a3}\u{4e2d} 9!");
}

#[test]
fn backspace_on_an_empty_field_does_nothing() {
    let mut f = field();
    let before = snapshot(&f);
    f.handle_backspace();
    assert_eq!(snapshot(&f), before);
}

#[test]
fn backspace_removes_the_last_character_and_shrinks_the_field() {
    let mut f = field();
    type_text(&mut f, &"x".repeat(26), 20);
    assert_eq!(f.field_width(), 540);
    f.handle_backspace();
    assert_eq!(f.entire_text(), "x".repeat(25));
    assert_eq!(f.field_width(), 520);
    f.handle_backspace();
    assert_eq!(f.field_width(), 500);
    f.handle_backspace();
    assert_eq!(f.field_width(), 500);
    assert_eq!(f.entire_text(), "x".repeat(23));
}

#[test]
fn backspace_extends_a_truncated_window_at_its_front() {
    let mut f = field();
    let text: String = ('a'..='z').cycle().take(92).collect();
    type_text(&mut f, &text, 20);
    assert_eq!(f.displayed_text(), &text[3..]);
    f.handle_backspace();
    assert_eq!(f.entire_text(), &text[..91]);
    assert_eq!(f.displayed_text(), &text[2..91]);
    assert_eq!(f.field_width(), 1800);
    f.handle_backspace();
    f.handle_backspace();
    assert_eq!(f.displayed_text(), &text[..89]);
    assert_eq!(f.field_width(), 1800);
    f.handle_backspace();
    assert_eq!(f.displayed_text(), &text[..88]);
    assert_eq!(f.field_width(), 1780);
}

#[test]
fn typing_then_backspacing_restores_each_earlier_state() {
    let mut f = field();
    let text: String = ('a'..='z').cycle().take(120).collect();
    let mut history = vec![snapshot(&f)];
    for c in text.chars() {
        f.handle_text_input(c, 20);
        history.push(snapshot(&f));
    }
    for n in (0..120).rev() {
        f.handle_backspace();
        assert_eq!(snapshot(&f), history[n], "after backspace to {n} characters");
    }
}

#[test]
fn backspace_does_not_restore_after_a_slide_by_more_than_one() {
    let mut f = field();
    type_text(&mut f, &"i".repeat(89), 20);
    let before = snapshot(&f);
    f.handle_text_input('W', 45);
    f.handle_backspace();
    assert_eq!(f.entire_text(), before.0);
    assert_eq!(f.displayed_text(), "i".repeat(87));
    assert_ne!(snapshot(&f), before);
}

#[test]
fn field_width_stays_within_bounds_and_window_is_a_suffix() {
    let mut f = field();
    let widths = [3u16, 700, 20, 0, 65535, 41, 9, 1200, 15, 300];
    let mut step = 0usize;
    for round in 0..400 {
        if round % 7 == 3 || round % 11 == 5 {
            f.handle_backspace();
        } else {
            let c = (b'a' + (round % 26) as u8) as char;
            f.handle_text_input(c, widths[step % widths.len()]);
            step += 1;
        }
        let w = f.field_width();
        assert!((500..=1800).contains(&w));
        assert!(f.entire_text().ends_with(&f.displayed_text()));
        assert_eq!(f.background_rect().x, 960 - (w / 2) as i64);
        assert_eq!(f.shows_placeholder(), f.entire_text().is_empty());
    }
}

#[test]
fn setup_clears_the_field() {
    let mut f = field();
    type_text(&mut f, &"x".repeat(100), 20);
    f.setup();
    assert_eq!(snapshot(&f), (String::new(), String::new(), Rect { x: 710, y: 509, w: 500, h: 62 }));
    assert!(f.shows_placeholder());
}

#[test]
fn enter_submits_the_whole_text() {
    let mut f = field();
    assert_eq!(f.handle_enter(), FinishedMessage::UserInput(String::new()));
    let text: String = ('a'..='z').cycle().take(95).collect();
    type_text(&mut f, &text, 20);
    assert_eq!(f.handle_enter(), FinishedMessage::UserInput(text));
}

#[test]
fn arrow_keys_do_nothing_in_a_field() {
    let mut f = field();
    type_text(&mut f, "abc", 20);
    let before = snapshot(&f);
    f.handle_arrow_key();
    assert_eq!(snapshot(&f), before);
}

#[test]
fn drawing_places_text_behind_the_padding() {
    let mut f = field();
    let d = f.draw();
    assert!(d.placeholder);
    assert_eq!(d.background_rect, Rect { x: 710, y: 509, w: 500, h: 62 });
    assert_eq!(d.outline_rect, Rect { x: 708, y: 507, w: 504, h: 66 });
    assert_eq!((d.text_x, d.text_y), (720, 509 + 31 - 16));
    type_text(&mut f, &"x".repeat(25), 20);
    let d = f.draw();
    assert!(!d.placeholder);
    assert_eq!((d.text_x, d.text_y), (710, 524));
}

#[test]
fn config_is_kept() {
    let mut c = InputTextConfig::default();
    c.text_max_width = 600;
    c.x_position = 100;
    let mut f = InputTextHandler::new(&c);
    assert_eq!(f.config().text_max_width, 600);
    type_text(&mut f, &"x".repeat(40), 20);
    assert_eq!(f.field_width(), 600);
    assert_eq!(f.displayed_text(), "x".repeat(29));
    assert_eq!(f.background_rect().x, -200);
}
