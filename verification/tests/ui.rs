use joshu_core::geometry::{Color, Rect};
use joshu_core::ui::input_text::{
    InputText, TEXT_DEFAULT_PLACEHOLDER, TEXT_FONT_SIZE, TEXT_HORIZONTAL_PADDING, TEXT_MAX_WIDTH,
    TEXT_MIN_WIDTH, TEXT_VERTICAL_PADDING,
};
use joshu_core::ui::util::{
    rect_mesh_set_h, rect_mesh_set_rect, rect_mesh_set_w, rect_mesh_set_x, rect_mesh_set_y,
};
use joshu_core::ui::{Ui, UiWidgetSetupData, UiWidgetType};
use joshu_core::{SCREEN_HEIGHT, SCREEN_WIDTH};

#[test]
fn screen_size() {
    assert_eq!((SCREEN_WIDTH, SCREEN_HEIGHT), (1920, 1080));
}

#[test]
fn fixed_sizes_of_the_text_field() {
    assert_eq!(TEXT_MIN_WIDTH, 500);
    assert_eq!(TEXT_MAX_WIDTH, 1800);
    assert_eq!(TEXT_FONT_SIZE, 32);
    assert_eq!(TEXT_HORIZONTAL_PADDING, 10);
    assert_eq!(TEXT_VERTICAL_PADDING, 15);
    assert_eq!(TEXT_DEFAULT_PLACEHOLDER, "Enter text...");
}

#[test]
fn colours() {
    assert_eq!(Color::black(), Color { r: 0, g: 0, b: 0, a: 255 });
    assert_eq!(Color::white(), Color { r: 255, g: 255, b: 255, a: 255 });
    assert_eq!(Color::black().with_alpha(180), Color { r: 0, g: 0, b: 0, a: 180 });
}

#[test]
fn rect_setters_change_one_part() {
    let mut r = Rect::new(1, 2, 3, 4);
    rect_mesh_set_x(&mut r, 10);
    assert_eq!(r, Rect { x: 10, y: 2, w: 3, h: 4 });
    rect_mesh_set_y(&mut r, -20);
    assert_eq!(r, Rect { x: 10, y: -20, w: 3, h: 4 });
    rect_mesh_set_w(&mut r, 30);
    assert_eq!(r, Rect { x: 10, y: -20, w: 30, h: 4 });
    rect_mesh_set_h(&mut r, 40);
    assert_eq!(r, Rect { x: 10, y: -20, w: 30, h: 40 });
    rect_mesh_set_rect(&mut r, Rect { x: 5, y: 6, w: 7, h: 8 });
    assert_eq!(r, Rect { x: 5, y: 6, w: 7, h: 8 });
}

#[test]
fn fixed_text_field_behaves_like_the_default_one() {
    let mut t = InputText::new();
    assert_eq!(t.background_rect(), Rect { x: 710, y: 509, w: 500, h: 62 });
    for _ in 0..90 {
        t.handle_text_input('x', 20);
    }
    t.handle_text_input('\n', 20);
    assert_eq!(t.entire_text(), "x".repeat(90));
    assert_eq!(t.displayed_text(), "x".repeat(89));
    assert_eq!(t.background_rect().w, 1800);
    t.handle_backspace();
    t.handle_backspace();
    assert_eq!(t.displayed_text(), "x".repeat(88));
    assert_eq!(t.background_rect(), Rect { x: 70, y: 509, w: 1780, h: 62 });
    t.setup();
    assert_eq!(t.entire_text(), "");
    assert_eq!(t.background_rect().w, 500);
}

#[test]
fn holder_starts_without_a_widget() {
    let mut ui = Ui::new();
    assert_eq!(ui.current_widget(), None);
    ui.handle_text_input('a', 20);
    ui.handle_backspace();
    assert_eq!(ui.input_text().entire_text(), "");
}

#[test]
fn holder_passes_keys_to_the_text_field() {
    let mut ui = Ui::new();
    ui.set_type(Some(UiWidgetSetupData::InputText));
    assert_eq!(ui.current_widget(), Some(UiWidgetType::InputText));
    ui.handle_text_input('a', 20);
    ui.handle_text_input('b', 20);
    ui.handle_backspace();
    assert_eq!(ui.input_text().entire_text(), "a");
}

#[test]
fn asking_for_the_text_field_again_clears_it() {
    let mut ui = Ui::new();
    ui.set_type(Some(UiWidgetSetupData::InputText));
    ui.handle_text_input('a', 20);
    ui.set_type(Some(UiWidgetSetupData::InputText));
    assert_eq!(ui.input_text().entire_text(), "");
}

#[test]
fn asking_for_a_list_changes_nothing() {
    let mut ui = Ui::new();
    ui.set_type(Some(UiWidgetSetupData::Select(vec!["a".into()])));
    assert_eq!(ui.current_widget(), None);
    ui.set_type(Some(UiWidgetSetupData::InputText));
    ui.handle_text_input('a', 20);
    ui.set_type(Some(UiWidgetSetupData::Select(vec!["a".into()])));
    assert_eq!(ui.current_widget(), Some(UiWidgetType::InputText));
    assert_eq!(ui.input_text().entire_text(), "a");
}

#[test]
fn asking_for_no_widget_keeps_the_text_but_takes_no_keys() {
    let mut ui = Ui::new();
    ui.set_type(Some(UiWidgetSetupData::InputText));
    ui.handle_text_input('a', 20);
    ui.set_type(None);
    assert_eq!(ui.current_widget(), None);
    ui.handle_text_input('b', 20);
    ui.handle_backspace();
    assert_eq!(ui.input_text().entire_text(), "a");
}

#[test]
fn holder_draws_the_text_field_only_while_it_is_active() {
    let mut ui = Ui::new();
    assert_eq!(ui.draw(), None);
    ui.set_type(Some(UiWidgetSetupData::Select(vec!["a".into()])));
    assert_eq!(ui.draw(), None);
    ui.set_type(Some(UiWidgetSetupData::InputText));
    let d = ui.draw().unwrap();
    assert!(d.placeholder);
    assert_eq!(d.background_rect, Rect { x: 710, y: 509, w: 500, h: 62 });
    assert_eq!(d.outline_rect, Rect { x: 708, y: 507, w: 504, h: 66 });
    assert_eq!((d.text_x, d.text_y), (720, 524));
    for _ in 0..25 {
        ui.handle_text_input('x', 20);
    }
    let d = ui.draw().unwrap();
    assert!(!d.placeholder);
    assert_eq!(d, ui.input_text().draw());
    assert_eq!(d.background_rect, Rect { x: 700, y: 509, w: 520, h: 62 });
    ui.set_type(None);
    assert_eq!(ui.draw(), None);
}
