use app_utility::action::Action;
use app_utility::controller::{clipboard_image, AppError, AppState, Effect, Selection};
use app_utility::naming::{build_default_name, name_from_timestamp, numbered_name};
use app_utility::screenshots::Screenshots;
use app_utility::stroke::{Color, Style};
use app_utility::timer::{Tick, Timer};

fn style() -> Style {
    Style { width: 100, color: Color { r: 0, g: 0, b: 0, a: 255 } }
}

fn png_bytes() -> Vec<u8> {
    let img = image::RgbaImage::from_raw(2, 1, vec![1, 2, 3, 4, 5, 6, 7, 8]).unwrap();
    let mut out = std::io::Cursor::new(Vec::new());
    img.write_to(&mut out, image::ImageOutputFormat::Png).unwrap();
    out.into_inner()
}

#[test]
fn timestamp_becomes_file_name() {
    let name = name_from_timestamp("2023-05-10 12:34:56.123456789 +02:00");
    assert_eq!(name, "Screenshot_20230510-12_34_56");
    assert_eq!(name_from_timestamp("1:2"), "Screenshot_1_2");
    assert!(build_default_name().starts_with("Screenshot_"));
    assert!(build_default_name().chars().count() <= 28);
}

#[test]
fn numbered_names() {
    assert_eq!(numbered_name("shot", 3), "shot_3");
    assert_eq!(numbered_name("a", 120), "a_120");
}

#[test]
fn save_numbers_chosen_names() {
    let mut app = AppState::new(vec![7], style());
    app.buffer = Some(vec![0]);
    app.default_name_selected = false;
    app.default_name = "shot".to_string();
    match app.make_action(Action::Save) {
        Effect::SaveAs(name) => assert_eq!(name, "shot"),
        _ => panic!("expected a save"),
    }
    assert_eq!(app.default_number, 0);
    app.save_finished(true);
    match app.make_action(Action::Save) {
        Effect::SaveAs(name) => assert_eq!(name, "shot_1"),
        _ => panic!("expected a save"),
    }
    app.save_finished(false);
    assert_eq!(app.default_number, 1);
    match app.make_action(Action::Save) {
        Effect::SaveAs(name) => assert_eq!(name, "shot_1"),
        _ => panic!("expected a save"),
    }
    app.save_finished(true);
    assert_eq!(app.default_number, 2);
}

#[test]
fn save_and_copy_need_an_image() {
    let mut app = AppState::new(vec![7], style());
    assert!(matches!(app.make_action(Action::Save), Effect::Failed(AppError::NoImage)));
    assert!(matches!(app.make_action(Action::Copy), Effect::Failed(AppError::NoImage)));
}

#[test]
fn copy_decodes_the_capture() {
    let mut app = AppState::new(vec![7], style());
    app.capture_done(png_bytes());
    assert!(app.view_image);
    match app.make_action(Action::Copy) {
        Effect::CopyImage(img) => {
            assert_eq!((img.width, img.height), (2, 1));
            assert_eq!(img.pixels, vec![1, 2, 3, 4, 5, 6, 7, 8]);
        }
        _ => panic!("expected pixels"),
    }
}

#[test]
fn undecodable_capture_reports_error() {
    assert!(matches!(clipboard_image(&vec![1, 2, 3]), Err(AppError::Decode)));
    let img = clipboard_image(&png_bytes()).ok().unwrap();
    assert_eq!(img.pixels.len(), 8);
}

#[test]
fn start_timer_without_delay_captures() {
    let mut app = AppState::new(vec![7], style());
    assert!(matches!(app.make_action(Action::StartTimer), Effect::HideForCapture));
    assert!(app.hide);
    assert!(!app.timer.is_running());
}

#[test]
fn start_timer_with_delay_runs() {
    let mut app = AppState::new(vec![7], style());
    app.make_action(Action::SetTimer);
    assert!(app.timer.form_opened());
    app.timer.set_delay(3);
    assert!(matches!(app.make_action(Action::StartTimer), Effect::Nothing));
    assert!(app.timer.is_running());
    assert!(!app.timer.form_opened());
    assert!(matches!(app.make_action(Action::ManageTimer), Effect::Repaint));
    app.make_action(Action::ResetTimer);
    assert!(!app.timer.is_running());
    assert_eq!(app.timer.delay(), 0);
}

#[test]
fn area_selection_and_home() {
    let mut app = AppState::new(vec![7, 9], style());
    app.make_action(Action::SelectArea);
    assert!(app.selecting_area);
    assert_eq!(app.selection_mode, Selection::Area);
    app.make_action(Action::SelectFullscreen);
    assert!(!app.selecting_area);
    assert_eq!(app.selection_mode, Selection::Fullscreen);
    app.screenshots.set_screen_number(9);
    app.make_action(Action::SelectArea);
    assert!(!app.selecting_area);
    app.make_action(Action::Settings);
    assert!(app.show_settings);
    app.make_action(Action::HomePage);
    assert!(!app.show_settings);
    assert!(matches!(app.make_action(Action::Close), Effect::CloseWindow));
}

#[test]
fn new_screenshot_discards_edits() {
    let mut app = AppState::new(vec![7], style());
    app.capture_done(png_bytes());
    app.make_action(Action::Modify);
    assert!(app.editor.in_session());
    app.editor.commit_text(app_utility::stroke::Point { x: 1, y: 1 }, "t".to_string(), style());
    assert_eq!(app.editor.visible_shapes().len(), 1);
    app.make_action(Action::NewScreenshot);
    assert!(!app.view_image);
    assert!(!app.editor.in_session());
    assert_eq!(app.editor.visible_shapes().len(), 0);
    assert_eq!(app.editor.undo_log().len(), 0);
}

#[test]
fn timer_counts_down_then_expires() {
    let mut t = Timer::new();
    t.set_delay(2);
    t.start_timer();
    let at = std::time::Instant::now();
    assert_eq!(t.advance(0, at), Tick::Waiting);
    assert_eq!(t.delay(), 2);
    assert_eq!(t.advance(1, at), Tick::Counted);
    assert_eq!(t.delay(), 1);
    assert_eq!(t.advance(1, at), Tick::Expired);
    assert_eq!(t.delay(), 0);
    assert!(!t.is_running());
    assert_eq!(t.start_instant, Some(at));
}

#[test]
fn timer_start_records_the_instant() {
    let mut t = Timer::new();
    t.set_delay(4);
    t.open_form();
    let at = std::time::Instant::now();
    t.start_at(at);
    assert!(t.is_running());
    assert!(!t.form_opened());
    assert_eq!(t.delay(), 4);
    assert_eq!(t.start_instant, Some(at));
}

#[test]
fn timer_without_instant_waits() {
    let mut t = Timer::new();
    t.set_delay(1);
    assert_eq!(t.manage(), Tick::Waiting);
    assert_eq!(t.delay(), 1);
    assert!(t.start_instant.is_some());
}

#[test]
fn timer_form_and_decrement() {
    let mut t = Timer::new();
    assert!(!t.form_opened());
    t.open_form();
    assert!(t.form_opened());
    t.close_form();
    assert!(!t.form_opened());
    t.seconds = 5;
    t.decrement_timer();
    assert_eq!(t.seconds, 4);
    t.reset_timer();
    assert_eq!(t.seconds, 0);
}

#[test]
fn screens_selection() {
    let mut s = Screenshots::new(vec![10, 20, 30]);
    assert_eq!(s.total_screens(), 3);
    assert_eq!(s.get_screen(), 10);
    assert!(s.is_default());
    s.set_screen_number(30);
    assert_eq!(s.get_screen(), 30);
    assert_eq!(s.screen_number, 2);
    assert!(!s.default);
    assert_eq!(s.get_default_screen(), 10);
    s.set_screen_number(99);
    assert_eq!(s.get_screen(), 30);
}

#[test]
fn choosing_another_screen_leaves_area_selection() {
    let mut app = AppState::new(vec![7, 9], style());
    app.make_action(Action::SelectArea);
    assert!(app.selecting_area);
    app.choose_screen(1);
    assert_eq!(app.screenshots.get_screen(), 9);
    assert!(!app.screenshots.is_default());
    assert!(!app.selecting_area);
    assert_eq!(app.selection_mode, Selection::Fullscreen);
    app.choose_screen(0);
    assert!(app.screenshots.is_default());
    app.choose_screen(5);
    assert_eq!(app.screenshots.get_screen(), 7);
}
