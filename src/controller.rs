use vstd::prelude::*;

use crate::action::Action;
use crate::editor::{empty_editor, Editor, EditorView};
use crate::naming::{build_default_name, decimal, numbered_name, stamped_name};
use crate::screenshots::{ScreensView, Screenshots};
use crate::stroke::{Style, ToolKind};
use crate::timer::{Tick, Timer, TimerView};

verus! {

#[verifier::external_type_specification]
#[verifier::external_body]
pub struct ExImageError(image::ImageError);

/// A decoded image: 8-bit RGBA rows, four bytes per pixel.
pub struct RgbaImage {
    pub width: u32,
    pub height: u32,
    pub pixels: Vec<u8>,
}

/// What decoding `data` as an image gives: width, height and RGBA bytes, or
/// nothing where the bytes are no image of a known format.
pub uninterp spec fn decoded_rgba(data: Seq<u8>) -> Option<(u32, u32, Seq<u8>)>;

/// Relies on image::load_from_memory, DynamicImage::to_rgba8 and
/// ImageBuffer::into_raw: the result depends on the bytes alone, and the
/// converted buffer holds exactly four bytes for each pixel.
#[verifier::external_body]
fn decode_rgba(data: &[u8]) -> (r: Result<RgbaImage, image::ImageError>)
    ensures
        match r {
            Ok(img) => {
                &&& decoded_rgba(data@) == Some((img.width, img.height, img.pixels@))
                &&& img.pixels@.len() == 4 * (img.width as int) * (img.height as int)
            },
            Err(_) => decoded_rgba(data@) is None,
        },
{
    match image::load_from_memory(data) {
        Ok(decoded) => {
            let rgba = decoded.to_rgba8();
            Ok(RgbaImage { width: rgba.width(), height: rgba.height(), pixels: rgba.into_raw() })
        },
        Err(e) => Err(e),
    }
}

/// Why an action could not be carried out.
#[derive(Clone, Copy, Debug, PartialEq, Eq, Structural)]
pub enum AppError {
    /// No image has been captured yet.
    NoImage,
    /// The captured bytes could not be decoded.
    Decode,
}

/// The pixels to put on the clipboard for the encoded image `png`.
pub fn clipboard_image(png: &Vec<u8>) -> (r: Result<RgbaImage, AppError>)
    ensures
        match r {
            Ok(img) => decoded_rgba(png@) == Some((img.width, img.height, img.pixels@)),
            Err(e) => e == AppError::Decode && decoded_rgba(png@) is None,
        },
{
    match decode_rgba(png.as_slice()) {
        Ok(img) => Ok(img),
        Err(_) => Err(AppError::Decode),
    }
}

/// How the next capture is framed.
#[derive(Clone, Copy, Debug, PartialEq, Eq, Structural)]
pub enum Selection {
    Fullscreen,
    Area,
}

/// What the host must do after an action.
pub enum Effect {
    Nothing,
    /// Hide the window and redraw, so that the capture runs once it is hidden.
    HideForCapture,
    CloseWindow,
    /// Redraw soon, so that the countdown goes on.
    Repaint,
    /// Put these pixels on the clipboard.
    CopyImage(RgbaImage),
    /// Ask where to save the captured image, proposing this file name.
    SaveAs(String),
    Failed(AppError),
}

/// Whether `r` is what copying the encoded image `b` gives.
pub open spec fn copy_outcome(r: Effect, b: Seq<u8>) -> bool {
    match r {
        Effect::CopyImage(img) => decoded_rgba(b) == Some((img.width, img.height, img.pixels@)),
        Effect::Failed(e) => e == AppError::Decode && decoded_rgba(b) is None,
        _ => false,
    }
}

/// The application state that actions change.
pub struct AppState {
    pub buffer: Option<Vec<u8>>,
    pub default_name: String,
    pub default_name_selected: bool,
    pub default_number: usize,
    pub hide: bool,
    pub editor: Editor,
    pub screenshots: Screenshots,
    pub selecting_area: bool,
    pub selection_mode: Selection,
    pub show_settings: bool,
    pub timer: Timer,
    pub view_image: bool,
}

/// The model of an `AppState`.
#[verifier::ext_equal]
pub struct AppView {
    pub buffer: Option<Seq<u8>>,
    pub default_name: Seq<char>,
    pub default_name_selected: bool,
    pub default_number: usize,
    pub hide: bool,
    pub editor: EditorView,
    pub screens: ScreensView,
    pub selecting_area: bool,
    pub selection_mode: Selection,
    pub show_settings: bool,
    pub timer: TimerView,
    pub view_image: bool,
}

impl View for AppState {
    type V = AppView;

    open spec fn view(&self) -> AppView {
        AppView {
            buffer: match self.buffer {
                Some(b) => Some(b@),
                None => None,
            },
            default_name: self.default_name@,
            default_name_selected: self.default_name_selected,
            default_number: self.default_number,
            hide: self.hide,
            editor: self.editor@,
            screens: self.screenshots@,
            selecting_area: self.selecting_area,
            selection_mode: self.selection_mode,
            show_settings: self.show_settings,
            timer: self.timer@,
            view_image: self.view_image,
        }
    }
}

/// The chosen file name numbered `n`, from the second save on.
pub open spec fn chosen_name(base: Seq<char>, n: nat) -> Seq<char> {
    if n != 0 {
        base + "_"@ + decimal(n)
    } else {
        base
    }
}

/// The save counter after a save under a chosen name.
pub open spec fn next_number(n: usize) -> usize {
    if n < usize::MAX {
        (n + 1) as usize
    } else {
        n
    }
}

/// The timer once a capture was asked for.
pub open spec fn timer_reset(t: TimerView) -> TimerView {
    TimerView { seconds: 0, form_open: false, running: false, ..t }
}

/// The state once a capture was asked for.
pub open spec fn capturing(v: AppView) -> AppView {
    AppView { hide: true, timer: timer_reset(v.timer), ..v }
}

/// The outcome of one countdown poll: the timer moved on by at most a second,
/// and its end asked for a capture.
pub open spec fn timer_polled(v: AppView, w: AppView, r: Effect) -> bool {
    &&& w == AppView { timer: w.timer, hide: w.hide, ..v }
    &&& w.timer.start is Some
    &&& (r is HideForCapture || r is Repaint)
    &&& r is HideForCapture ==> v.timer.seconds <= 1 && w.hide && w.timer.seconds == 0
        && !w.timer.running && !w.timer.form_open
    &&& r is Repaint ==> w.hide == v.hide && w.timer.form_open == v.timer.form_open
        && w.timer.running == v.timer.running && (w.timer.seconds == v.timer.seconds || (
    v.timer.seconds > 1 && w.timer.seconds == v.timer.seconds - 1))
}

/// What each action does to the state and asks of the host.
pub open spec fn action_done(v: AppView, a: Action, w: AppView, r: Effect) -> bool {
    match a {
        Action::Capture => r is HideForCapture && w == capturing(v),
        Action::Close => r is CloseWindow && w == v,
        Action::Copy => w == v && match v.buffer {
            None => r == Effect::Failed(AppError::NoImage),
            Some(b) => copy_outcome(r, b),
        },
        Action::HomePage => r is Nothing && w == AppView {
            selecting_area: false,
            view_image: false,
            show_settings: false,
            ..v
        },
        Action::ManageTimer => timer_polled(v, w, r),
        Action::Modify => r is Nothing && w == AppView {
            editor: EditorView { session: true, ..v.editor },
            ..v
        },
        Action::NewScreenshot => r is Nothing && w == AppView {
            hide: false,
            view_image: false,
            selection_mode: Selection::Fullscreen,
            selecting_area: false,
            show_settings: false,
            editor: EditorView { session: false, ..v.editor.cleared() },
            ..v
        },
        Action::ResetTimer => r is Nothing && w == AppView { timer: timer_reset(v.timer), ..v },
        Action::Save => match v.buffer {
            None => r == Effect::Failed(AppError::NoImage) && w == v,
            Some(_) => match r {
                Effect::SaveAs(name) => w == v && if v.default_name_selected {
                    exists|stamp: Seq<char>| name@ == stamped_name(stamp)
                } else {
                    name@ == chosen_name(v.default_name, v.default_number as nat)
                },
                _ => false,
            },
        },
        Action::SelectArea => r is Nothing && w == if v.screens.default {
            AppView { selection_mode: Selection::Area, selecting_area: true, ..v }
        } else {
            v
        },
        Action::SelectFullscreen => r is Nothing && w == AppView {
            selection_mode: Selection::Fullscreen,
            selecting_area: false,
            ..v
        },
        Action::Settings => r is Nothing && w == AppView { show_settings: true, ..v },
        Action::SetTimer => r is Nothing && w == AppView {
            timer: TimerView { form_open: true, ..v.timer },
            ..v
        },
        Action::StartTimer => if v.timer.seconds > 0 {
            &&& r is Nothing
            &&& w == AppView { timer: w.timer, ..v }
            &&& w.timer.seconds == v.timer.seconds
            &&& !w.timer.form_open
            &&& w.timer.running
            &&& w.timer.start is Some
        } else {
            r is HideForCapture && w == capturing(v)
        },
        Action::Undo => r is Nothing && w == AppView { editor: v.editor.undo(), ..v },
    }
}

impl AppState {
    pub open spec fn wf(&self) -> bool {
        self.editor.wf()
    }

    /// The state at start: home page, nothing captured, the first display
    /// selected, the timestamped file name proposed.
    pub fn new(displays: Vec<u32>, style: Style) -> (r: AppState)
        ensures
            r.wf(),
            r@.buffer is None,
            r@.default_name_selected,
            r@.default_number == 0,
            !r@.hide && !r@.view_image && !r@.selecting_area && !r@.show_settings,
            r@.selection_mode == Selection::Fullscreen,
            r@.editor == empty_editor(style),
            r@.screens.displays == displays@,
            r@.screens.screen_number == 0,
            r@.screens.default,
            r@.timer == (TimerView { seconds: 0, form_open: false, running: false, start: None }),
    {
        AppState {
            buffer: None,
            default_name: build_default_name(),
            default_name_selected: true,
            default_number: 0,
            hide: false,
            editor: Editor::new(style),
            screenshots: Screenshots::new(displays),
            selecting_area: false,
            selection_mode: Selection::Fullscreen,
            show_settings: false,
            timer: Timer::new(),
            view_image: false,
        }
    }

    fn capture(&mut self) -> (r: Effect)
        ensures
            r is HideForCapture,
            final(self)@ == capturing(old(self)@),
            final(self).wf() == old(self).wf(),
    {
        self.hide = true;
        self.timer.reset_timer();
        assert(self@ =~= capturing(old(self)@));
        Effect::HideForCapture
    }

    /// Carries out an action and says what the host must do.
    pub fn make_action(&mut self, action: Action) -> (r: Effect)
        requires
            old(self).wf(),
        ensures
            final(self).wf(),
            action_done(old(self)@, action, final(self)@, r),
    {
        let ghost v = self@;
        match action {
            Action::Capture => self.capture(),
            Action::Close => Effect::CloseWindow,
            Action::Copy => match &self.buffer {
                None => Effect::Failed(AppError::NoImage),
                Some(b) => match clipboard_image(b) {
                    Ok(img) => Effect::CopyImage(img),
                    Err(e) => Effect::Failed(e),
                },
            },
            Action::HomePage => {
                self.selecting_area = false;
                self.view_image = false;
                self.show_settings = false;
                assert(self@ =~= AppView {
                    selecting_area: false,
                    view_image: false,
                    show_settings: false,
                    ..v
                });
                Effect::Nothing
            },
            Action::ManageTimer => {
                let tick = self.timer.manage();
                if tick == Tick::Expired {
                    self.hide = true;
                    Effect::HideForCapture
                } else {
                    Effect::Repaint
                }
            },
            Action::Modify => {
                self.editor.set_session(true);
                Effect::Nothing
            },
            Action::NewScreenshot => {
                self.hide = false;
                self.view_image = false;
                self.selection_mode = Selection::Fullscreen;
                self.selecting_area = false;
                self.show_settings = false;
                self.editor.clear_all();
                self.editor.set_session(false);
                Effect::Nothing
            },
            Action::ResetTimer => {
                self.timer.reset_timer();
                Effect::Nothing
            },
            Action::Save => {
                if self.buffer.is_none() {
                    return Effect::Failed(AppError::NoImage);
                }
                if self.default_name_selected {
                    return Effect::SaveAs(build_default_name());
                }
                let name = if self.default_number != 0 {
                    numbered_name(self.default_name.as_str(), self.default_number)
                } else {
                    self.default_name.clone()
                };
                Effect::SaveAs(name)
            },
            Action::SelectArea => {
                if self.screenshots.is_default() {
                    self.selection_mode = Selection::Area;
                    self.selecting_area = true;
                }
                Effect::Nothing
            },
            Action::SelectFullscreen => {
                self.selection_mode = Selection::Fullscreen;
                self.selecting_area = false;
                Effect::Nothing
            },
            Action::Settings => {
                self.show_settings = true;
                Effect::Nothing
            },
            Action::SetTimer => {
                self.timer.open_form();
                Effect::Nothing
            },
            Action::StartTimer => {
                if self.timer.delay() > 0 {
                    self.timer.start_timer();
                    Effect::Nothing
                } else {
                    self.capture()
                }
            },
            Action::Undo => {
                self.editor.undo_last();
                Effect::Nothing
            },
        }
    }

    /// Records how a save proposed by `make_action` ended: a successful save
    /// under the chosen name advances its number; anything else changes nothing.
    pub fn save_finished(&mut self, saved: bool)
        ensures
            final(self).wf() == old(self).wf(),
            saved && !old(self)@.default_name_selected ==> final(self)@ == (AppView {
                default_number: next_number(old(self)@.default_number),
                ..old(self)@
            }),
            !saved || old(self)@.default_name_selected ==> final(self)@ == old(self)@,
    {
        if saved && !self.default_name_selected && self.default_number < usize::MAX {
            self.default_number += 1;
        }
    }

    /// Takes in a finished capture: the encoded image is shown, with no marks.
    pub fn capture_done(&mut self, png: Vec<u8>)
        requires
            old(self).wf(),
        ensures
            final(self).wf(),
            final(self)@ == (AppView {
                buffer: Some(png@),
                hide: false,
                view_image: true,
                selecting_area: false,
                show_settings: false,
                editor: EditorView { session: false, ..old(self)@.editor.cleared() },
                ..old(self)@
            }),
    {
        self.buffer = Some(png);
        self.hide = false;
        self.view_image = true;
        self.selecting_area = false;
        self.show_settings = false;
        self.editor.clear_all();
        self.editor.set_session(false);
    }

    /// Selects display number `i` for capture. Away from the first display
    /// only fullscreen capture is offered, so area selection is left.
    pub fn choose_screen(&mut self, i: usize)
        ensures
            final(self).wf() == old(self).wf(),
            i >= old(self)@.screens.displays.len() ==> final(self)@ == old(self)@,
            i < old(self)@.screens.displays.len() && i == old(self)@.screens.default_screen_number
                ==> final(self)@ == (AppView {
                screens: ScreensView { screen_number: i, default: true, ..old(self)@.screens },
                ..old(self)@
            }),
            i < old(self)@.screens.displays.len() && i != old(self)@.screens.default_screen_number
                ==> final(self)@ == (AppView {
                screens: ScreensView { screen_number: i, default: false, ..old(self)@.screens },
                selection_mode: Selection::Fullscreen,
                selecting_area: false,
                ..old(self)@
            }),
    {
        if i >= self.screenshots.total_screens() {
            return;
        }
        self.screenshots.select_screen(i);
        if !self.screenshots.is_default() {
            self.selection_mode = Selection::Fullscreen;
            self.selecting_area = false;
        }
    }

    /// Ends editing by capturing the edited image as shown: the tool is put
    /// away and an area capture is asked for.
    pub fn capture_edited(&mut self) -> (r: Effect)
        ensures
            r is HideForCapture,
            final(self)@ == (AppView {
                selection_mode: Selection::Area,
                hide: true,
                editor: EditorView { tool: ToolKind::NotSelected, ..old(self)@.editor },
                ..old(self)@
            }),
            final(self).wf() == old(self).wf(),
    {
        self.editor.set_active_tool(ToolKind::NotSelected);
        self.selection_mode = Selection::Area;
        self.hide = true;
        Effect::HideForCapture
    }
}

} // verus!
