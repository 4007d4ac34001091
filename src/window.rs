use vstd::prelude::*;

use crate::error::OsError;

verus! {

/// Window class registered when the attributes name none.
pub const DEFAULT_CLASS_NAME: &'static str = "common_window";

/// Title used when the attributes give none.
pub const DEFAULT_TITLE: &'static str = "Main Window";

/// Native placeholder asking the system to choose a position or size.
pub const CW_USEDEFAULT: i32 = -2147483648;

/// Native error code: the window class is already registered.
pub const ERROR_CLASS_ALREADY_EXISTS: u32 = 1410;

/// Native style of a resizable, captioned frame.
pub const WS_OVERLAPPEDWINDOW: u32 = 0x00cf0000;

/// Native style flag: initially visible.
pub const WS_VISIBLE: u32 = 0x10000000;

/// Native style flag: initially minimized.
pub const WS_MINIMIZE: u32 = 0x20000000;

/// Native style flag: initially maximized.
pub const WS_MAXIMIZE: u32 = 0x01000000;

/// Native show command: hide.
pub const SW_HIDE: i32 = 0;

/// Native show command: maximize.
pub const SW_MAXIMIZE: i32 = 3;

/// Native show command: show.
pub const SW_SHOW: i32 = 5;

/// Native show command: minimize.
pub const SW_MINIMIZE: i32 = 6;

#[derive(Debug, Clone, Copy, PartialEq, Eq, Structural)]
pub struct Size {
    pub width: u32,
    pub height: u32,
}

impl Size {
    pub fn new(width: u32, height: u32) -> (r: Size)
        ensures
            r.width == width,
            r.height == height,
    {
        Size { width, height }
    }
}

#[derive(Debug, Clone, Copy, PartialEq, Eq, Structural)]
pub struct Position {
    pub x: i32,
    pub y: i32,
}

impl Position {
    pub fn new(x: i32, y: i32) -> (r: Position)
        ensures
            r.x == x,
            r.y == y,
    {
        Position { x, y }
    }
}

#[derive(Debug, Clone, Copy, PartialEq, Eq, Structural)]
pub enum ShowStyle {
    Hidden,
    Visible,
    Minimized,
    Maximized,
}

#[derive(Debug, Clone, Copy, PartialEq, Eq, Structural)]
pub enum DisplayStyle {
    Windowed { resizable: bool },
    ExclusiveFullscreen,
    BorderlessWindow,
}

#[derive(Debug, Clone)]
pub struct WindowPlatformSpecificAttributes {
    pub class_name: Option<String>,
}

impl Default for WindowPlatformSpecificAttributes {
    fn default() -> (r: WindowPlatformSpecificAttributes)
        ensures
            r.class_name.is_none(),
    {
        WindowPlatformSpecificAttributes { class_name: None }
    }
}

#[derive(Debug, Clone)]
pub struct WindowAttributes {
    pub size: Option<Size>,
    pub pos: Option<Position>,
    pub title: Option<String>,
    pub show_style: ShowStyle,
    pub display_style: DisplayStyle,
    pub platform_specific: WindowPlatformSpecificAttributes,
}

impl Default for WindowAttributes {
    fn default() -> (r: WindowAttributes)
        ensures
            r.size.is_none(),
            r.pos.is_none(),
            r.title.is_none(),
            r.show_style == ShowStyle::Hidden,
            r.display_style == (DisplayStyle::Windowed { resizable: true }),
            r.platform_specific.class_name.is_none(),
    {
        WindowAttributes {
            size: None,
            pos: None,
            title: None,
            show_style: ShowStyle::Hidden,
            display_style: DisplayStyle::Windowed { resizable: true },
            platform_specific: WindowPlatformSpecificAttributes::default(),
        }
    }
}

/// Display styles that have a native implementation.
pub open spec fn display_style_supported(d: DisplayStyle) -> bool {
    d is Windowed
}

/// The native style flag for an initial show state.
pub open spec fn show_flag(s: ShowStyle) -> u32 {
    match s {
        ShowStyle::Hidden => 0,
        ShowStyle::Visible => WS_VISIBLE,
        ShowStyle::Minimized => WS_MINIMIZE,
        ShowStyle::Maximized => WS_MAXIMIZE,
    }
}

/// The native show command for a show state.
pub open spec fn show_command_spec(s: ShowStyle) -> i32 {
    match s {
        ShowStyle::Hidden => SW_HIDE,
        ShowStyle::Visible => SW_SHOW,
        ShowStyle::Minimized => SW_MINIMIZE,
        ShowStyle::Maximized => SW_MAXIMIZE,
    }
}

/// Native window style flags: a windowed display is a resizable frame whatever its
/// `resizable` flag, combined with the flag of the initial show state.
pub fn window_style(display_style: DisplayStyle, show_style: ShowStyle) -> (r: u32)
    requires
        display_style_supported(display_style),
    ensures
        r == WS_OVERLAPPEDWINDOW | show_flag(show_style),
{
    let display = match display_style {
        DisplayStyle::Windowed { resizable: _ } => WS_OVERLAPPEDWINDOW,
        DisplayStyle::ExclusiveFullscreen => WS_OVERLAPPEDWINDOW,
        DisplayStyle::BorderlessWindow => WS_OVERLAPPEDWINDOW,
    };
    let show = match show_style {
        ShowStyle::Hidden => 0,
        ShowStyle::Visible => WS_VISIBLE,
        ShowStyle::Minimized => WS_MINIMIZE,
        ShowStyle::Maximized => WS_MAXIMIZE,
    };
    display | show
}

/// The native show command that `Window::show` issues for `show_style`.
pub fn show_command(show_style: ShowStyle) -> (r: i32)
    ensures
        r == show_command_spec(show_style),
{
    match show_style {
        ShowStyle::Hidden => SW_HIDE,
        ShowStyle::Visible => SW_SHOW,
        ShowStyle::Minimized => SW_MINIMIZE,
        ShowStyle::Maximized => SW_MAXIMIZE,
    }
}

/// Whether a window-class registration counts as a success.
pub open spec fn registration_succeeds(registered: bool, last_error: u32) -> bool {
    registered || last_error == 0 || last_error == ERROR_CLASS_ALREADY_EXISTS
}

/// Decides the outcome of a window-class registration: a success, or a failure
/// whose error code is zero or "class already exists", is a success; any other
/// failure is the error.
pub fn registration_result(registered: bool, last_error: u32) -> (r: Result<(), OsError>)
    ensures
        r is Ok <==> registration_succeeds(registered, last_error),
        r is Err ==> r->Err_0@ == last_error,
{
    if !registered && last_error != 0 && last_error != ERROR_CLASS_ALREADY_EXISTS {
        Err(OsError::from_code(last_error))
    } else {
        Ok(())
    }
}

/// Everything the native window-creation call is given, resolved from the attributes.
pub struct CreateParams {
    pub class_name: String,
    pub title: String,
    pub style: u32,
    pub x: i32,
    pub y: i32,
    pub width: i32,
    pub height: i32,
}

/// Resolves the attributes into creation parameters: a missing class name, title,
/// position or size takes its default.
pub fn create_params(attributes: WindowAttributes) -> (r: CreateParams)
    requires
        display_style_supported(attributes.display_style),
    ensures
        r.class_name@ == (match attributes.platform_specific.class_name {
            Some(n) => n@,
            None => DEFAULT_CLASS_NAME@,
        }),
        r.title@ == (match attributes.title {
            Some(t) => t@,
            None => DEFAULT_TITLE@,
        }),
        r.style == WS_OVERLAPPEDWINDOW | show_flag(attributes.show_style),
        r.x == (match attributes.pos {
            Some(p) => p.x,
            None => CW_USEDEFAULT,
        }),
        r.y == (match attributes.pos {
            Some(p) => p.y,
            None => CW_USEDEFAULT,
        }),
        r.width == (match attributes.size {
            Some(s) => s.width as i32,
            None => CW_USEDEFAULT,
        }),
        r.height == (match attributes.size {
            Some(s) => s.height as i32,
            None => CW_USEDEFAULT,
        }),
{
    let style = window_style(attributes.display_style, attributes.show_style);
    let class_name = match attributes.platform_specific.class_name {
        Some(n) => n,
        None => DEFAULT_CLASS_NAME.to_string(),
    };
    let title = match attributes.title {
        Some(t) => t,
        None => DEFAULT_TITLE.to_string(),
    };
    let (x, y) = match attributes.pos {
        Some(p) => (p.x, p.y),
        None => (CW_USEDEFAULT, CW_USEDEFAULT),
    };
    let (width, height) = match attributes.size {
        Some(s) => (s.width as i32, s.height as i32),
        None => (CW_USEDEFAULT, CW_USEDEFAULT),
    };
    CreateParams { class_name, title, style, x, y, width, height }
}

/// The abstract state of a window: its native handle and whether it is still to
/// be destroyed.
pub struct WindowState {
    pub handle: u64,
    pub live: bool,
}

/// The effect of a destroy request: the handle to pass to the native destroy call,
/// once, while the window is live.
pub open spec fn destroy_spec(w: WindowState) -> (WindowState, Option<u64>) {
    if w.live {
        (WindowState { handle: w.handle, live: false }, Some(w.handle))
    } else {
        (w, None)
    }
}

/// Owns one native window handle, destroyed exactly once.
pub struct Window {
    handle: u64,
    live: bool,
}

impl View for Window {
    type V = WindowState;

    closed spec fn view(&self) -> WindowState {
        WindowState { handle: self.handle, live: self.live }
    }
}

impl Window {
    /// Takes ownership of a freshly created native handle.
    pub fn from_handle(handle: u64) -> (r: Window)
        ensures
            r@ == (WindowState { handle, live: true }),
    {
        Window { handle, live: true }
    }

    pub fn handle(&self) -> (r: u64)
        ensures
            r == self@.handle,
    {
        self.handle
    }

    /// Whether the native handle is still to be destroyed.
    pub fn is_live(&self) -> (r: bool)
        ensures
            r == self@.live,
    {
        self.live
    }

    /// The handle and command for a show request, while the handle is live.
    pub fn show(&self, show_style: ShowStyle) -> (r: Option<(u64, i32)>)
        ensures
            r == (if self@.live {
                Some((self@.handle, show_command_spec(show_style)))
            } else {
                None::<(u64, i32)>
            }),
    {
        if self.live {
            Some((self.handle, show_command(show_style)))
        } else {
            None
        }
    }

    /// Gives the handle to destroy, the first time only; the handle is never
    /// handed out again afterwards.
    pub fn destroy(&mut self) -> (r: Option<u64>)
        ensures
            (final(self)@, r) == destroy_spec(old(self)@),
    {
        if self.live {
            self.live = false;
            Some(self.handle)
        } else {
            None
        }
    }
}

/// Registering one class name twice succeeds both times: the first registration
/// succeeds natively, the second reports that the class already exists. Any other
/// native failure is an error.
pub proof fn lemma_registration_idempotent(first_error: u32, other_error: u32)
    requires
        other_error != 0,
        other_error != ERROR_CLASS_ALREADY_EXISTS,
    ensures
        registration_succeeds(true, first_error),
        registration_succeeds(false, ERROR_CLASS_ALREADY_EXISTS),
        !registration_succeeds(false, other_error),
{
}

/// A live window hands its handle to the native destroy call once; every later
/// request hands out nothing. Showing it changes nothing of this.
pub proof fn lemma_destroy_once(w: WindowState)
    requires
        w.live,
    ensures
        destroy_spec(w).1 == Some(w.handle),
        destroy_spec(destroy_spec(w).0).1 == None::<u64>,
        destroy_spec(destroy_spec(w).0).0 == destroy_spec(w).0,
        !destroy_spec(w).0.live,
{
}

} // verus!
