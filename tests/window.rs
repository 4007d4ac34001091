use cicada_window::error::OsError;
use cicada_window::window::{
    create_params, registration_result, show_command, window_style, DisplayStyle, Position,
    ShowStyle, Size, Window, WindowAttributes, WindowPlatformSpecificAttributes, CW_USEDEFAULT,
    ERROR_CLASS_ALREADY_EXISTS,
};

#[test]
fn size_and_position_new() {
    let size = Size::new(800, 600);
    assert_eq!(size.width, 800);
    assert_eq!(size.height, 600);
    let pos = Position::new(-10, 20);
    assert_eq!(pos.x, -10);
    assert_eq!(pos.y, 20);
}

#[test]
fn os_error_keeps_code() {
    assert_eq!(OsError::from_code(5).into_inner(), 5);
}

#[test]
fn registering_same_class_twice_succeeds() {
    assert_eq!(registration_result(true, 0), Ok(()));
    assert_eq!(
        registration_result(false, ERROR_CLASS_ALREADY_EXISTS),
        Ok(())
    );
    assert_eq!(registration_result(false, 0), Ok(()));
}

#[test]
fn other_registration_failure_is_error() {
    assert_eq!(
        registration_result(false, 5),
        Err(OsError::from_code(5))
    );
    assert_eq!(registration_result(false, 5).unwrap_err().into_inner(), 5);
    assert_eq!(registration_result(true, 5), Ok(()));
}

#[test]
fn window_styles() {
    let windowed = DisplayStyle::Windowed { resizable: true };
    let fixed = DisplayStyle::Windowed { resizable: false };
    assert_eq!(window_style(windowed, ShowStyle::Hidden), 0x00cf_0000);
    assert_eq!(window_style(fixed, ShowStyle::Hidden), 0x00cf_0000);
    assert_eq!(window_style(windowed, ShowStyle::Visible), 0x10cf_0000);
    assert_eq!(window_style(windowed, ShowStyle::Minimized), 0x20cf_0000);
    assert_eq!(window_style(windowed, ShowStyle::Maximized), 0x01cf_0000);
}

#[test]
fn show_commands() {
    assert_eq!(show_command(ShowStyle::Hidden), 0);
    assert_eq!(show_command(ShowStyle::Visible), 5);
    assert_eq!(show_command(ShowStyle::Minimized), 6);
    assert_eq!(show_command(ShowStyle::Maximized), 3);
}

#[test]
fn default_attributes() {
    let attributes = WindowAttributes::default();
    assert_eq!(attributes.size, None);
    assert_eq!(attributes.pos, None);
    assert_eq!(attributes.title, None);
    assert_eq!(attributes.show_style, ShowStyle::Hidden);
    assert_eq!(
        attributes.display_style,
        DisplayStyle::Windowed { resizable: true }
    );
    assert_eq!(attributes.platform_specific.class_name, None);
}

#[test]
fn create_params_defaults() {
    let params = create_params(WindowAttributes::default());
    assert_eq!(params.class_name, "common_window");
    assert_eq!(params.title, "Main Window");
    assert_eq!(params.style, 0x00cf_0000);
    assert_eq!(params.x, CW_USEDEFAULT);
    assert_eq!(params.y, CW_USEDEFAULT);
    assert_eq!(params.width, CW_USEDEFAULT);
    assert_eq!(params.height, CW_USEDEFAULT);
    assert_eq!(CW_USEDEFAULT, i32::MIN);
}

#[test]
fn create_params_given_values() {
    let attributes = WindowAttributes {
        size: Some(Size::new(800, 600)),
        pos: Some(Position::new(10, 20)),
        title: Some("Demo".to_string()),
        show_style: ShowStyle::Visible,
        display_style: DisplayStyle::Windowed { resizable: false },
        platform_specific: WindowPlatformSpecificAttributes {
            class_name: Some("demo_class".to_string()),
        },
    };
    let params = create_params(attributes);
    assert_eq!(params.class_name, "demo_class");
    assert_eq!(params.title, "Demo");
    assert_eq!(params.style, 0x10cf_0000);
    assert_eq!((params.x, params.y), (10, 20));
    assert_eq!((params.width, params.height), (800, 600));
}

#[test]
fn window_destroyed_exactly_once() {
    let mut window = Window::from_handle(42);
    assert!(window.is_live());
    assert_eq!(window.handle(), 42);
    assert_eq!(window.destroy(), Some(42));
    assert!(!window.is_live());
    assert_eq!(window.destroy(), None);
    assert_eq!(window.destroy(), None);
}

#[test]
fn window_destroyed_once_after_show() {
    let mut window = Window::from_handle(7);
    assert_eq!(window.show(ShowStyle::Visible), Some((7, 5)));
    assert_eq!(window.show(ShowStyle::Hidden), Some((7, 0)));
    assert_eq!(window.destroy(), Some(7));
    assert_eq!(window.show(ShowStyle::Visible), None);
    assert_eq!(window.destroy(), None);
}

#[test]
fn default_os_error_is_empty() {
    assert_eq!(OsError::default().into_inner(), 0);
}
