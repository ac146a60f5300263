//! The configuration bundle consumed by window creation: class name,
//! styles, owning module, resources and initial size.  It is plain data;
//! the creation call that consumes it is the platform's.

use vstd::prelude::*;

verus! {

/// Extended style marking a top-level application window.
pub const WS_EX_APPWINDOW: u32 = 0x0004_0000;

/// The standard overlapped-window style combination.
pub const WS_OVERLAPPEDWINDOW: u32 = 0x00CF_0000;

/// Sentinel width or height asking the platform to pick a default.
pub const CW_USEDEFAULT: i32 = -2147483648;

/// Window create arguments, constructed once before creation and consumed
/// by the creation call.
#[derive(Debug)]
pub struct WinCreateArgs {
    pub class_name: String,
    pub ex_style: u32,
    pub style: u32,
    /// Handle of the owning module; 0 for the current one.
    pub instance: usize,
    /// Name of the icon resource to load; `None` falls back to the
    /// platform's application icon.
    pub icon: Option<String>,
    /// Handle of the cursor to use; 0 stands for the standard arrow, which
    /// the creating side loads itself.
    pub cursor: usize,
    pub menu_name: String,
    pub window_height: i32,
    pub window_width: i32,
}

impl Default for WinCreateArgs {
    /// Empty names, no styles, no icon, the standard arrow cursor and
    /// platform-chosen size.
    fn default() -> (r: Self)
        ensures
            r.class_name@.len() == 0,
            r.ex_style == 0,
            r.style == 0,
            r.instance == 0,
            r.icon is None,
            r.cursor == 0,
            r.menu_name@.len() == 0,
            r.window_height == CW_USEDEFAULT,
            r.window_width == CW_USEDEFAULT,
    {
        WinCreateArgs {
            class_name: String::new(),
            ex_style: 0,
            style: 0,
            instance: 0,
            icon: None,
            cursor: 0,
            menu_name: String::new(),
            window_height: CW_USEDEFAULT,
            window_width: CW_USEDEFAULT,
        }
    }
}

impl WinCreateArgs {
    /// The arguments a default main window is created with: the `mainwin`
    /// class, the application menu and icon resources, and the standard
    /// overlapped top-level styles.
    pub fn default_win_main() -> (r: Self)
        ensures
            r.class_name@ == "mainwin"@,
            r.menu_name@ == "AppMenu"@,
            r.icon matches Some(icon) && icon@ == "AppIcon"@,
            r.ex_style == WS_EX_APPWINDOW,
            r.style == WS_OVERLAPPEDWINDOW,
            r.instance == 0,
            r.cursor == 0,
            r.window_height == CW_USEDEFAULT,
            r.window_width == CW_USEDEFAULT,
    {
        WinCreateArgs {
            class_name: "mainwin".to_owned(),
            menu_name: "AppMenu".to_owned(),
            icon: Some("AppIcon".to_owned()),
            ex_style: WS_EX_APPWINDOW,
            style: WS_OVERLAPPEDWINDOW,
            instance: 0,
            cursor: 0,
            window_height: CW_USEDEFAULT,
            window_width: CW_USEDEFAULT,
        }
    }
}

} // verus!
