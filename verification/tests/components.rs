use window_of_opportunity::components::Div;
use window_of_opportunity::msg::WM_CREATE;
use window_of_opportunity::mutation_writer::{MutationKind, MutationWriter};
use window_of_opportunity::win::{
    Button, Component, DispatchInputs, MainWindow, Rect, Win,
};
use window_of_opportunity::win_create_args::{
    WinCreateArgs, CW_USEDEFAULT, WS_EX_APPWINDOW, WS_OVERLAPPEDWINDOW,
};
use window_of_opportunity::{BaseWin, TextMetrics, CANARY};

fn inputs() -> DispatchInputs {
    DispatchInputs {
        text_metrics: TextMetrics { height: 0, ave_char_width: 0, external_leading: 0 },
        client_rect: Some(Rect { left: 0, top: 0, right: 10, bottom: 10 }),
    }
}

#[test]
fn child_attached_before_creation_is_deferred() {
    let mut w = MainWindow::new(1);
    let button = Button::new(1, "ok".to_string());
    let create_now = w.set_child(Component::Element(button));
    assert!(!create_now);
    // Not materialized, and not due, while the window does not exist.
    assert_eq!(w.child_handle(), 0);
    assert!(!w.child_needs_creation());

    // The creation notification fires the hook; the child is now due.
    let e = window_of_opportunity::Event { hwnd: 7, message: WM_CREATE, wparam: 0, lparam: 0 };
    w.dispatch_event(&e, &inputs());
    assert!(w.created);
    assert!(w.child_needs_creation());

    // The platform issues the child window; the handle is now recorded.
    w.child_created(42);
    assert_eq!(w.child_handle(), 42);
    assert!(!w.child_needs_creation());
}

#[test]
fn child_attached_after_creation_is_due_immediately() {
    let mut w = MainWindow::new(1);
    let e = window_of_opportunity::Event { hwnd: 7, message: WM_CREATE, wparam: 0, lparam: 0 };
    w.dispatch_event(&e, &inputs());
    assert!(w.created);

    let button = Button::new(2, "go".to_string());
    let create_now = w.set_child(Component::Element(button));
    assert!(create_now);
    assert!(w.child_needs_creation());
    w.child_created(77);
    assert_eq!(w.child_handle(), 77);
}

#[test]
fn container_child_attached_before_creation_is_deferred() {
    let mut w = MainWindow::new(1);
    let create_now = w.set_child(Component::Container(Box::new(Div::new(1))));
    assert!(!create_now);
    assert_eq!(w.child_handle(), 0);
    assert!(!w.child_needs_creation());

    let e = window_of_opportunity::Event { hwnd: 7, message: WM_CREATE, wparam: 0, lparam: 0 };
    w.dispatch_event(&e, &inputs());
    assert!(w.child_needs_creation());
    w.child_created(31);
    assert_eq!(w.child_handle(), 31);
    assert!(!w.child_needs_creation());
}

#[test]
fn container_child_attached_after_creation_is_due_immediately() {
    let mut w = MainWindow::new(1);
    let e = window_of_opportunity::Event { hwnd: 7, message: WM_CREATE, wparam: 0, lparam: 0 };
    w.dispatch_event(&e, &inputs());
    let create_now = w.set_child(Component::Container(Box::new(Div::new(1))));
    assert!(create_now);
    assert!(w.child_needs_creation());
    w.child_created(32);
    assert_eq!(w.child_handle(), 32);
}

#[test]
fn container_defers_its_own_child_until_created() {
    let mut d = Div::new(4);
    let create_now = d.add_child(Component::Element(Button::new(5, "in".to_string())));
    assert!(!create_now);
    assert!(!d.child_needs_creation());

    let e = window_of_opportunity::Event { hwnd: 8, message: WM_CREATE, wparam: 0, lparam: 0 };
    d.dispatch_event(&e, &inputs());
    assert!(d.created);
    assert!(d.child_needs_creation());
    d.child_created(33);
    assert_eq!(d.child_handle(), 33);
    assert!(!d.child_needs_creation());
}

#[test]
fn button_builders_set_fields() {
    let b = Button::new(9, "push".to_string())
        .with_x(3)
        .with_y(4)
        .with_width(100)
        .with_height(30)
        .with_text("go".to_string());
    assert_eq!(b.id, 9);
    assert_eq!(b.name, "go");
    assert_eq!(b.hwnd, 0);
    assert_eq!(b.x, 3);
    assert_eq!(b.y, 4);
    assert_eq!(b.width, 100);
    assert_eq!(b.height, 30);
}

#[test]
fn button_defaults_are_ten_by_ten() {
    let b = Button::new(1, "b".to_string());
    assert_eq!((b.x, b.y, b.width, b.height), (0, 0, 10, 10));
}

#[test]
fn div_stores_children_and_records_its_handle() {
    let mut d = Div::new(4);
    assert_eq!(d.inst, 4);
    assert!(!d.created);
    assert_eq!(d.hwnd, 0);
    let create_now = d.set_child(Component::Element(Button::new(1, "x".to_string())));
    assert!(!create_now);
    let create_now = d.add_child(Component::Element(Button::new(2, "y".to_string())));
    assert!(!create_now);
    assert!(d.child.is_some());
    d.create_container(9);
    assert_eq!(d.hwnd, 9);
}

#[test]
fn mutation_writer_records_in_order() {
    let mut mw = MutationWriter::new();
    assert_eq!(mw.len(), 0);
    mw.record(MutationKind::PushRoot { id: 0 });
    mw.record(MutationKind::LoadTemplate { index: 1, id: 2 });
    mw.record(MutationKind::AppendChildren { id: 0, m: 1 });
    assert_eq!(mw.len(), 3);
    assert_eq!(mw.log[0], MutationKind::PushRoot { id: 0 });
    assert_eq!(mw.log[1], MutationKind::LoadTemplate { index: 1, id: 2 });
    assert_eq!(mw.log[2], MutationKind::AppendChildren { id: 0, m: 1 });
}

#[test]
fn window_owns_its_default_create_args() {
    let w = MainWindow::new(77);
    let args = w.create_window_args();
    assert_eq!(args.instance, 77);
    assert_eq!(args.class_name, "mainwin");
    assert_eq!(args.style, WS_OVERLAPPEDWINDOW);
}

#[test]
fn create_args_defaults() {
    let d = WinCreateArgs::default();
    assert_eq!(d.class_name, "");
    assert_eq!(d.menu_name, "");
    assert_eq!(d.ex_style, 0);
    assert_eq!(d.style, 0);
    assert!(d.icon.is_none());
    assert_eq!(d.cursor, 0);
    assert_eq!(d.window_width, CW_USEDEFAULT);
    assert_eq!(d.window_height, CW_USEDEFAULT);
}

#[test]
fn create_args_for_main_window() {
    let a = WinCreateArgs::default_win_main();
    assert_eq!(a.class_name, "mainwin");
    assert_eq!(a.menu_name, "AppMenu");
    assert_eq!(a.icon.as_deref(), Some("AppIcon"));
    assert_eq!(a.ex_style, WS_EX_APPWINDOW);
    assert_eq!(a.style, WS_OVERLAPPEDWINDOW);
    assert_eq!(a.window_width, CW_USEDEFAULT);
}

#[test]
fn base_win_default_is_live() {
    let b = BaseWin::default();
    assert_eq!(b.canary, CANARY);
    assert_eq!(b.hwnd, 0);
    assert_eq!((b.x, b.y), (0, 0));
    assert_eq!(b.tm, TextMetrics::default());
}

#[test]
fn base_win_resize_caches_extent() {
    let mut b = BaseWin::default();
    b.on_resize(640, 480);
    assert_eq!((b.x, b.y), (640, 480));
}

#[test]
fn base_win_create_caches_metrics() {
    let mut b = BaseWin::default();
    let tm = TextMetrics { height: 16, ave_char_width: 8, external_leading: 1 };
    b.on_create(tm);
    assert_eq!(b.tm, tm);
}
