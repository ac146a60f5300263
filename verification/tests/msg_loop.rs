use window_of_opportunity::app::{
    after_accelerator, LoopStep, MessageDisposition, MessageLoop, RetrieveMode, WPApp,
};
use window_of_opportunity::module::WPModule;
use window_of_opportunity::msg::{WM_PAINT, WM_QUIT};
use window_of_opportunity::win_create_args::{WinCreateArgs, CW_USEDEFAULT};

#[test]
fn loop_starts_polling() {
    let l = MessageLoop::new();
    assert_eq!(l.mode, RetrieveMode::Polling);
    assert!(l.running);
    assert_eq!(l.exit_code, 0);
    assert_eq!(l.next_step(), LoopStep::Poll);
}

#[test]
fn idle_with_more_work_keeps_polling() {
    let mut l = MessageLoop::new();
    l.on_idle(true);
    assert_eq!(l.next_step(), LoopStep::Poll);
    l.on_idle(true);
    l.on_idle(true);
    assert_eq!(l.next_step(), LoopStep::Poll);
}

#[test]
fn idle_without_more_work_switches_to_blocking() {
    let mut l = MessageLoop::new();
    l.on_idle(true);
    assert_eq!(l.next_step(), LoopStep::Poll);
    l.on_idle(false);
    assert_eq!(l.mode, RetrieveMode::Blocking);
    assert_eq!(l.next_step(), LoopStep::BlockingRetrieve);
}

#[test]
fn quit_during_polling_stops_loop_with_exit_code() {
    let mut l = MessageLoop::new();
    let quit = l.on_polled_message(WM_QUIT, 5);
    assert!(quit);
    assert!(!l.running);
    assert_eq!(l.exit_code, 5);
    assert_eq!(l.next_step(), LoopStep::Stop);
}

#[test]
fn ordinary_message_leaves_loop_state_alone() {
    let mut l = MessageLoop::new();
    let quit = l.on_polled_message(WM_PAINT, 9);
    assert!(!quit);
    assert!(l.running);
    assert_eq!(l.exit_code, 0);
    assert_eq!(l.next_step(), LoopStep::Poll);
}

#[test]
fn blocking_retrieve_quit_stops_loop() {
    let mut l = MessageLoop::new();
    l.on_idle(false);
    l.on_blocking_result(true, 0);
    assert_eq!(l.next_step(), LoopStep::BlockingRetrieve);
    l.on_blocking_result(false, 7);
    assert!(!l.running);
    assert_eq!(l.exit_code, 7);
    assert_eq!(l.next_step(), LoopStep::Stop);
}

#[test]
fn accelerator_table_decides_disposition() {
    let module = WPModule::new(Some(3));
    let mut app = WPApp::new(module);
    assert_eq!(app.dispose_message(), MessageDisposition::TranslateAndDispatch);
    app.accelerators_loaded(Some(11));
    assert_eq!(app.dispose_message(), MessageDisposition::CheckAccelerator);
    app.accelerators_loaded(None);
    assert_eq!(app.dispose_message(), MessageDisposition::TranslateAndDispatch);
}

#[test]
fn matched_accelerator_suppresses_standard_dispatch() {
    assert!(!after_accelerator(true));
    assert!(after_accelerator(false));
}

#[test]
fn app_adopts_loop_exit_code() {
    let mut app = WPApp::new(WPModule::new(Some(3)));
    let mut l = MessageLoop::new();
    l.on_polled_message(WM_QUIT, 42);
    app.finish_run(&l);
    assert_eq!(app.exit_code(), 42);
}

#[test]
fn app_new_starts_empty() {
    let app = WPApp::new(WPModule::new(Some(3)));
    assert_eq!(app.get_hinstance(), 3);
    assert_eq!(app.exit_code(), 0);
    assert!(app.accel.is_none());
    assert!(app.create_args.is_none());
    assert!(!app.main_win.created);
    assert_eq!(app.main_win.inst, 3);
}

#[test]
fn app_with_config_remembers_args() {
    let args = WinCreateArgs { window_width: 600, window_height: 400, ..Default::default() };
    let app = WPApp::new_with_config(WPModule::new(Some(3)), args);
    let stored = app.create_args.as_ref().unwrap();
    assert_eq!(stored.window_width, 600);
    assert_eq!(stored.window_height, 400);
    assert_ne!(stored.window_width, CW_USEDEFAULT);
}

#[test]
fn module_handle_query_falls_back_to_null() {
    assert_eq!(WPModule::new(Some(8)).get_hinstance(), 8);
    assert_eq!(WPModule::new(None).get_hinstance(), 0);
}
