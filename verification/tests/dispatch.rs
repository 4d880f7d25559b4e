//! The callback bridge: handle checking, re-entrancy rejection,
//! default-then-override dispatch, and the keyboard claim rule.

use safeui::native::{DefCall, KbdEvent, NativeLayer};
use safeui::ui::{DispatchError, EventOutcome, UiEvent, Ui};
use safeui::window_controller::{WindowController, WindowUserController};

#[derive(Default)]
struct Counting {
    close_calls: u32,
    resize_calls: u32,
    maximize_calls: u32,
    unmaximize_calls: u32,
    kbd_calls: u32,
    last_key: u32,
}

impl WindowUserController for Counting {
    fn on_close(&mut self, controller: &mut WindowController<'_>, native: &mut NativeLayer) {
        self.close_calls += 1;
        controller.ui().quit(native);
    }

    fn on_resize(&mut self, controller: &mut WindowController<'_>, native: &mut NativeLayer) {
        self.resize_calls += 1;
        controller.paint(native);
    }

    fn on_maximize(&mut self, _controller: &mut WindowController<'_>, _native: &mut NativeLayer) {
        self.maximize_calls += 1;
    }

    fn on_unmaximize(
        &mut self,
        _controller: &mut WindowController<'_>,
        _native: &mut NativeLayer,
    ) {
        self.unmaximize_calls += 1;
    }

    fn on_kbd(
        &mut self,
        _controller: &mut WindowController<'_>,
        _native: &mut NativeLayer,
        event: KbdEvent,
    ) {
        self.kbd_calls += 1;
        self.last_key = event.code;
    }
}

#[test]
fn handle_mismatch_is_rejected() {
    let mut native = NativeLayer::new();
    let ui = Ui::new(&mut native).expect("context creation");
    let mut window = ui
        .create_window(&mut native, "Viewer", 400, 500, Counting::default())
        .expect("window creation");
    // The window's handle is 2; a stray handle must be rejected untouched.
    let r = window.dispatch_event(&mut native, 999, UiEvent::Close);
    assert_eq!(r, Err(DispatchError::HandleMismatch));
    assert_eq!(window.user_controller().close_calls, 0);
    assert!(native.def_calls.is_empty());
    assert!(!native.quit_requested);
}

#[test]
fn reentrant_dispatch_is_rejected_not_corrupted() {
    let mut native = NativeLayer::new();
    let ui = Ui::new(&mut native).expect("context creation");
    let mut window = ui
        .create_window(&mut native, "Viewer", 400, 500, Counting::default())
        .expect("window creation");

    // A callback is in flight: its borrow of the state cell is taken.
    assert!(window.begin_dispatch());
    assert!(window.is_borrowed());
    assert!(window.is_mut_borrowed());

    // A second, synthetic callback for the same window arrives while the
    // first is still running: it must fail fast with a borrow-conflict
    // signal and change nothing.
    let r = window.dispatch_event(&mut native, 2, UiEvent::Resize);
    assert_eq!(r, Err(DispatchError::BorrowConflict));
    assert!(native.def_calls.is_empty());
    assert!(native.paint_calls.is_empty());

    // A nested acquisition attempt reports the conflict as well.
    assert!(!window.begin_dispatch());

    // Once the first callback finishes, dispatch works again.
    window.finish_dispatch();
    assert!(!window.is_mut_borrowed());
    let r = window.dispatch_event(&mut native, 2, UiEvent::Resize);
    assert_eq!(r, Ok(EventOutcome::Delivered));
    assert_eq!(window.user_controller().resize_calls, 1);
}

#[test]
fn claimed_key_event_skips_the_user_controller() {
    let mut native = NativeLayer::new();
    let ui = Ui::new(&mut native).expect("context creation");
    let mut window = ui
        .create_window(&mut native, "Viewer", 400, 500, Counting::default())
        .expect("window creation");
    native.config.kbd_claim = true;
    let r = window.dispatch_event(&mut native, 2, UiEvent::Kbd(KbdEvent { code: 42 }));
    assert_eq!(r, Ok(EventOutcome::ClaimedByDefault));
    // Default key handling ran, the user override did not.
    assert_eq!(native.def_calls, vec![DefCall::Kbd(2)]);
    assert_eq!(window.user_controller().kbd_calls, 0);
}

#[test]
fn unclaimed_key_event_reaches_the_user_controller_exactly_once() {
    let mut native = NativeLayer::new();
    let ui = Ui::new(&mut native).expect("context creation");
    let mut window = ui
        .create_window(&mut native, "Viewer", 400, 500, Counting::default())
        .expect("window creation");
    native.config.kbd_claim = false;
    let r = window.dispatch_event(&mut native, 2, UiEvent::Kbd(KbdEvent { code: 42 }));
    assert_eq!(r, Ok(EventOutcome::Delivered));
    assert_eq!(native.def_calls, vec![DefCall::Kbd(2)]);
    assert_eq!(window.user_controller().kbd_calls, 1);
    assert_eq!(window.user_controller().last_key, 42);
}

#[test]
fn close_dispatch_reaches_the_user_and_quit_propagates() {
    let mut native = NativeLayer::new();
    let ui = Ui::new(&mut native).expect("context creation");
    let mut window = ui
        .create_window(&mut native, "Viewer", 400, 500, Counting::default())
        .expect("window creation");
    let r = window.dispatch_event(&mut native, 2, UiEvent::Close);
    assert_eq!(r, Ok(EventOutcome::Delivered));
    assert_eq!(window.user_controller().close_calls, 1);
    // Close has no toolkit default behaviour.
    assert!(native.def_calls.is_empty());
    // The handler requested quit through the controller surface.
    assert!(native.quit_requested);
}

#[test]
fn resize_runs_default_behaviour_before_the_user() {
    let mut native = NativeLayer::new();
    let ui = Ui::new(&mut native).expect("context creation");
    let mut window = ui
        .create_window(&mut native, "Viewer", 400, 500, Counting::default())
        .expect("window creation");
    let r = window.dispatch_event(&mut native, 2, UiEvent::Resize);
    assert_eq!(r, Ok(EventOutcome::Delivered));
    assert_eq!(native.def_calls, vec![DefCall::Resize(2)]);
    assert_eq!(native.paint_calls, vec![2u64]);
    assert_eq!(window.user_controller().resize_calls, 1);
}

#[test]
fn maximize_and_unmaximize_dispatch_default_then_user() {
    let mut native = NativeLayer::new();
    let ui = Ui::new(&mut native).expect("context creation");
    let mut window = ui
        .create_window(&mut native, "Viewer", 400, 500, Counting::default())
        .expect("window creation");
    assert_eq!(
        window.dispatch_event(&mut native, 2, UiEvent::Maximize),
        Ok(EventOutcome::Delivered)
    );
    assert_eq!(
        window.dispatch_event(&mut native, 2, UiEvent::Unmaximize),
        Ok(EventOutcome::Delivered)
    );
    assert_eq!(
        native.def_calls,
        vec![DefCall::Maximize(2), DefCall::Unmaximize(2)]
    );
    assert_eq!(window.user_controller().maximize_calls, 1);
    assert_eq!(window.user_controller().unmaximize_calls, 1);
}

#[test]
fn run_and_quit_are_recorded() {
    let mut native = NativeLayer::new();
    let ui = Ui::new(&mut native).expect("context creation");
    ui.run(&mut native);
    assert_eq!(native.run_calls, 1);
    assert!(!native.quit_requested);
    ui.quit(&mut native);
    assert!(native.quit_requested);
}
