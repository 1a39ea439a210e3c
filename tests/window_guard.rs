use screen_recorder::relay::FrontendEvent;
use screen_recorder::window::{close_request_actions, restore_actions, WindowModel, WindowOp};

/// Runs the operations on a model window; the step at `fail_at` has no effect.
fn run(mut w: WindowModel, ops: &[WindowOp], fail_at: Option<usize>) -> (WindowModel, Vec<FrontendEvent>) {
    let mut events = Vec::new();
    for (i, op) in ops.iter().enumerate() {
        if Some(i) == fail_at {
            continue;
        }
        match *op {
            WindowOp::SetSkipTaskbar(skip) => w.in_taskbar = !skip,
            WindowOp::Hide => {
                w.visible = false;
                w.focused = false;
            }
            WindowOp::Unminimize => w.minimized = false,
            WindowOp::Show => w.visible = true,
            WindowOp::SetFocus => w.focused = true,
            WindowOp::Emit(e) => events.push(e),
            WindowOp::PreventClose => {}
        }
    }
    (w, events)
}

fn shown() -> WindowModel {
    WindowModel { in_taskbar: true, minimized: false, visible: true, focused: true }
}

#[test]
fn close_while_recording_hides_to_tray() {
    let ops = close_request_actions(true);
    assert_eq!(ops, vec![WindowOp::PreventClose, WindowOp::SetSkipTaskbar(true), WindowOp::Hide]);
    let (w, events) = run(shown(), &ops, None);
    assert!(events.is_empty());
    assert!(!w.visible);
    assert!(!w.in_taskbar);
}

#[test]
fn close_while_idle_asks_frontend() {
    let ops = close_request_actions(false);
    assert_eq!(ops[0], WindowOp::PreventClose);
    assert!(!ops.contains(&WindowOp::Hide));
    let (w, events) = run(shown(), &ops, None);
    assert_eq!(events, vec![FrontendEvent::WindowCloseRequested]);
    assert_eq!(w, shown());
}

#[test]
fn restore_minimized_hidden_window() {
    let start = WindowModel { in_taskbar: false, minimized: true, visible: false, focused: false };
    let ops = restore_actions(Some(true), Some(false));
    assert_eq!(
        ops,
        vec![WindowOp::SetSkipTaskbar(false), WindowOp::Unminimize, WindowOp::Show, WindowOp::SetFocus]
    );
    let (w, _) = run(start, &ops, None);
    assert_eq!(w, WindowModel { in_taskbar: true, minimized: false, visible: true, focused: true });
}

#[test]
fn restore_with_failed_step_runs_the_rest() {
    let start = WindowModel { in_taskbar: false, minimized: true, visible: false, focused: false };
    let ops = restore_actions(Some(true), Some(false));
    let (w, _) = run(start, &ops, Some(1));
    assert!(w.in_taskbar && w.minimized && w.visible && w.focused);
    let (w, _) = run(start, &ops, Some(0));
    assert!(!w.in_taskbar && !w.minimized && w.visible && w.focused);
}

#[test]
fn restore_with_failed_queries() {
    assert_eq!(
        restore_actions(None, None),
        vec![WindowOp::SetSkipTaskbar(false), WindowOp::Show, WindowOp::SetFocus]
    );
    assert_eq!(
        restore_actions(Some(false), Some(true)),
        vec![WindowOp::SetSkipTaskbar(false), WindowOp::SetFocus]
    );
}
