//! Decisions on the main window: what a close request does, given whether a
//! recording is under way, and the steps that bring the window back. Each is a
//! list of operations that the caller carries out in order; a failing step
//! is logged and the rest still run.
use vstd::prelude::*;
use crate::relay::FrontendEvent;

verus! {

/// One operation on the main window.
#[derive(Debug, Clone, Copy, PartialEq, Eq, Structural)]
pub enum WindowOp {
    /// Suppress the host's own handling of the close request.
    PreventClose,
    /// Exclude the window from the taskbar (`true`) or include it (`false`).
    SetSkipTaskbar(bool),
    Hide,
    Unminimize,
    Show,
    SetFocus,
    /// Send this event to the frontend.
    Emit(FrontendEvent),
}

/// What can be observed of the main window.
#[derive(Debug, Clone, Copy, PartialEq, Eq, Structural)]
pub struct WindowModel {
    pub in_taskbar: bool,
    pub minimized: bool,
    pub visible: bool,
    pub focused: bool,
}

/// The window after one operation that succeeded.
pub open spec fn apply_op(w: WindowModel, op: WindowOp) -> WindowModel {
    match op {
        WindowOp::SetSkipTaskbar(skip) => WindowModel { in_taskbar: !skip, ..w },
        WindowOp::Hide => WindowModel { visible: false, focused: false, ..w },
        WindowOp::Unminimize => WindowModel { minimized: false, ..w },
        WindowOp::Show => WindowModel { visible: true, ..w },
        WindowOp::SetFocus => WindowModel { focused: true, ..w },
        _ => w,
    }
}

/// The window after the operations `ops` in order, where those at the
/// positions in `failed` had no effect.
pub open spec fn run_ops(w: WindowModel, ops: Seq<WindowOp>, failed: Set<int>) -> WindowModel
    decreases ops.len(),
{
    if ops.len() == 0 {
        w
    } else {
        let before = run_ops(w, ops.drop_last(), failed);
        if failed.contains(ops.len() - 1) {
            before
        } else {
            apply_op(before, ops.last())
        }
    }
}

/// The events that the operations `ops` send, in order.
pub open spec fn emitted(ops: Seq<WindowOp>) -> Seq<FrontendEvent>
    decreases ops.len(),
{
    if ops.len() == 0 {
        Seq::empty()
    } else {
        match ops.last() {
            WindowOp::Emit(e) => emitted(ops.drop_last()).push(e),
            _ => emitted(ops.drop_last()),
        }
    }
}

/// A close request: suppress the default close, then hide to the tray while a
/// recording is under way, else ask the frontend to confirm the exit.
pub open spec fn spec_close_actions(is_recording: bool) -> Seq<WindowOp> {
    if is_recording {
        seq![WindowOp::PreventClose, WindowOp::SetSkipTaskbar(true), WindowOp::Hide]
    } else {
        seq![WindowOp::PreventClose, WindowOp::Emit(FrontendEvent::WindowCloseRequested)]
    }
}

/// Restoring the window: include it in the taskbar, unminimize it if it is
/// minimized, show it unless it is visible, then focus it. A query that
/// failed (`None`) counts as "not minimized" and "not visible".
pub open spec fn spec_restore_actions(is_minimized: Option<bool>, is_visible: Option<bool>) -> Seq<
    WindowOp,
> {
    seq![WindowOp::SetSkipTaskbar(false)]
        + (if is_minimized == Some(true) { seq![WindowOp::Unminimize] } else { Seq::empty() })
        + (if is_visible == Some(true) { Seq::empty() } else { seq![WindowOp::Show] })
        + seq![WindowOp::SetFocus]
}

/// The operations that answer a close request of the main window.
pub fn close_request_actions(is_recording: bool) -> (r: Vec<WindowOp>)
    ensures
        r@ == spec_close_actions(is_recording),
{
    let mut v: Vec<WindowOp> = Vec::new();
    v.push(WindowOp::PreventClose);
    if is_recording {
        v.push(WindowOp::SetSkipTaskbar(true));
        v.push(WindowOp::Hide);
    } else {
        v.push(WindowOp::Emit(FrontendEvent::WindowCloseRequested));
    }
    assert(v@ =~= spec_close_actions(is_recording));
    v
}

/// The operations that restore the main window, from the answers to "is it
/// minimized" and "is it visible" (`None` where the query failed).
pub fn restore_actions(is_minimized: Option<bool>, is_visible: Option<bool>) -> (r: Vec<WindowOp>)
    ensures
        r@ == spec_restore_actions(is_minimized, is_visible),
{
    let mut v: Vec<WindowOp> = Vec::new();
    v.push(WindowOp::SetSkipTaskbar(false));
    if is_minimized.unwrap_or(false) {
        v.push(WindowOp::Unminimize);
    }
    if !is_visible.unwrap_or(false) {
        v.push(WindowOp::Show);
    }
    v.push(WindowOp::SetFocus);
    assert(v@ =~= spec_restore_actions(is_minimized, is_visible));
    v
}

/// A close request during a recording sends no event to the frontend and
/// leaves the window hidden and out of the taskbar.
pub proof fn lemma_close_while_recording(w: WindowModel)
    ensures
        spec_close_actions(true)[0] == WindowOp::PreventClose,
        emitted(spec_close_actions(true)) == Seq::<FrontendEvent>::empty(),
        !run_ops(w, spec_close_actions(true), Set::empty()).visible,
        !run_ops(w, spec_close_actions(true), Set::empty()).in_taskbar,
{
    let ops = spec_close_actions(true);
    reveal_with_fuel(run_ops, 4);
    reveal_with_fuel(emitted, 4);
    assert(ops.drop_last().drop_last().drop_last() =~= Seq::<WindowOp>::empty());
    assert(ops.drop_last().drop_last() =~= seq![WindowOp::PreventClose]);
    assert(ops.drop_last() =~= seq![WindowOp::PreventClose, WindowOp::SetSkipTaskbar(true)]);
}

/// A close request while idle leaves the window as it is and sends exactly one
/// close-confirmation event.
pub proof fn lemma_close_while_idle(w: WindowModel)
    ensures
        spec_close_actions(false)[0] == WindowOp::PreventClose,
        emitted(spec_close_actions(false)) == seq![FrontendEvent::WindowCloseRequested],
        run_ops(w, spec_close_actions(false), Set::empty()) == w,
{
    let ops = spec_close_actions(false);
    reveal_with_fuel(run_ops, 3);
    reveal_with_fuel(emitted, 3);
    assert(ops.drop_last().drop_last() =~= Seq::<WindowOp>::empty());
    assert(ops.drop_last() =~= seq![WindowOp::PreventClose]);
    assert(emitted(ops) =~= seq![FrontendEvent::WindowCloseRequested]);
}

/// Restoring a minimized window that is out of the taskbar takes the steps
/// taskbar, unminimize, show (when hidden), focus, in that order. Each step
/// that succeeds leaves its effect in the end state, whichever others fail, so
/// with no failure the window ends in the taskbar, unminimized, visible and
/// focused.
pub proof fn lemma_restore_minimized(w: WindowModel, failed: Set<int>)
    requires
        w.minimized,
        !w.in_taskbar,
    ensures
        ({
            let ops = spec_restore_actions(Some(w.minimized), Some(w.visible));
            let end = run_ops(w, ops, failed);
            &&& ops == seq![WindowOp::SetSkipTaskbar(false), WindowOp::Unminimize]
                + (if w.visible { Seq::empty() } else { seq![WindowOp::Show] })
                + seq![WindowOp::SetFocus]
            &&& !failed.contains(0) ==> end.in_taskbar
            &&& !failed.contains(1) ==> !end.minimized
            &&& (w.visible || !failed.contains(2)) ==> end.visible
            &&& !failed.contains(ops.len() - 1) ==> end.focused
            &&& failed == Set::<int>::empty() ==> (end.in_taskbar && !end.minimized && end.visible
                && end.focused)
        }),
{
    let ops = spec_restore_actions(Some(w.minimized), Some(w.visible));
    reveal_with_fuel(run_ops, 5);
    if w.visible {
        assert(ops =~= seq![WindowOp::SetSkipTaskbar(false), WindowOp::Unminimize, WindowOp::SetFocus]);
        assert(ops.drop_last() =~= seq![WindowOp::SetSkipTaskbar(false), WindowOp::Unminimize]);
        assert(ops.drop_last().drop_last() =~= seq![WindowOp::SetSkipTaskbar(false)]);
        assert(ops.drop_last().drop_last().drop_last() =~= Seq::<WindowOp>::empty());
    } else {
        assert(ops =~= seq![
            WindowOp::SetSkipTaskbar(false),
            WindowOp::Unminimize,
            WindowOp::Show,
            WindowOp::SetFocus,
        ]);
        assert(ops.drop_last() =~= seq![
            WindowOp::SetSkipTaskbar(false),
            WindowOp::Unminimize,
            WindowOp::Show,
        ]);
        assert(ops.drop_last().drop_last() =~= seq![
            WindowOp::SetSkipTaskbar(false),
            WindowOp::Unminimize,
        ]);
        assert(ops.drop_last().drop_last().drop_last() =~= seq![WindowOp::SetSkipTaskbar(false)]);
        assert(ops.drop_last().drop_last().drop_last().drop_last() =~= Seq::<WindowOp>::empty());
    }
}

} // verus!
