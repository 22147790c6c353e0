//! What the running shell does when the program is launched once more.
//!
//! Only one instance of the shell runs at a time. A further launch ends at
//! once and leaves the running instance to bring its window forward.

use vstd::prelude::*;

verus! {

/// An operation on the main window that brings it back before the user.
#[derive(Clone, Copy, Debug, PartialEq, Eq, Structural)]
pub enum WindowOp {
    /// Restore the window from the task bar or dock.
    Unminimize,
    /// Make the window visible.
    Show,
    /// Give the window the keyboard focus.
    Focus,
}

/// The operations that bring a window forward, in the order in which they
/// are carried out.
pub open spec fn raise_ops() -> Seq<WindowOp> {
    seq![WindowOp::Unminimize, WindowOp::Show, WindowOp::Focus]
}

/// What a further launch asks of the running instance.
pub open spec fn second_launch_spec(window_present: bool) -> Seq<WindowOp> {
    if window_present {
        raise_ops()
    } else {
        Seq::empty()
    }
}

/// The operations with which the running instance answers a further launch.
///
/// With a main window, the window is restored, shown and focused, in that
/// order; without one, nothing is done. The plan does not ask how an
/// operation went: each one is attempted, and the caller drops its error.
pub fn on_second_launch(window_present: bool) -> (ops: Vec<WindowOp>)
    ensures
        ops@ == second_launch_spec(window_present),
{
    let mut ops: Vec<WindowOp> = Vec::new();
    if window_present {
        ops.push(WindowOp::Unminimize);
        ops.push(WindowOp::Show);
        ops.push(WindowOp::Focus);
    }
    ops
}

/// A window is never focused before it is shown, nor shown before it is
/// restored, and no operation is asked for twice.
pub proof fn lemma_raise_order(window_present: bool, i: int, j: int)
    requires
        0 <= i < j < second_launch_spec(window_present).len(),
    ensures
        window_present,
        second_launch_spec(window_present)[i] != second_launch_spec(window_present)[j],
        second_launch_spec(window_present)[j] != WindowOp::Unminimize,
        second_launch_spec(window_present)[i] != WindowOp::Focus,
{
}

} // verus!
