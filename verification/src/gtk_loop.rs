use vstd::prelude::*;
use crate::render_msg::RenderMsg;

verus! {

/// What the GTK main-context task does with one render message.
#[derive(Clone, Copy, Debug, PartialEq, Eq, Structural)]
pub enum GtkLoopAction {
    /// Nothing: the GTK layout already follows the window.
    Ignore,
    /// Ask the GL area to render a frame.
    QueueRender,
    /// Leave the loop.
    Stop,
}

/// The action for a message.
pub open spec fn spec_gtk_loop_action(msg: RenderMsg) -> GtkLoopAction {
    match msg {
        RenderMsg::Resize { .. } => GtkLoopAction::Ignore,
        RenderMsg::Paint => GtkLoopAction::QueueRender,
        RenderMsg::Suspend => GtkLoopAction::Ignore,
        RenderMsg::Resume => GtkLoopAction::Ignore,
        RenderMsg::Exit => GtkLoopAction::Stop,
    }
}

/// Decides what the GTK task does with a message: paint requests queue a
/// render, an exit ends the task, the rest is left to GTK.
pub fn gtk_loop_action(msg: RenderMsg) -> (action: GtkLoopAction)
    ensures
        action == spec_gtk_loop_action(msg),
{
    match msg {
        RenderMsg::Resize { .. } => GtkLoopAction::Ignore,
        RenderMsg::Paint => GtkLoopAction::QueueRender,
        RenderMsg::Suspend | RenderMsg::Resume => GtkLoopAction::Ignore,
        RenderMsg::Exit => GtkLoopAction::Stop,
    }
}

} // verus!

verus! {

/// A resize of any size is left to GTK; the task stops exactly on an exit
/// and queues a render exactly on a paint request.
pub proof fn lemma_gtk_loop_reactions(msg: RenderMsg, width: u32, height: u32)
    ensures
        spec_gtk_loop_action(RenderMsg::Resize { width, height }) == GtkLoopAction::Ignore,
        (spec_gtk_loop_action(msg) == GtkLoopAction::Stop) <==> (msg == RenderMsg::Exit),
        (spec_gtk_loop_action(msg) == GtkLoopAction::QueueRender) <==> (msg == RenderMsg::Paint),
        (spec_gtk_loop_action(msg) == GtkLoopAction::Ignore) <==> (msg != RenderMsg::Exit && msg
            != RenderMsg::Paint),
{
}

} // verus!
