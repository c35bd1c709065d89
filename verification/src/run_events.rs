use vstd::prelude::*;
use crate::render_msg::RenderMsg;

verus! {

/// The events of the application's run loop that the renderer reacts to,
/// each with the data that the reaction reads.
#[derive(Clone, Copy, Debug, PartialEq, Eq, Structural)]
pub enum RunEventKind {
    /// A window was resized to this size, in physical pixels.
    WindowResized { width: u32, height: u32 },
    /// A window gained (`true`) or lost (`false`) the focus.
    WindowFocused(bool),
    /// The application was resumed.
    Resumed,
    /// The run loop has handled all pending events.
    MainEventsCleared,
    /// The application was asked to exit.
    ExitRequested,
    /// The application is exiting.
    Exit,
    /// Any other event.
    Other,
}

/// A window dimension as the renderer receives it: a zero becomes one.
pub open spec fn spec_nonzero_dimension(x: u32) -> u32 {
    if x > 0 { x } else { 1 }
}

/// Replaces a zero window dimension by one; the renderer never gets an
/// empty surface size.
pub fn nonzero_dimension(x: u32) -> (d: u32)
    ensures
        d == spec_nonzero_dimension(x),
{
    if x > 0 { x } else { 1 }
}

/// The messages that an event sends to the render loop, in order.
pub open spec fn spec_messages_for(event: RunEventKind) -> Seq<RenderMsg> {
    match event {
        RunEventKind::WindowResized { width, height } => seq![
            RenderMsg::Resize {
                width: spec_nonzero_dimension(width),
                height: spec_nonzero_dimension(height),
            },
        ],
        RunEventKind::WindowFocused(focused) => if focused {
            seq![RenderMsg::Resume, RenderMsg::Paint]
        } else {
            seq![RenderMsg::Suspend]
        },
        RunEventKind::Resumed => seq![RenderMsg::Resume, RenderMsg::Paint],
        RunEventKind::MainEventsCleared => seq![RenderMsg::Paint],
        RunEventKind::ExitRequested => seq![RenderMsg::Exit],
        RunEventKind::Exit => seq![RenderMsg::Exit],
        RunEventKind::Other => Seq::empty(),
    }
}

/// The messages that `handle_run` sends: none while the render state has
/// not been registered yet.
pub open spec fn spec_handle_run(event: RunEventKind, render_state_present: bool) -> Seq<
    RenderMsg,
> {
    if render_state_present {
        spec_messages_for(event)
    } else {
        Seq::empty()
    }
}

/// The messages that one event sends to the render loop, in order.
pub fn messages_for(event: &RunEventKind) -> (msgs: Vec<RenderMsg>)
    ensures
        msgs@ == spec_messages_for(*event),
{
    let mut msgs: Vec<RenderMsg> = Vec::new();
    match event {
        RunEventKind::WindowResized { width, height } => {
            let w: u32 = nonzero_dimension(*width);
            let h: u32 = nonzero_dimension(*height);
            msgs.push(RenderMsg::Resize { width: w, height: h });
        },
        RunEventKind::WindowFocused(focused) => {
            if *focused {
                msgs.push(RenderMsg::Resume);
                msgs.push(RenderMsg::Paint);
            } else {
                msgs.push(RenderMsg::Suspend);
            }
        },
        RunEventKind::Resumed => {
            msgs.push(RenderMsg::Resume);
            msgs.push(RenderMsg::Paint);
        },
        RunEventKind::MainEventsCleared => {
            msgs.push(RenderMsg::Paint);
        },
        RunEventKind::ExitRequested => {
            msgs.push(RenderMsg::Exit);
        },
        RunEventKind::Exit => {
            msgs.push(RenderMsg::Exit);
        },
        RunEventKind::Other => {},
    }
    assert(msgs@ =~= spec_messages_for(*event));
    msgs
}

/// The reaction of the run loop to one event: the messages to send to the
/// render loop, in order, given whether the render state is registered.
pub fn handle_run(event: &RunEventKind, render_state_present: bool) -> (msgs: Vec<RenderMsg>)
    ensures
        msgs@ == spec_handle_run(*event, render_state_present),
{
    if render_state_present {
        messages_for(event)
    } else {
        Vec::new()
    }
}

/// Every size that reaches the render loop is at least one pixel wide and
/// high.
pub proof fn lemma_resize_messages_are_nonzero(event: RunEventKind, render_state_present: bool)
    ensures
        forall|i: int|
            0 <= i < spec_handle_run(event, render_state_present).len()
                ==> match #[trigger] spec_handle_run(event, render_state_present)[i] {
                RenderMsg::Resize { width, height } => width >= 1 && height >= 1,
                _ => true,
            },
{
}

/// A `Resume` is always followed at once by a `Paint`: a window that comes
/// back is painted.
pub proof fn lemma_resume_is_followed_by_paint(event: RunEventKind, render_state_present: bool)
    ensures
        forall|i: int|
            0 <= i < spec_handle_run(event, render_state_present).len()
                && #[trigger] spec_handle_run(event, render_state_present)[i] == RenderMsg::Resume
                ==> i + 1 < spec_handle_run(event, render_state_present).len()
                && spec_handle_run(event, render_state_present)[i + 1] == RenderMsg::Paint,
{
}

/// `Exit` is sent exactly for the two exit events, and alone.
pub proof fn lemma_exit_only_on_exit_events(event: RunEventKind)
    ensures
        spec_messages_for(event).contains(RenderMsg::Exit) <==> (event == RunEventKind::ExitRequested
            || event == RunEventKind::Exit),
        spec_messages_for(event).contains(RenderMsg::Exit) ==> spec_messages_for(event) =~= seq![
            RenderMsg::Exit,
        ],
{
    if !(event == RunEventKind::ExitRequested || event == RunEventKind::Exit) {
        assert(!spec_messages_for(event).contains(RenderMsg::Exit)) by {
            let s = spec_messages_for(event);
            assert forall|i: int| 0 <= i < s.len() implies s[i] != RenderMsg::Exit by {}
        }
    } else {
        assert(spec_messages_for(event)[0] == RenderMsg::Exit);
    }
}

/// Gaining the focus and being resumed have the same effect.
pub proof fn lemma_focus_gain_is_resume(render_state_present: bool)
    ensures
        spec_handle_run(RunEventKind::WindowFocused(true), render_state_present) == spec_handle_run(
            RunEventKind::Resumed,
            render_state_present,
        ),
{
}

} // verus!

verus! {

/// A resize event always sends exactly one `Resize`, carrying the window's
/// size with each zero dimension raised to one.
pub proof fn lemma_resize_event_sends_one_resize(width: u32, height: u32)
    ensures
        spec_messages_for(RunEventKind::WindowResized { width, height }).len() == 1,
        spec_messages_for(RunEventKind::WindowResized { width, height })[0] == (RenderMsg::Resize {
            width: if width > 0 { width } else { 1 },
            height: if height > 0 { height } else { 1 },
        }),
        spec_handle_run(RunEventKind::WindowResized { width, height }, true) =~= seq![
            RenderMsg::Resize {
                width: if width > 0 { width } else { 1 },
                height: if height > 0 { height } else { 1 },
            },
        ],
{
}

/// What each other event sends: a focus gain and a resume ask to resume and
/// then paint, a focus loss suspends, a cleared event queue paints, both
/// exit events exit, and anything else sends nothing; without render state
/// nothing is sent at all.
pub proof fn lemma_event_messages(event: RunEventKind)
    ensures
        spec_handle_run(event, false).len() == 0,
        (event == RunEventKind::WindowFocused(true) || event == RunEventKind::Resumed) ==> (
        spec_handle_run(event, true).len() == 2 && spec_handle_run(event, true)[0]
            == RenderMsg::Resume && spec_handle_run(event, true)[1] == RenderMsg::Paint),
        event == RunEventKind::WindowFocused(false) ==> (spec_handle_run(event, true).len() == 1
            && spec_handle_run(event, true)[0] == RenderMsg::Suspend),
        event == RunEventKind::MainEventsCleared ==> (spec_handle_run(event, true).len() == 1
            && spec_handle_run(event, true)[0] == RenderMsg::Paint),
        (event == RunEventKind::ExitRequested || event == RunEventKind::Exit) ==> (spec_handle_run(
            event,
            true,
        ).len() == 1 && spec_handle_run(event, true)[0] == RenderMsg::Exit),
        event == RunEventKind::Other ==> spec_handle_run(event, true).len() == 0,
{
}

} // verus!
