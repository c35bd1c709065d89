use vstd::prelude::*;
use crate::render_msg::RenderMsg;

verus! {

/// One piece of outside work that the render thread performs for a message.
#[derive(Clone, Copy, Debug, PartialEq, Eq, Structural)]
pub enum RenderAction {
    /// Configure the surface for this size.
    ConfigureSurface { width: u32, height: u32 },
    /// Give the canvas this size, at a device pixel ratio of one.
    ResizeCanvas { width: u32, height: u32 },
    /// Take the surface's current texture, draw the scene into it and
    /// present it; a frame whose texture cannot be had is skipped.
    DrawFrame,
    /// Release the surface.
    DropSurface,
    /// Create a new surface and configure it for this size; the outcome is
    /// handed back to `surface_recreated`.
    RecreateSurface { width: u32, height: u32 },
    /// Leave the render loop.
    Stop,
}

/// The state of the render thread between two messages.
#[derive(Clone, Copy, Debug, PartialEq, Eq, Structural)]
pub struct RenderLoopState {
    /// Width of the surface configuration.
    pub width: u32,
    /// Height of the surface configuration.
    pub height: u32,
    /// Whether the thread holds a surface.
    pub surface_present: bool,
    /// Whether the platform takes the surface away in the background (as
    /// Android does), so that it is dropped on suspend and made anew on
    /// resume.
    pub recreates_surface: bool,
}

/// The state at the start of the loop: a configured surface of this size.
pub open spec fn spec_initial(width: u32, height: u32, recreates_surface: bool) -> RenderLoopState {
    RenderLoopState { width, height, surface_present: true, recreates_surface }
}

/// The next state and the actions, in order, for one message.
pub open spec fn spec_step(s: RenderLoopState, msg: RenderMsg) -> (RenderLoopState, Seq<
    RenderAction,
>) {
    match msg {
        RenderMsg::Resize { width, height } => {
            let configure = if s.surface_present {
                seq![RenderAction::ConfigureSurface { width, height }]
            } else {
                Seq::empty()
            };
            (
                RenderLoopState { width, height, ..s },
                configure.push(RenderAction::ResizeCanvas { width, height }),
            )
        },
        RenderMsg::Paint => (
            s,
            if s.surface_present {
                seq![RenderAction::DrawFrame]
            } else {
                Seq::empty()
            },
        ),
        RenderMsg::Suspend => if s.recreates_surface {
            (RenderLoopState { surface_present: false, ..s }, seq![RenderAction::DropSurface])
        } else {
            (s, Seq::empty())
        },
        RenderMsg::Resume => if s.recreates_surface && !s.surface_present {
            (s, seq![RenderAction::RecreateSurface { width: s.width, height: s.height }])
        } else {
            (s, Seq::empty())
        },
        RenderMsg::Exit => (s, seq![RenderAction::Stop]),
    }
}

impl RenderLoopState {
    /// The state at the start of the loop, with a surface configured for
    /// `width` by `height`.
    pub fn new(width: u32, height: u32, recreates_surface: bool) -> (s: RenderLoopState)
        ensures
            s == spec_initial(width, height, recreates_surface),
    {
        RenderLoopState { width, height, surface_present: true, recreates_surface }
    }

    /// Reacts to one message: updates the state and returns the actions to
    /// perform, in order.
    pub fn step(&mut self, msg: RenderMsg) -> (actions: Vec<RenderAction>)
        ensures
            (*final(self), actions@) == spec_step(*old(self), msg),
    {
        let mut actions: Vec<RenderAction> = Vec::new();
        match msg {
            RenderMsg::Resize { width, height } => {
                self.width = width;
                self.height = height;
                if self.surface_present {
                    actions.push(RenderAction::ConfigureSurface { width, height });
                }
                actions.push(RenderAction::ResizeCanvas { width, height });
            },
            RenderMsg::Paint => {
                if self.surface_present {
                    actions.push(RenderAction::DrawFrame);
                }
            },
            RenderMsg::Suspend => {
                if self.recreates_surface {
                    self.surface_present = false;
                    actions.push(RenderAction::DropSurface);
                }
            },
            RenderMsg::Resume => {
                if self.recreates_surface && !self.surface_present {
                    actions.push(
                        RenderAction::RecreateSurface { width: self.width, height: self.height },
                    );
                }
            },
            RenderMsg::Exit => {
                actions.push(RenderAction::Stop);
            },
        }
        assert(actions@ =~= spec_step(*old(self), msg).1);
        actions
    }

    /// Records the outcome of a `RecreateSurface` action: the thread holds a
    /// surface afterwards exactly when the creation succeeded.
    pub fn surface_recreated(&mut self, created: bool)
        ensures
            *final(self) == (RenderLoopState { surface_present: created, ..*old(self) }),
    {
        self.surface_present = created;
    }
}

/// Only a resize changes the surface configuration, and it sets it to the
/// new size; the canvas always gets that same size.
pub proof fn lemma_resize_sets_size(s: RenderLoopState, msg: RenderMsg)
    ensures
        match msg {
            RenderMsg::Resize { width, height } => {
                &&& spec_step(s, msg).0.width == width
                &&& spec_step(s, msg).0.height == height
                &&& spec_step(s, msg).1.last() == (RenderAction::ResizeCanvas { width, height })
            },
            _ => spec_step(s, msg).0.width == s.width && spec_step(s, msg).0.height == s.height,
        },
{
}

/// A frame is drawn only on a surface that the thread holds, and on every
/// such surface when painting is asked for; painting changes no state.
pub proof fn lemma_draw_needs_surface(s: RenderLoopState, msg: RenderMsg)
    ensures
        spec_step(s, msg).1.contains(RenderAction::DrawFrame) <==> (msg == RenderMsg::Paint
            && s.surface_present),
        msg == RenderMsg::Paint ==> spec_step(s, msg).0 == s,
{
    let acts = spec_step(s, msg).1;
    if msg == RenderMsg::Paint && s.surface_present {
        assert(acts[0] == RenderAction::DrawFrame);
    } else {
        assert forall|i: int| 0 <= i < acts.len() implies acts[i] != RenderAction::DrawFrame by {}
    }
}

/// On a platform that keeps its surface, the surface is never lost.
pub proof fn lemma_kept_surface_stays(s: RenderLoopState, msg: RenderMsg)
    requires
        !s.recreates_surface,
        s.surface_present,
    ensures
        !spec_step(s, msg).0.recreates_surface,
        spec_step(s, msg).0.surface_present,
{
}

/// Background and foreground again: the surface is dropped, then made anew
/// for the configured size, and once made the state is what it was before.
pub proof fn lemma_suspend_resume_round_trip(s: RenderLoopState)
    requires
        s.recreates_surface,
        s.surface_present,
    ensures
        ({
            let suspended = spec_step(s, RenderMsg::Suspend).0;
            let resumed = spec_step(suspended, RenderMsg::Resume);
            &&& !suspended.surface_present
            &&& resumed.1 =~= seq![RenderAction::RecreateSurface { width: s.width, height: s.height }]
            &&& (RenderLoopState { surface_present: true, ..resumed.0 }) == s
        }),
{
}

/// A resume while the surface is held does nothing.
pub proof fn lemma_resume_with_surface_is_noop(s: RenderLoopState)
    requires
        s.surface_present,
    ensures
        spec_step(s, RenderMsg::Resume) == (s, Seq::<RenderAction>::empty()),
{
}

/// An exit ends the loop and changes nothing else.
pub proof fn lemma_exit_stops(s: RenderLoopState)
    ensures
        spec_step(s, RenderMsg::Exit) == (s, seq![RenderAction::Stop]),
        forall|m: RenderMsg|
            m != RenderMsg::Exit ==> !(#[trigger] spec_step(s, m).1).contains(RenderAction::Stop),
{
    assert forall|m: RenderMsg| m != RenderMsg::Exit implies !(#[trigger] spec_step(s, m).1).contains(
        RenderAction::Stop,
    ) by {
        let acts = spec_step(s, m).1;
        assert forall|i: int| 0 <= i < acts.len() implies acts[i] != RenderAction::Stop by {}
    }
}

} // verus!

verus! {

/// A resize reconfigures the surface exactly when one is held, on every
/// platform, and always resizes the canvas, in that order.
pub proof fn lemma_resize_actions(s: RenderLoopState, width: u32, height: u32)
    ensures
        s.surface_present ==> spec_step(s, RenderMsg::Resize { width, height }).1 =~= seq![
            RenderAction::ConfigureSurface { width, height },
            RenderAction::ResizeCanvas { width, height },
        ],
        !s.surface_present ==> spec_step(s, RenderMsg::Resize { width, height }).1 =~= seq![
            RenderAction::ResizeCanvas { width, height },
        ],
        spec_step(s, RenderMsg::Resize { width, height }).1.contains(
            RenderAction::ConfigureSurface { width, height },
        ) <==> s.surface_present,
        spec_step(s, RenderMsg::Resize { width, height }).0.surface_present == s.surface_present,
        spec_step(s, RenderMsg::Resize { width, height }).0.recreates_surface
            == s.recreates_surface,
{
    let acts = spec_step(s, RenderMsg::Resize { width, height }).1;
    if s.surface_present {
        assert(acts[0] == RenderAction::ConfigureSurface { width, height });
    } else {
        assert(acts.len() == 1);
        assert(acts[0] != RenderAction::ConfigureSurface { width, height });
    }
}

/// Suspend and resume: a platform that keeps its surface does nothing on
/// either; one that loses it drops the surface on suspend, and on resume
/// asks for a new one at the configured size exactly when none is held.
pub proof fn lemma_lifecycle_actions(s: RenderLoopState)
    ensures
        !s.recreates_surface ==> spec_step(s, RenderMsg::Suspend) == (s, Seq::<
            RenderAction,
        >::empty()),
        !s.recreates_surface ==> spec_step(s, RenderMsg::Resume) == (s, Seq::<
            RenderAction,
        >::empty()),
        s.recreates_surface ==> spec_step(s, RenderMsg::Suspend).1 =~= seq![
            RenderAction::DropSurface,
        ],
        s.recreates_surface ==> !spec_step(s, RenderMsg::Suspend).0.surface_present,
        (s.recreates_surface && !s.surface_present) ==> spec_step(s, RenderMsg::Resume).1 =~= seq![
            RenderAction::RecreateSurface { width: s.width, height: s.height },
        ],
        spec_step(s, RenderMsg::Resume).0 == s,
        spec_step(s, RenderMsg::Paint).1 =~= (if s.surface_present {
            seq![RenderAction::DrawFrame]
        } else {
            Seq::<RenderAction>::empty()
        }),
{
}

} // verus!
