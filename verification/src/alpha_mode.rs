use vstd::prelude::*;

verus! {

/// How the compositor blends the surface's alpha channel with what lies
/// beneath it.
#[derive(Clone, Copy, Debug, PartialEq, Eq, Structural)]
pub enum AlphaMode {
    /// Chosen by the graphics backend.
    Auto,
    /// Alpha is ignored.
    Opaque,
    /// Colours are multiplied by alpha by the application.
    PreMultiplied,
    /// Colours are multiplied by alpha by the compositor.
    PostMultiplied,
    /// Left to the platform's native windowing system.
    Inherit,
}

/// The mode chosen among those the surface offers: premultiplied if it is
/// offered, else postmultiplied if it is offered, else the first one.
pub open spec fn spec_choose_alpha_mode(modes: Seq<AlphaMode>) -> AlphaMode {
    if modes.contains(AlphaMode::PreMultiplied) {
        AlphaMode::PreMultiplied
    } else if modes.contains(AlphaMode::PostMultiplied) {
        AlphaMode::PostMultiplied
    } else {
        modes[0]
    }
}

/// Whether `mode` is among `modes`.
pub fn offers_alpha_mode(modes: &Vec<AlphaMode>, mode: AlphaMode) -> (offered: bool)
    ensures
        offered == modes@.contains(mode),
{
    let n: usize = modes.len();
    for i in 0..n
        invariant
            n == modes@.len(),
            forall|j: int| 0 <= j < i ==> modes@[j] != mode,
    {
        if modes[i] == mode {
            return true;
        }
    }
    false
}

/// Chooses the alpha mode of the surface so that the web view stays
/// visible through the transparent parts of the canvas.
pub fn choose_alpha_mode(modes: &Vec<AlphaMode>) -> (mode: AlphaMode)
    requires
        modes@.len() > 0,
    ensures
        mode == spec_choose_alpha_mode(modes@),
{
    if offers_alpha_mode(modes, AlphaMode::PreMultiplied) {
        AlphaMode::PreMultiplied
    } else if offers_alpha_mode(modes, AlphaMode::PostMultiplied) {
        AlphaMode::PostMultiplied
    } else {
        modes[0]
    }
}

/// The chosen mode is always one that the surface offers, and a blending
/// mode is preferred over any other whenever one is offered.
pub proof fn lemma_chosen_mode_is_offered(modes: Seq<AlphaMode>)
    requires
        modes.len() > 0,
    ensures
        modes.contains(spec_choose_alpha_mode(modes)),
        (modes.contains(AlphaMode::PreMultiplied) || modes.contains(AlphaMode::PostMultiplied))
            ==> (spec_choose_alpha_mode(modes) == AlphaMode::PreMultiplied
            || spec_choose_alpha_mode(modes) == AlphaMode::PostMultiplied),
{
    if !modes.contains(AlphaMode::PreMultiplied) && !modes.contains(AlphaMode::PostMultiplied) {
        assert(modes[0] == modes[0]);
    }
}

} // verus!

verus! {

/// Premultiplied is chosen whenever it is offered; postmultiplied only when
/// premultiplied is not offered and postmultiplied is; with neither offered,
/// the first offered mode.
pub proof fn lemma_alpha_mode_preference(modes: Seq<AlphaMode>)
    requires
        modes.len() > 0,
    ensures
        modes.contains(AlphaMode::PreMultiplied) ==> spec_choose_alpha_mode(modes)
            == AlphaMode::PreMultiplied,
        spec_choose_alpha_mode(modes) == AlphaMode::PostMultiplied ==> (!modes.contains(
            AlphaMode::PreMultiplied) && modes.contains(AlphaMode::PostMultiplied)),
        (!modes.contains(AlphaMode::PreMultiplied) && modes.contains(AlphaMode::PostMultiplied))
            ==> spec_choose_alpha_mode(modes) == AlphaMode::PostMultiplied,
        (!modes.contains(AlphaMode::PreMultiplied) && !modes.contains(AlphaMode::PostMultiplied))
            ==> spec_choose_alpha_mode(modes) == modes[0],
{
}

} // verus!
