use vstd::prelude::*;

verus! {

/// How many times the plugin's surface is looked for before giving up.
pub const SURFACE_POLL_LIMIT: u32 = 50;

/// The pause between two looks, in milliseconds.
pub const SURFACE_POLL_INTERVAL_MS: u64 = 100;

/// What to do after one look for the mobile surface.
#[derive(Clone, Copy, Debug, PartialEq, Eq, Structural)]
pub enum SurfacePollAction {
    /// The surface was found: use it.
    UseSurface,
    /// Not found yet: pause, then look again.
    SleepThenRetry,
    /// Not found on the last allowed look: pause, then fail with
    /// `SurfaceError::TimedOut`.
    SleepThenGiveUp,
}

/// The wait for the surface that the platform side of the plugin publishes.
#[derive(Clone, Copy, Debug, PartialEq, Eq, Structural)]
pub struct SurfacePoll {
    attempts: u32,
}

/// The action after a look, given how many looks have been made with this
/// one and whether it found the surface.
pub open spec fn spec_poll_action(attempts_made: u32, found: bool) -> SurfacePollAction {
    if found {
        SurfacePollAction::UseSurface
    } else if attempts_made < SURFACE_POLL_LIMIT {
        SurfacePollAction::SleepThenRetry
    } else {
        SurfacePollAction::SleepThenGiveUp
    }
}

impl SurfacePoll {
    /// How many looks have been made.
    pub closed spec fn attempts_made(self) -> u32 {
        self.attempts
    }

    /// A wait in which no look has been made yet.
    pub fn new() -> (p: SurfacePoll)
        ensures
            p.attempts_made() == 0,
    {
        SurfacePoll { attempts: 0 }
    }

    /// How many looks have been made.
    pub fn attempts(&self) -> (n: u32)
        ensures
            n == self.attempts_made(),
    {
        self.attempts
    }

    /// Records one look, found or not, and says what to do next.
    pub fn record_attempt(&mut self, found: bool) -> (action: SurfacePollAction)
        requires
            old(self).attempts_made() < SURFACE_POLL_LIMIT,
        ensures
            final(self).attempts_made() == old(self).attempts_made() + 1,
            action == spec_poll_action(final(self).attempts_made(), found),
    {
        self.attempts = self.attempts + 1;
        if found {
            SurfacePollAction::UseSurface
        } else if self.attempts < SURFACE_POLL_LIMIT {
            SurfacePollAction::SleepThenRetry
        } else {
            SurfacePollAction::SleepThenGiveUp
        }
    }
}

/// The wait never outlasts its limit: a look that is allowed is followed by
/// another only while fewer than the limit have been made, and the last
/// allowed look that fails gives up.
pub proof fn lemma_poll_is_bounded(attempts_made: u32, found: bool)
    requires
        1 <= attempts_made <= SURFACE_POLL_LIMIT,
    ensures
        spec_poll_action(attempts_made, found) == SurfacePollAction::SleepThenRetry
            ==> attempts_made < SURFACE_POLL_LIMIT,
        (attempts_made == SURFACE_POLL_LIMIT && !found) ==> spec_poll_action(attempts_made, found)
            == SurfacePollAction::SleepThenGiveUp,
        found ==> spec_poll_action(attempts_made, found) == SurfacePollAction::UseSurface,
{
}

/// Why no surface could be made.
#[derive(Clone, Copy, Debug, PartialEq, Eq, Structural)]
pub enum SurfaceError {
    /// The plugin published no surface within the allowed looks.
    TimedOut,
    /// The published surface gave no native window.
    NoNativeWindow,
}

/// The message that reports an error.
pub open spec fn spec_surface_error_message(e: SurfaceError) -> Seq<char> {
    match e {
        SurfaceError::TimedOut => "Timed out waiting for Android Surface"@,
        SurfaceError::NoNativeWindow => "Failed to create native window from surface"@,
    }
}

impl SurfaceError {
    /// The message that reports this error.
    pub fn message(&self) -> (text: String)
        ensures
            text@ == spec_surface_error_message(*self),
    {
        match self {
            SurfaceError::TimedOut => String::from_str("Timed out waiting for Android Surface"),
            SurfaceError::NoNativeWindow => String::from_str(
                "Failed to create native window from surface",
            ),
        }
    }
}

} // verus!

verus! {

/// A found surface is always used; a miss is retried after a pause on each
/// of the first 49 looks and gives up after a pause on the 50th.
pub proof fn lemma_poll_retries_until_limit(attempts_made: u32, found: bool)
    requires
        1 <= attempts_made <= 50,
    ensures
        found ==> spec_poll_action(attempts_made, found) == SurfacePollAction::UseSurface,
        (!found && attempts_made < 50) ==> spec_poll_action(attempts_made, found)
            == SurfacePollAction::SleepThenRetry,
        (!found && attempts_made == 50) ==> spec_poll_action(attempts_made, found)
            == SurfacePollAction::SleepThenGiveUp,
{
}

} // verus!
