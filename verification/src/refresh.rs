use vstd::prelude::*;

verus! {

/// Shortest time between two updates of the panel, in milliseconds. The
/// panel is slow, and every update wears on it.
pub const MIN_UPDATE_INTERVAL_MS: u64 = 2000;

/// Pause after every turn of the event loop, in milliseconds.
pub const LOOP_PAUSE_MS: u64 = 100;

/// Further pause after a turn in which nothing is animated, in
/// milliseconds.
pub const IDLE_PAUSE_MS: u64 = 500;

/// What to do with a frame that was just rendered.
#[derive(Clone, Copy, Debug, PartialEq, Eq, Structural)]
pub enum RefreshAction {
    /// Send the frame to the panel.
    Update,
    /// Keep the frame back: the panel was updated too recently.
    Skip,
}

/// Holds updates of the panel apart in time.
#[derive(Clone, Copy, Debug, PartialEq, Eq, Structural)]
pub struct RefreshTimer {
    /// When the panel was last updated, in milliseconds since the start.
    pub last_update_ms: u64,
}

impl RefreshTimer {
    /// Time that has passed at `now_ms` since the last update; none if
    /// `now_ms` lies before it.
    pub open spec fn elapsed(self, now_ms: u64) -> int {
        if now_ms >= self.last_update_ms {
            now_ms - self.last_update_ms
        } else {
            0
        }
    }

    /// What is done with a frame rendered at `now_ms`.
    pub open spec fn spec_frame_rendered(self, now_ms: u64) -> RefreshAction {
        if self.elapsed(now_ms) > MIN_UPDATE_INTERVAL_MS {
            RefreshAction::Update
        } else {
            RefreshAction::Skip
        }
    }

    /// A timer for an event loop that starts at `now_ms`.
    pub fn new(now_ms: u64) -> (timer: RefreshTimer)
        ensures
            timer.last_update_ms == now_ms,
    {
        RefreshTimer { last_update_ms: now_ms }
    }

    /// Decides what to do with a frame rendered at `now_ms`: it goes to the
    /// panel only if more than the shortest interval has passed since the
    /// last update.
    #[verifier::when_used_as_spec(spec_frame_rendered)]
    pub fn frame_rendered(self, now_ms: u64) -> (action: RefreshAction)
        ensures
            action == self.spec_frame_rendered(now_ms),
    {
        if now_ms >= self.last_update_ms && now_ms - self.last_update_ms > MIN_UPDATE_INTERVAL_MS {
            RefreshAction::Update
        } else {
            RefreshAction::Skip
        }
    }

    /// Records that the panel was updated at `now_ms`. An update that
    /// failed is not recorded, so that the next frame is tried again.
    pub fn display_updated(&mut self, now_ms: u64)
        ensures
            final(self).last_update_ms == now_ms,
    {
        self.last_update_ms = now_ms;
    }
}

/// How long the event loop pauses after a turn: longer when nothing is
/// animated.
pub fn loop_pause_ms(animating: bool) -> (pause: u64)
    ensures
        animating ==> pause == LOOP_PAUSE_MS,
        !animating ==> pause == LOOP_PAUSE_MS + IDLE_PAUSE_MS,
{
    if animating {
        LOOP_PAUSE_MS
    } else {
        LOOP_PAUSE_MS + IDLE_PAUSE_MS
    }
}

/// Right after an update, every frame is kept back until the interval has
/// passed; once it has, the next frame goes to the panel.
pub proof fn lemma_updates_are_spaced(timer: RefreshTimer, updated_ms: u64, now_ms: u64)
    requires
        timer.last_update_ms == updated_ms,
    ensures
        timer.spec_frame_rendered(now_ms) == RefreshAction::Update <==> now_ms - updated_ms
            > MIN_UPDATE_INTERVAL_MS,
{
}

} // verus!
