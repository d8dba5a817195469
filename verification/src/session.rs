//! The shared session cell: what the polling thread publishes and what
//! consumers read.  The cell itself is plain data; the surrounding
//! process wraps it in whatever synchronization it uses and calls these
//! methods while holding exclusive access.

use vstd::prelude::*;
use crate::gamepad::{
    GamepadState, GamepadUpdateState, spec_is_fetch, spec_is_update, STALENESS_WINDOW_MS,
};
use crate::protocol::SteamDeckStatePacket;

verus! {

/// Everything shared between the polling thread and consumers: the run
/// flag, the device-presence flag, and the aggregated snapshot state.
#[derive(Copy, Clone, Debug)]
pub struct SessionState {
    /// True while the session should keep polling; cleared to ask the
    /// poll loop to exit.
    pub run: bool,
    /// True exactly while the supervisor holds an open device handle.
    pub found: bool,
    /// The aggregator: latest snapshot plus latch/staleness bookkeeping.
    pub state: GamepadUpdateState,
}

/// Everything a consumer-side fetch does to the session: the flags are
/// untouched; with no device present nothing changes and nothing is
/// returned; with a device present the aggregator's fetch runs.
pub open spec fn spec_is_session_fetch(
    pre: SessionState,
    post: SessionState,
    r: Option<GamepadState>,
    now_ms: u64,
) -> bool {
    &&& post.run == pre.run
    &&& post.found == pre.found
    &&& !pre.found ==> r is None && post == pre
    &&& pre.found ==> spec_is_fetch(pre.state, post.state, r, now_ms)
}

impl SessionState {
    /// A fresh session: running, no device yet, all-clear snapshot
    /// stamped with the construction time.
    pub fn new(now_ms: u64) -> (s: SessionState)
        ensures
            s.run == true,
            s.found == false,
            forall|i: int| 0 <= i < 22 ==> s.state.gamepad.buttons@[i] == 0,
            forall|i: int| 0 <= i < 6 ==> s.state.gamepad.axes@[i] == 0,
            s.state.last_update_time_ms == now_ms,
            s.state.fetched == false,
    {
        SessionState { run: true, found: false, state: GamepadUpdateState::new(now_ms) }
    }

    /// The consumer-side accessor: no data unless a device is present,
    /// otherwise the aggregator's fetch with its staleness check.
    pub fn fetch(&mut self, now_ms: u64) -> (r: Option<GamepadState>)
        ensures
            spec_is_session_fetch(*old(self), *final(self), r, now_ms),
    {
        if self.found {
            self.state.fetch(now_ms)
        } else {
            None
        }
    }

    /// The producer side: fold one decoded packet into the snapshot.
    pub fn apply_update(&mut self, p: &SteamDeckStatePacket, now_ms: u64)
        ensures
            final(self).run == old(self).run,
            final(self).found == old(self).found,
            spec_is_update(old(self).state, final(self).state, *p, now_ms),
    {
        self.state.update(p, now_ms)
    }
}

/// Staleness at the session interface: with a device present but no
/// update inside the staleness window, a fetch yields no data while the
/// presence flag stays set.
pub proof fn lemma_stale_fetch_no_data(
    pre: SessionState,
    post: SessionState,
    r: Option<GamepadState>,
    now_ms: u64,
)
    requires
        spec_is_session_fetch(pre, post, r, now_ms),
        pre.found,
        now_ms >= pre.state.last_update_time_ms + STALENESS_WINDOW_MS,
    ensures
        r is None,
        post.found,
{
}

/// Absence at the session interface: with no device present a fetch
/// yields no data and leaves the session untouched, whenever it is
/// called.
pub proof fn lemma_absent_fetch_no_data(
    pre: SessionState,
    post: SessionState,
    r: Option<GamepadState>,
    now_ms: u64,
)
    requires
        spec_is_session_fetch(pre, post, r, now_ms),
        !pre.found,
    ensures
        r is None,
        post == pre,
{
}

} // verus!
