//! State aggregation: folding decoded deck-state packets into the
//! normalized snapshot handed to consumers.
//!
//! Axes are published as fixed-point values: a reading `v` stands for
//! the real number `v / 32767`, so the full stick range maps onto
//! [-32767, 32767] and a consumer dividing by [`AXIS_SCALE`] obtains the
//! conventional [-1, 1] range.  Button presses are edge-latched: a press
//! observed by one update stays reported until a consumer has fetched a
//! snapshot, so presses shorter than the polling interval are not lost.

use vstd::prelude::*;
use crate::protocol::{
    SteamDeckStatePacket, BUTTON_A, BUTTON_B, BUTTON_X, BUTTON_Y, BUTTON_LEFT_BUMPER,
    BUTTON_RIGHT_BUMPER, BUTTON_VIEW, BUTTON_MENU, BUTTON_QUICK_ACCESS, BUTTON_LEFT_STICK,
    BUTTON_RIGHT_STICK, BUTTON_DPAD_UP, BUTTON_DPAD_RIGHT, BUTTON_DPAD_DOWN, BUTTON_DPAD_LEFT,
    BUTTON_R4, BUTTON_R5, BUTTON_L4, BUTTON_L5, BUTTON_STEAM, BUTTON_LEFT_PAD, BUTTON_RIGHT_PAD,
};

verus! {

/// Number of tracked discrete buttons.
pub const BUTTON_COUNT: usize = 22;

/// Number of published axes: two sticks' x/y plus the two triggers.
pub const AXIS_COUNT: usize = 6;

/// Fixed-point denominator of the published axes: a stored value `v`
/// represents `v / 32767`, the maximum positive raw 16-bit reading.
pub const AXIS_SCALE: i32 = 32767;

/// A snapshot returned to a consumer is considered live only while the
/// last update happened within this window, in milliseconds.
pub const STALENESS_WINDOW_MS: u64 = 100;

/// The normalized public state: one byte-boolean per button and one
/// fixed-point value per axis.
#[derive(Copy, Clone, Debug, PartialEq, Eq)]
pub struct GamepadState {
    pub buttons: [u8; 22],
    pub axes: [i32; 6],
}

/// The aggregator: the latest snapshot together with the bookkeeping
/// that drives edge-latching and staleness.
#[derive(Copy, Clone, Debug, PartialEq, Eq)]
pub struct GamepadUpdateState {
    pub gamepad: GamepadState,
    pub last_update_time_ms: u64,
    pub fetched: bool,
}

/// The button bit tracked at snapshot index `i`.
pub open spec fn spec_button_mask(i: int) -> u64 {
    if i == 0 {
        BUTTON_A
    } else if i == 1 {
        BUTTON_B
    } else if i == 2 {
        BUTTON_X
    } else if i == 3 {
        BUTTON_Y
    } else if i == 4 {
        BUTTON_LEFT_BUMPER
    } else if i == 5 {
        BUTTON_RIGHT_BUMPER
    } else if i == 6 {
        BUTTON_VIEW
    } else if i == 7 {
        BUTTON_MENU
    } else if i == 8 {
        BUTTON_QUICK_ACCESS
    } else if i == 9 {
        BUTTON_LEFT_STICK
    } else if i == 10 {
        BUTTON_RIGHT_STICK
    } else if i == 11 {
        BUTTON_DPAD_UP
    } else if i == 12 {
        BUTTON_DPAD_RIGHT
    } else if i == 13 {
        BUTTON_DPAD_DOWN
    } else if i == 14 {
        BUTTON_DPAD_LEFT
    } else if i == 15 {
        BUTTON_R4
    } else if i == 16 {
        BUTTON_R5
    } else if i == 17 {
        BUTTON_L4
    } else if i == 18 {
        BUTTON_L5
    } else if i == 19 {
        BUTTON_STEAM
    } else if i == 20 {
        BUTTON_LEFT_PAD
    } else if i == 21 {
        BUTTON_RIGHT_PAD
    } else {
        0
    }
}

/// A stick reading divided by the maximum positive raw value and
/// clamped to [-1, 1], in fixed point: only the most negative raw value
/// is clamped, everything else is already in range.
pub open spec fn spec_stick_axis(raw: i16) -> i32 {
    if raw <= -32767 {
        -32767i32
    } else {
        raw as i32
    }
}

/// A vertical stick reading: normalized as [`spec_stick_axis`], then
/// sign-inverted so that "up" is positive.
pub open spec fn spec_stick_axis_inverted(raw: i16) -> i32 {
    if raw <= -32767 {
        32767i32
    } else {
        (0 - raw) as i32
    }
}

/// A trigger reading divided by the maximum positive raw value, clamped
/// to [0, 1], then rescaled to [-1, 1] via x*2-1, in fixed point.  The
/// rescaling intentionally halves the trigger resolution so a trigger
/// occupies a conventional full-axis range.
pub open spec fn spec_trigger_axis(raw: u16) -> i32 {
    if raw >= 32767 {
        32767i32
    } else {
        (2 * raw - 32767) as i32
    }
}

/// The byte-boolean published for one button: pressed if the new report
/// has the bit set, or if it was already reported pressed and no
/// consumer has fetched a snapshot since the last update.
pub open spec fn spec_latched(buttons: u64, mask: u64, prev: u8, fetched: bool) -> u8 {
    if buttons & mask != 0 || (prev != 0 && !fetched) {
        1u8
    } else {
        0u8
    }
}

/// A snapshot taken at `last_update_time_ms` is still live at `now_ms`.
/// A clock reading before the last update is treated as zero elapsed
/// time, as a monotonic clock never yields one.
pub open spec fn spec_fresh(last_update_time_ms: u64, now_ms: u64) -> bool {
    now_ms < last_update_time_ms || now_ms - last_update_time_ms < STALENESS_WINDOW_MS
}

/// Everything `update` does: how each published field of `post` is
/// determined by the decoded packet and the previous state `pre`.
pub open spec fn spec_is_update(
    pre: GamepadUpdateState,
    post: GamepadUpdateState,
    p: SteamDeckStatePacket,
    now_ms: u64,
) -> bool {
    &&& post.gamepad.axes@[0] == spec_stick_axis(p.left_stick_x)
    &&& post.gamepad.axes@[1] == spec_stick_axis_inverted(p.left_stick_y)
    &&& post.gamepad.axes@[2] == spec_stick_axis(p.right_stick_x)
    &&& post.gamepad.axes@[3] == spec_stick_axis_inverted(p.right_stick_y)
    &&& post.gamepad.axes@[4] == spec_trigger_axis(p.trigger_raw_l)
    &&& post.gamepad.axes@[5] == spec_trigger_axis(p.trigger_raw_r)
    &&& forall|i: int|
        0 <= i < 22 ==> post.gamepad.buttons@[i] == spec_latched(
            p.buttons,
            spec_button_mask(i),
            pre.gamepad.buttons@[i],
            pre.fetched,
        )
    &&& post.last_update_time_ms == now_ms
    &&& post.fetched == false
}

/// Everything `fetch` does: the snapshot is untouched, the fetched flag
/// is raised, and a snapshot is returned exactly while it is fresh.
pub open spec fn spec_is_fetch(
    pre: GamepadUpdateState,
    post: GamepadUpdateState,
    r: Option<GamepadState>,
    now_ms: u64,
) -> bool {
    &&& post.fetched == true
    &&& post.gamepad == pre.gamepad
    &&& post.last_update_time_ms == pre.last_update_time_ms
    &&& (r is Some <==> spec_fresh(pre.last_update_time_ms, now_ms))
    &&& (r is Some ==> r->Some_0 == pre.gamepad)
}

fn normalize_stick_axis(raw: i16) -> (v: i32)
    ensures
        v == spec_stick_axis(raw),
{
    if raw <= -32767 {
        -32767
    } else {
        raw as i32
    }
}

fn normalize_stick_axis_inverted(raw: i16) -> (v: i32)
    ensures
        v == spec_stick_axis_inverted(raw),
{
    if raw <= -32767 {
        32767
    } else {
        -(raw as i32)
    }
}

fn normalize_trigger_axis(raw: u16) -> (v: i32)
    ensures
        v == spec_trigger_axis(raw),
{
    if raw >= 32767 {
        32767
    } else {
        2 * (raw as i32) - 32767
    }
}

fn latch(buttons: u64, mask: u64, prev: u8, fetched: bool) -> (r: u8)
    ensures
        r == spec_latched(buttons, mask, prev, fetched),
{
    if buttons & mask != 0 || (prev != 0 && !fetched) {
        1
    } else {
        0
    }
}

impl GamepadState {
    /// The all-clear snapshot: every button released, every axis zero.
    pub fn new() -> (s: GamepadState)
        ensures
            forall|i: int| 0 <= i < 22 ==> s.buttons@[i] == 0,
            forall|i: int| 0 <= i < 6 ==> s.axes@[i] == 0,
    {
        GamepadState { buttons: [0u8; 22], axes: [0i32; 6] }
    }
}

impl Default for GamepadState {
    fn default() -> (s: GamepadState)
        ensures
            forall|i: int| 0 <= i < 22 ==> s.buttons@[i] == 0,
            forall|i: int| 0 <= i < 6 ==> s.axes@[i] == 0,
    {
        GamepadState::new()
    }
}

impl GamepadUpdateState {
    /// The aggregator as a session starts it: all-clear snapshot, not
    /// yet fetched, last update stamped with the construction time.
    pub fn new(now_ms: u64) -> (s: GamepadUpdateState)
        ensures
            forall|i: int| 0 <= i < 22 ==> s.gamepad.buttons@[i] == 0,
            forall|i: int| 0 <= i < 6 ==> s.gamepad.axes@[i] == 0,
            s.last_update_time_ms == now_ms,
            s.fetched == false,
    {
        GamepadUpdateState { gamepad: GamepadState::new(), last_update_time_ms: now_ms, fetched: false }
    }

    /// Fold one decoded packet into the snapshot: normalize the axes,
    /// latch the buttons against the previous snapshot, stamp the update
    /// time and mark the snapshot as not yet fetched.
    #[verifier::rlimit(100)]
    #[verifier::spinoff_prover]
    pub fn update(&mut self, new: &SteamDeckStatePacket, now_ms: u64)
        ensures
            spec_is_update(*old(self), *final(self), *new, now_ms),
    {
        let f = self.fetched;
        let b = self.gamepad.buttons;
        self.gamepad.axes = [
            normalize_stick_axis(new.left_stick_x),
            normalize_stick_axis_inverted(new.left_stick_y),
            normalize_stick_axis(new.right_stick_x),
            normalize_stick_axis_inverted(new.right_stick_y),
            normalize_trigger_axis(new.trigger_raw_l),
            normalize_trigger_axis(new.trigger_raw_r),
        ];
        self.gamepad.buttons = [
            latch(new.buttons, BUTTON_A, b[0], f),
            latch(new.buttons, BUTTON_B, b[1], f),
            latch(new.buttons, BUTTON_X, b[2], f),
            latch(new.buttons, BUTTON_Y, b[3], f),
            latch(new.buttons, BUTTON_LEFT_BUMPER, b[4], f),
            latch(new.buttons, BUTTON_RIGHT_BUMPER, b[5], f),
            latch(new.buttons, BUTTON_VIEW, b[6], f),
            latch(new.buttons, BUTTON_MENU, b[7], f),
            latch(new.buttons, BUTTON_QUICK_ACCESS, b[8], f),
            latch(new.buttons, BUTTON_LEFT_STICK, b[9], f),
            latch(new.buttons, BUTTON_RIGHT_STICK, b[10], f),
            latch(new.buttons, BUTTON_DPAD_UP, b[11], f),
            latch(new.buttons, BUTTON_DPAD_RIGHT, b[12], f),
            latch(new.buttons, BUTTON_DPAD_DOWN, b[13], f),
            latch(new.buttons, BUTTON_DPAD_LEFT, b[14], f),
            latch(new.buttons, BUTTON_R4, b[15], f),
            latch(new.buttons, BUTTON_R5, b[16], f),
            latch(new.buttons, BUTTON_L4, b[17], f),
            latch(new.buttons, BUTTON_L5, b[18], f),
            latch(new.buttons, BUTTON_STEAM, b[19], f),
            latch(new.buttons, BUTTON_LEFT_PAD, b[20], f),
            latch(new.buttons, BUTTON_RIGHT_PAD, b[21], f),
        ];
        self.last_update_time_ms = now_ms;
        self.fetched = false;
    }

    /// Hand out the current snapshot if it is still fresh, and remember
    /// that a consumer has seen it (which lets the next update release
    /// latched buttons).  A stale snapshot yields nothing even though
    /// the fetched flag is still raised.
    pub fn fetch(&mut self, now_ms: u64) -> (r: Option<GamepadState>)
        ensures
            spec_is_fetch(*old(self), *final(self), r, now_ms),
    {
        self.fetched = true;
        let elapsed = if now_ms >= self.last_update_time_ms {
            now_ms - self.last_update_time_ms
        } else {
            0
        };
        if elapsed < STALENESS_WINDOW_MS {
            Some(self.gamepad)
        } else {
            None
        }
    }
}

/// Button latch law.  A press observed by an update survives a
/// following update that no longer sees the bit, as long as no consumer
/// fetched in between; the fetch then still reports the button pressed;
/// and once a fetch has happened, the next update without the bit
/// releases the button.
pub proof fn lemma_button_latch(
    s0: GamepadUpdateState,
    s1: GamepadUpdateState,
    s2: GamepadUpdateState,
    s3: GamepadUpdateState,
    s4: GamepadUpdateState,
    p1: SteamDeckStatePacket,
    p2: SteamDeckStatePacket,
    p3: SteamDeckStatePacket,
    t1: u64,
    t2: u64,
    tf: u64,
    t3: u64,
    r: Option<GamepadState>,
    i: int,
)
    requires
        0 <= i < 22,
        spec_is_update(s0, s1, p1, t1),
        p1.buttons & spec_button_mask(i) != 0,
        spec_is_update(s1, s2, p2, t2),
        p2.buttons & spec_button_mask(i) == 0,
        spec_is_fetch(s2, s3, r, tf),
        spec_is_update(s3, s4, p3, t3),
        p3.buttons & spec_button_mask(i) == 0,
    ensures
        s1.gamepad.buttons@[i] == 1,
        s2.gamepad.buttons@[i] == 1,
        r is Some ==> r->Some_0.buttons@[i] == 1,
        s4.gamepad.buttons@[i] == 0,
{
}

/// Staleness law: once the staleness window has passed without an
/// update, a fetch yields nothing.
pub proof fn lemma_staleness(
    pre: GamepadUpdateState,
    post: GamepadUpdateState,
    r: Option<GamepadState>,
    now_ms: u64,
)
    requires
        spec_is_fetch(pre, post, r, now_ms),
        now_ms >= pre.last_update_time_ms + STALENESS_WINDOW_MS,
    ensures
        r is None,
{
}

} // verus!
