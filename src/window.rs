//! Window placement: validating a restored position against the attached
//! displays, the configuration written when the pin state changes or the
//! window moves, and the trailing-edge debounce of move notifications.

use vstd::prelude::*;
use crate::storage::{WindowConfig, DEFAULT_X, DEFAULT_Y, DEFAULT_ALWAYS_ON_TOP};

verus! {

/// Width of the main window, in physical pixels.
pub const WINDOW_WIDTH: u32 = 320;

/// Height of the main window, in physical pixels.
pub const WINDOW_HEIGHT: u32 = 400;

/// Coordinates accepted when no display is known lie in `[COORD_MIN, COORD_MAX]`.
pub const COORD_MIN: i32 = -32768;

pub const COORD_MAX: i32 = 32767;

/// Quiet time after the last move before the placement is written.
pub const QUIESCENCE_MS: u64 = 300;

/// One attached display.
#[derive(Debug, Clone, Copy)]
pub struct MonitorGeometry {
    /// top-left corner
    pub position: (i32, i32),
    /// width and height
    pub size: (u32, u32),
}

/// Whether the rectangle at `(x, y)` of `w` by `h` overlaps, on both axes,
/// the monitor at `(mx, my)` of `mw` by `mh` (half-open intervals).
pub open spec fn overlaps(x: int, y: int, w: int, h: int, mx: int, my: int, mw: int, mh: int) -> bool {
    &&& x < mx + mw
    &&& x + w > mx
    &&& y < my + mh
    &&& y + h > my
}

/// `overlaps` for a window rectangle and a monitor.
pub open spec fn overlaps_monitor(x: i32, y: i32, w: u32, h: u32, m: MonitorGeometry) -> bool {
    overlaps(
        x as int,
        y as int,
        w as int,
        h as int,
        m.position.0 as int,
        m.position.1 as int,
        m.size.0 as int,
        m.size.1 as int,
    )
}

/// Whether a window rectangle is acceptable: where displays are known, it
/// overlaps one of them; where none is, both coordinates lie in the coarse bound.
pub open spec fn position_ok(x: i32, y: i32, w: u32, h: u32, monitors: Seq<MonitorGeometry>) -> bool {
    if monitors.len() == 0 {
        COORD_MIN <= x <= COORD_MAX && COORD_MIN <= y <= COORD_MAX
    } else {
        exists|i: int| 0 <= i < monitors.len() && overlaps_monitor(x, y, w, h, #[trigger] monitors[i])
    }
}

/// Whether the window `(x, y, width, height)` overlaps the monitor at
/// `mon_pos` of size `mon_size`, on both axes.
pub fn is_position_valid_on_monitor(
    x: i32,
    y: i32,
    width: u32,
    height: u32,
    mon_pos: (i32, i32),
    mon_size: (u32, u32),
) -> (r: bool)
    ensures
        r == overlaps(
            x as int,
            y as int,
            width as int,
            height as int,
            mon_pos.0 as int,
            mon_pos.1 as int,
            mon_size.0 as int,
            mon_size.1 as int,
        ),
{
    let (mx, my) = mon_pos;
    let (mw, mh) = mon_size;
    let x_overlap = (x as i64) < mx as i64 + mw as i64 && x as i64 + width as i64 > mx as i64;
    let y_overlap = (y as i64) < my as i64 + mh as i64 && y as i64 + height as i64 > my as i64;
    x_overlap && y_overlap
}

/// Whether a restored window rectangle may be applied: it overlaps at least
/// one of `monitors`; with no monitor known, it passes the coarse bound, so
/// that start-up never strands the window for want of display information.
pub fn validate_position(x: i32, y: i32, width: u32, height: u32, monitors: &Vec<MonitorGeometry>) -> (r: bool)
    ensures
        r == position_ok(x, y, width, height, monitors@),
{
    if monitors.len() == 0 {
        return COORD_MIN <= x && x <= COORD_MAX && COORD_MIN <= y && y <= COORD_MAX;
    }
    let mut i: usize = 0;
    while i < monitors.len()
        invariant
            i <= monitors@.len(),
            forall|k: int| 0 <= k < i ==> !overlaps_monitor(x, y, width, height, #[trigger] monitors@[k]),
        decreases monitors@.len() - i,
    {
        let m = monitors[i];
        if is_position_valid_on_monitor(x, y, width, height, m.position, m.size) {
            return true;
        }
        i = i + 1;
    }
    false
}

/// The position to move the main window to at start-up, if the stored one
/// is acceptable for the attached displays.
pub fn restored_position(config: &WindowConfig, monitors: &Vec<MonitorGeometry>) -> (r: Option<(i32, i32)>)
    ensures
        r == (if position_ok(config.x, config.y, WINDOW_WIDTH, WINDOW_HEIGHT, monitors@) {
            Some((config.x, config.y))
        } else {
            None
        }),
{
    if validate_position(config.x, config.y, WINDOW_WIDTH, WINDOW_HEIGHT, monitors) {
        Some((config.x, config.y))
    } else {
        None
    }
}

/// The record written when the pin state is set to `enabled`: the live
/// position where it could be read, else the stored one, else the default.
pub fn pinned_config(enabled: bool, live: Option<(i32, i32)>, stored: Option<WindowConfig>) -> (r: WindowConfig)
    ensures
        r.always_on_top == enabled,
        (r.x, r.y) == match live {
            Some(p) => p,
            None => match stored {
                Some(c) => (c.x, c.y),
                None => (DEFAULT_X, DEFAULT_Y),
            },
        },
{
    let (x, y) = match live {
        Some(p) => p,
        None => match stored {
            Some(c) => (c.x, c.y),
            None => (DEFAULT_X, DEFAULT_Y),
        },
    };
    WindowConfig { x, y, always_on_top: enabled }
}

/// The record written at the end of a burst of moves, from what the live
/// window reported; a reading that failed falls back to the default.
pub fn live_window_config(position: Option<(i32, i32)>, always_on_top: Option<bool>) -> (r: WindowConfig)
    ensures
        (r.x, r.y) == match position {
            Some(p) => p,
            None => (DEFAULT_X, DEFAULT_Y),
        },
        r.always_on_top == match always_on_top {
            Some(b) => b,
            None => DEFAULT_ALWAYS_ON_TOP,
        },
{
    let (x, y) = match position {
        Some(p) => p,
        None => (DEFAULT_X, DEFAULT_Y),
    };
    let always_on_top = match always_on_top {
        Some(b) => b,
        None => DEFAULT_ALWAYS_ON_TOP,
    };
    WindowConfig { x, y, always_on_top }
}

/// Where the debounce worker stands.
#[derive(Debug, Clone, Copy, PartialEq, Eq, Structural)]
pub enum DebouncePhase {
    /// Waiting for the first move of a burst.
    Idle,
    /// A burst is under way; a quiet window is being waited out.
    Settling,
    /// The notification stream has ended.
    Stopped,
}

/// What the worker observed.
#[derive(Debug, Clone, Copy, PartialEq, Eq, Structural)]
pub enum DebounceEvent {
    /// A move notification arrived.
    Moved,
    /// A quiet window was slept through; `moved_meanwhile` tells whether any
    /// move notification arrived during it (all of them are drained).
    QuietWindowEnded { moved_meanwhile: bool },
    /// The notification stream was closed.
    Closed,
}

/// What the worker does next.
#[derive(Debug, Clone, Copy, PartialEq, Eq, Structural)]
pub enum DebounceAction {
    /// Block until the next notification.
    AwaitEvent,
    /// Sleep this many milliseconds, then report what arrived meanwhile.
    Sleep(u64),
    /// Read the live window state and write it once.
    WriteCurrent,
    /// End the worker.
    Stop,
}

/// The debounce decisions, from the phase, the event and the quiet window to
/// the next phase and the action.
pub open spec fn debounce_next(phase: DebouncePhase, event: DebounceEvent, quiet_ms: u64) -> (
    DebouncePhase,
    DebounceAction,
) {
    match phase {
        DebouncePhase::Stopped => (DebouncePhase::Stopped, DebounceAction::Stop),
        DebouncePhase::Idle => match event {
            DebounceEvent::Moved => (DebouncePhase::Settling, DebounceAction::Sleep(quiet_ms)),
            DebounceEvent::QuietWindowEnded { .. } => (DebouncePhase::Idle, DebounceAction::AwaitEvent),
            DebounceEvent::Closed => (DebouncePhase::Stopped, DebounceAction::Stop),
        },
        DebouncePhase::Settling => match event {
            DebounceEvent::Moved => (DebouncePhase::Settling, DebounceAction::Sleep(quiet_ms)),
            DebounceEvent::QuietWindowEnded { moved_meanwhile } => if moved_meanwhile {
                (DebouncePhase::Settling, DebounceAction::Sleep(quiet_ms))
            } else {
                (DebouncePhase::Idle, DebounceAction::WriteCurrent)
            },
            DebounceEvent::Closed => (DebouncePhase::Stopped, DebounceAction::WriteCurrent),
        },
    }
}

/// Trailing-edge debounce of window-move notifications: a burst of moves
/// ends in one write, once a whole quiet window passes without a move.
#[derive(Debug, Clone, Copy, PartialEq, Eq, Structural)]
pub struct Debouncer {
    pub phase: DebouncePhase,
    pub quiet_ms: u64,
}

impl Debouncer {
    /// A worker waiting for its first move, with the given quiet window.
    pub fn new(quiet_ms: u64) -> (r: Debouncer)
        ensures
            r.phase == DebouncePhase::Idle,
            r.quiet_ms == quiet_ms,
    {
        Debouncer { phase: DebouncePhase::Idle, quiet_ms }
    }

    /// Takes in one event and says what to do next.
    pub fn step(&mut self, event: DebounceEvent) -> (r: DebounceAction)
        ensures
            (final(self).phase, r) == debounce_next(old(self).phase, event, old(self).quiet_ms),
            final(self).quiet_ms == old(self).quiet_ms,
    {
        let q = self.quiet_ms;
        let (phase, action) = match self.phase {
            DebouncePhase::Stopped => (DebouncePhase::Stopped, DebounceAction::Stop),
            DebouncePhase::Idle => match event {
                DebounceEvent::Moved => (DebouncePhase::Settling, DebounceAction::Sleep(q)),
                DebounceEvent::QuietWindowEnded { .. } => (DebouncePhase::Idle, DebounceAction::AwaitEvent),
                DebounceEvent::Closed => (DebouncePhase::Stopped, DebounceAction::Stop),
            },
            DebouncePhase::Settling => match event {
                DebounceEvent::Moved => (DebouncePhase::Settling, DebounceAction::Sleep(q)),
                DebounceEvent::QuietWindowEnded { moved_meanwhile } => if moved_meanwhile {
                    (DebouncePhase::Settling, DebounceAction::Sleep(q))
                } else {
                    (DebouncePhase::Idle, DebounceAction::WriteCurrent)
                },
                DebounceEvent::Closed => (DebouncePhase::Stopped, DebounceAction::WriteCurrent),
            },
        };
        self.phase = phase;
        action
    }
}

} // verus!
