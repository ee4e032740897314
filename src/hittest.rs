//! Decisions of the cursor hit-test poller: the cached window origin, the
//! window-relative cursor position, the failure escalation policy and the
//! poller's start/stop lifecycle. The loop that sleeps, samples the cursor
//! and publishes runs around these functions.
use vstd::prelude::*;

verus! {

/// The window geometry is refreshed on every tick whose count is a
/// multiple of this.
pub const REFRESH_EVERY: u64 = 60;

/// Consecutive failed publications after which the poller halts.
pub const MAX_CONSECUTIVE_FAILURES: u32 = 300;

/// After the first, every failure whose count is a multiple of this is logged.
pub const LOG_EVERY: u32 = 60;

/// Thousandths in a scale factor of 1.0.
pub const MILLI: u32 = 1000;

/// Window-relative cursor coordinates in logical pixels.
#[derive(Debug, Clone, Copy, PartialEq, Eq, Structural)]
pub struct MousePosition {
    pub x: i32,
    pub y: i32,
}

/// What the loop does after publishing a position.
#[derive(Debug, Clone, Copy, PartialEq, Eq, Structural)]
pub enum PublishVerdict {
    /// The position reached the consumer.
    Delivered,
    /// Publication failed; go on quietly.
    Retry,
    /// Publication failed; go on, and log the failure count.
    RetryAndLog,
    /// Too many consecutive failures: log and end the loop.
    Halt,
}

/// The loop-owned state of the poller.
#[derive(Debug, Clone, Copy)]
pub struct HitTestPoller {
    /// Cached outer position of the overlay window, in physical pixels.
    pub origin_x: i32,
    pub origin_y: i32,
    /// The scale factor, in thousandths, that the cached position is
    /// divided by to give logical pixels.
    pub origin_scale: u32,
    /// The latest scale factor read, in thousandths.
    pub scale_milli: u32,
    /// Ticks started so far, wrapping.
    pub tick: u64,
    /// Failed publications since the last delivered one.
    pub failures: u32,
}

impl HitTestPoller {
    pub open spec fn wf(&self) -> bool {
        &&& self.origin_scale > 0
        &&& self.scale_milli > 0
        &&& self.failures <= MAX_CONSECUTIVE_FAILURES
    }

    pub open spec fn halted_spec(&self) -> bool {
        self.failures >= MAX_CONSECUTIVE_FAILURES
    }

    /// A poller before its first tick: origin at (0, 0), scale 1.0.
    pub fn new() -> (r: Self)
        ensures
            r.wf(),
            r == (HitTestPoller {
                origin_x: 0,
                origin_y: 0,
                origin_scale: MILLI,
                scale_milli: MILLI,
                tick: 0,
                failures: 0,
            }),
    {
        HitTestPoller {
            origin_x: 0,
            origin_y: 0,
            origin_scale: MILLI,
            scale_milli: MILLI,
            tick: 0,
            failures: 0,
        }
    }

    /// Whether the failure threshold has been reached.
    pub fn is_halted(&self) -> (r: bool)
        ensures
            r == self.halted_spec(),
    {
        self.failures >= MAX_CONSECUTIVE_FAILURES
    }
}

/// The tick count after one more tick, wrapping at the top of `u64`.
pub open spec fn next_tick(t: u64) -> u64 {
    if t == u64::MAX {
        0
    } else {
        (t + 1) as u64
    }
}

/// Whether a tick with this count refreshes the window geometry.
pub open spec fn refreshes_on(t: u64) -> bool {
    t % REFRESH_EVERY == 0
}

/// The cache after a geometry query: a scale that was read (and is not
/// zero) replaces the cached scale; a position that was read replaces the
/// cached origin and is normalised by the scale then in force. What could
/// not be read keeps its previous value.
pub open spec fn refresh_spec(p: HitTestPoller, scale: Option<u32>, position: Option<(i32, i32)>) -> HitTestPoller {
    let s = match scale {
        Some(v) => if v > 0 { v } else { p.scale_milli },
        None => p.scale_milli,
    };
    match position {
        Some(xy) => HitTestPoller { origin_x: xy.0, origin_y: xy.1, origin_scale: s, scale_milli: s, ..p },
        None => HitTestPoller { scale_milli: s, ..p },
    }
}

/// Integer division rounding towards zero.
pub open spec fn trunc_div(n: int, d: int) -> int {
    if n >= 0 {
        n / d
    } else {
        -((-n) / d)
    }
}

/// A value saturated into the range of `i32`.
pub open spec fn saturate_i32(v: int) -> i32 {
    if v < i32::MIN {
        i32::MIN
    } else if v > i32::MAX {
        i32::MAX
    } else {
        v as i32
    }
}

/// One coordinate relative to the window: the cursor coordinate minus the
/// window origin in logical pixels (`origin * 1000 / scale`), truncated
/// towards zero.
pub open spec fn relative_coord(cursor: i32, origin: i32, scale: u32) -> i32 {
    saturate_i32(trunc_div(cursor * scale - origin * MILLI, scale as int))
}

/// The state and the verdict after one publication.
pub open spec fn publish_spec(p: HitTestPoller, delivered: bool) -> (HitTestPoller, PublishVerdict) {
    if p.failures >= MAX_CONSECUTIVE_FAILURES {
        (p, PublishVerdict::Halt)
    } else if delivered {
        (HitTestPoller { failures: 0, ..p }, PublishVerdict::Delivered)
    } else {
        let f = (p.failures + 1) as u32;
        let q = HitTestPoller { failures: f, ..p };
        if f >= MAX_CONSECUTIVE_FAILURES {
            (q, PublishVerdict::Halt)
        } else if f == 1 || f % LOG_EVERY == 0 {
            (q, PublishVerdict::RetryAndLog)
        } else {
            (q, PublishVerdict::Retry)
        }
    }
}

fn relative_axis(cursor: i32, origin: i32, scale: u32) -> (r: i32)
    requires
        scale > 0,
    ensures
        r == relative_coord(cursor, origin, scale),
{
    let c: i128 = cursor as i128;
    let s: i128 = scale as i128;
    let o: i128 = origin as i128;
    assert(-0x8000_0000_0000_0000 <= c * s <= 0x8000_0000_0000_0000) by (nonlinear_arith)
        requires
            -0x8000_0000 <= c <= 0x8000_0000,
            0 <= s <= 0x1_0000_0000,
    ;
    assert(-0x8000_0000_0000 <= o * 1000 <= 0x8000_0000_0000) by (nonlinear_arith)
        requires
            -0x8000_0000 <= o <= 0x8000_0000,
    ;
    let n: i128 = c * s - o * (MILLI as i128);
    let q: i128 = if n >= 0 {
        (n as u128 / scale as u128) as i128
    } else {
        -(((-n) as u128 / scale as u128) as i128)
    };
    if q < i32::MIN as i128 {
        i32::MIN
    } else if q > i32::MAX as i128 {
        i32::MAX
    } else {
        q as i32
    }
}

impl HitTestPoller {
    /// Starts a tick: says whether this tick refreshes the window geometry,
    /// and advances the tick count.
    pub fn begin_tick(&mut self) -> (refresh: bool)
        ensures
            refresh == refreshes_on(old(self).tick),
            *final(self) == (HitTestPoller { tick: next_tick(old(self).tick), ..*old(self) }),
    {
        let refresh = self.tick % REFRESH_EVERY == 0;
        self.tick = if self.tick == u64::MAX {
            0
        } else {
            self.tick + 1
        };
        refresh
    }

    /// Takes in the result of a window geometry query.
    pub fn refresh_geometry(&mut self, scale: Option<u32>, position: Option<(i32, i32)>)
        requires
            old(self).wf(),
        ensures
            final(self).wf(),
            *final(self) == refresh_spec(*old(self), scale, position),
    {
        match scale {
            Some(v) => {
                if v > 0 {
                    self.scale_milli = v;
                }
            },
            None => {},
        }
        match position {
            Some(xy) => {
                self.origin_x = xy.0;
                self.origin_y = xy.1;
                self.origin_scale = self.scale_milli;
            },
            None => {},
        }
    }

    /// The cursor position relative to the cached window origin.
    pub fn relative_position(&self, cursor_x: i32, cursor_y: i32) -> (r: MousePosition)
        requires
            self.wf(),
        ensures
            r == (MousePosition {
                x: relative_coord(cursor_x, self.origin_x, self.origin_scale),
                y: relative_coord(cursor_y, self.origin_y, self.origin_scale),
            }),
    {
        MousePosition {
            x: relative_axis(cursor_x, self.origin_x, self.origin_scale),
            y: relative_axis(cursor_y, self.origin_y, self.origin_scale),
        }
    }

    /// Records whether a publication reached the consumer, and says what
    /// the loop does next.
    pub fn record_publish(&mut self, delivered: bool) -> (r: PublishVerdict)
        requires
            old(self).wf(),
        ensures
            final(self).wf(),
            (*final(self), r) == publish_spec(*old(self), delivered),
    {
        if self.failures >= MAX_CONSECUTIVE_FAILURES {
            return PublishVerdict::Halt;
        }
        if delivered {
            self.failures = 0;
            return PublishVerdict::Delivered;
        }
        self.failures = self.failures + 1;
        if self.failures >= MAX_CONSECUTIVE_FAILURES {
            PublishVerdict::Halt
        } else if self.failures == 1 || self.failures % LOG_EVERY == 0 {
            PublishVerdict::RetryAndLog
        } else {
            PublishVerdict::Retry
        }
    }
}

/// The state after `n` failed publications in a row.
pub open spec fn after_failures(p: HitTestPoller, n: nat) -> HitTestPoller
    decreases n,
{
    if n == 0 {
        p
    } else {
        publish_spec(after_failures(p, (n - 1) as nat), false).0
    }
}

/// Failed publications in a row halt the poller at exactly the 300th:
/// from a poller that has seen `f` failures in a row, `k` more leave the
/// count at `min(f + k, 300)`, and the publication after them halts the
/// loop exactly when `f + k + 1` reaches 300.
pub proof fn lemma_consecutive_failures_halt(p: HitTestPoller, k: nat)
    requires
        p.wf(),
    ensures
        after_failures(p, k) == (HitTestPoller {
            failures: if p.failures + k >= MAX_CONSECUTIVE_FAILURES {
                MAX_CONSECUTIVE_FAILURES
            } else {
                (p.failures + k) as u32
            },
            ..p
        }),
        (publish_spec(after_failures(p, k), false).1 == PublishVerdict::Halt) <==> (p.failures + k
            + 1 >= MAX_CONSECUTIVE_FAILURES),
    decreases k,
{
    if k > 0 {
        lemma_consecutive_failures_halt(p, (k - 1) as nat);
    }
}

/// A delivered publication on a running poller sets the failure count back
/// to zero, so only failures in an unbroken run count towards halting.
pub proof fn lemma_delivery_resets_failures(p: HitTestPoller)
    requires
        p.wf(),
        !p.halted_spec(),
    ensures
        publish_spec(p, true) == (HitTestPoller { failures: 0, ..p }, PublishVerdict::Delivered),
        after_failures(publish_spec(p, true).0, 1).failures == 1,
{
    reveal_with_fuel(after_failures, 2);
}

/// Once halted, the poller stays halted: every later publication, delivered
/// or not, leaves it unchanged and says halt.
pub proof fn lemma_halt_is_final(p: HitTestPoller, delivered: bool)
    requires
        p.wf(),
        p.halted_spec(),
    ensures
        publish_spec(p, delivered) == (p, PublishVerdict::Halt),
{
}

/// Where the poller is in its lifecycle.
#[derive(Debug, Clone, Copy, PartialEq, Eq, Structural)]
pub enum PollerPhase {
    /// The loop runs.
    Running,
    /// A stop was asked for; the loop has not seen it yet.
    Stopping,
    /// The loop has ended.
    Stopped,
}

/// The shared cancellation state of the poller: the starter asks for a
/// stop, the loop checks it at the top of every tick.
#[derive(Debug, Clone, Copy, PartialEq, Eq, Structural)]
pub struct PollerHandle {
    pub phase: PollerPhase,
}

/// The handle after a stop request, and whether this request is the one
/// that began the shutdown.
pub open spec fn stop_spec(h: PollerHandle) -> (PollerHandle, bool) {
    match h.phase {
        PollerPhase::Running => (PollerHandle { phase: PollerPhase::Stopping }, true),
        _ => (h, false),
    }
}

/// The handle after the loop's check at the top of a tick, and whether the
/// loop goes on.
pub open spec fn poll_spec(h: PollerHandle) -> (PollerHandle, bool) {
    match h.phase {
        PollerPhase::Running => (h, true),
        _ => (PollerHandle { phase: PollerPhase::Stopped }, false),
    }
}

impl PollerHandle {
    /// The handle of a poller that has just been started.
    pub fn start() -> (r: Self)
        ensures
            r.phase == PollerPhase::Running,
    {
        PollerHandle { phase: PollerPhase::Running }
    }

    /// Asks the loop to stop. Returns whether this call began the shutdown;
    /// on a poller already stopping or stopped it changes nothing.
    pub fn stop(&mut self) -> (initiated: bool)
        ensures
            (*final(self), initiated) == stop_spec(*old(self)),
    {
        match self.phase {
            PollerPhase::Running => {
                self.phase = PollerPhase::Stopping;
                true
            },
            _ => false,
        }
    }

    /// The loop's check at the top of each tick: goes on while running; a
    /// pending stop is observed here and the poller becomes stopped.
    pub fn keep_polling(&mut self) -> (go_on: bool)
        ensures
            (*final(self), go_on) == poll_spec(*old(self)),
    {
        match self.phase {
            PollerPhase::Running => true,
            _ => {
                self.phase = PollerPhase::Stopped;
                false
            },
        }
    }

    /// The loop ended on its own (after halting): the poller is stopped.
    pub fn finish(&mut self)
        ensures
            final(self).phase == PollerPhase::Stopped,
    {
        self.phase = PollerPhase::Stopped;
    }

    /// Whether the loop is still asked to run.
    pub fn is_running(&self) -> (r: bool)
        ensures
            r == (self.phase == PollerPhase::Running),
    {
        match self.phase {
            PollerPhase::Running => true,
            _ => false,
        }
    }
}

/// Stopping is idempotent: a second stop begins no shutdown and changes
/// nothing, and on a poller that is already stopped no stop does.
pub proof fn lemma_stop_is_idempotent(h: PollerHandle)
    ensures
        !stop_spec(stop_spec(h).0).1,
        stop_spec(stop_spec(h).0).0 == stop_spec(h).0,
        h.phase == PollerPhase::Stopped ==> stop_spec(h) == (h, false),
{
}

/// After a stop request the loop ends at its next check, and ends for good:
/// no tick runs after that check.
pub proof fn lemma_stop_ends_polling(h: PollerHandle)
    ensures
        !poll_spec(stop_spec(h).0).1,
        poll_spec(stop_spec(h).0).0.phase == PollerPhase::Stopped,
        !poll_spec(poll_spec(stop_spec(h).0).0).1,
{
}

} // verus!
