//! Decisions of the main loop: when to quit, what to report in the window
//! title, and how long to sleep to hold the target frame rate. The loop
//! itself — polling, submitting, presenting — happens outside; it feeds
//! plain events and tick counts in and acts on what comes back.

use vstd::prelude::*;

verus! {

/// Target frame rate of the demo.
pub const FPS: u64 = 60;

/// The frame budget in milliseconds: a frame that finishes early is padded
/// with a sleep up to this long.
pub const OPTIMAL_WAIT_TIME: u64 = 1000 / FPS;

/// The one key the demo reacts to.
pub enum Key {
    Escape,
    Other,
}

/// An input event, reduced to what the loop decides on.
pub enum LoopEvent {
    /// The window was asked to close.
    Quit,
    /// A key went down.
    KeyDown(Key),
    /// Anything else: ignored.
    Other,
}

/// The events that end the main loop: a quit request, or Escape going down.
pub open spec fn quits_spec(e: LoopEvent) -> bool {
    match e {
        LoopEvent::Quit => true,
        LoopEvent::KeyDown(k) => k is Escape,
        LoopEvent::Other => false,
    }
}

/// Whether this event ends the main loop.
pub fn quits(e: &LoopEvent) -> (b: bool)
    ensures
        b == quits_spec(*e),
{
    match e {
        LoopEvent::Quit => true,
        LoopEvent::KeyDown(Key::Escape) => true,
        _ => false,
    }
}

/// Counts frames and decides, once a second, what frame rate to show in
/// the window title.
pub struct FpsCounter {
    /// Frames finished since the last report.
    pub frames: u64,
    /// Tick count at which the last report was made.
    pub last_tick: u64,
}

impl FpsCounter {
    /// A fresh counter: nothing counted, nothing reported yet.
    pub fn new() -> (c: Self)
        ensures
            c.frames == 0,
            c.last_tick == 0,
    {
        FpsCounter { frames: 0, last_tick: 0 }
    }

    /// Counts one finished frame, begun at `start_tick` milliseconds. Once
    /// more than a second has passed since the last report, the count of
    /// frames in that second is handed back to be displayed and a new
    /// second begins; otherwise nothing is reported.
    pub fn frame(&mut self, start_tick: u64) -> (report: Option<u64>)
        requires
            old(self).frames < u64::MAX,
            old(self).last_tick + 1000 <= u64::MAX,
        ensures
            start_tick > old(self).last_tick + 1000 ==> report == Some(
                (old(self).frames + 1) as u64,
            ) && final(self).frames == 0 && final(self).last_tick == start_tick,
            start_tick <= old(self).last_tick + 1000 ==> report is None && final(self).frames
                == old(self).frames + 1 && final(self).last_tick == old(self).last_tick,
    {
        self.frames = self.frames + 1;
        if start_tick > self.last_tick + 1000 {
            let shown = self.frames;
            self.last_tick = start_tick;
            self.frames = 0;
            Some(shown)
        } else {
            None
        }
    }
}

/// How long to sleep after a frame that began at `start_tick` and ended at
/// `end_tick`: the rest of the frame budget, or nothing if the budget is
/// already spent.
pub fn wait_time(start_tick: u64, end_tick: u64) -> (w: u64)
    requires
        start_tick <= end_tick,
    ensures
        w == if end_tick - start_tick >= OPTIMAL_WAIT_TIME {
            0u64
        } else {
            (OPTIMAL_WAIT_TIME - (end_tick - start_tick)) as u64
        },
        w <= OPTIMAL_WAIT_TIME,
{
    let elapsed: u64 = end_tick - start_tick;
    if elapsed >= OPTIMAL_WAIT_TIME {
        0
    } else {
        OPTIMAL_WAIT_TIME - elapsed
    }
}

} // verus!
