//! The animation's state and the reducer that advances it.

use vstd::prelude::*;

verus! {

/// The whole state of the animation: one counter.
pub struct Model {
    pub count: usize,
}

impl Default for Model {
    fn default() -> (r: Model)
        ensures
            r.count == 0,
    {
        Model { count: 0 }
    }
}

/// What the reducer is handed: a timer that elapsed, or one that failed.
#[derive(Clone, Debug)]
pub enum Msg {
    Tick,
    Error(String),
}

/// What the host is asked to do after a message was handled.
#[derive(Clone, Debug)]
pub struct Effects {
    /// Arm one new timer.
    pub arm_timer: bool,
    /// Draw the picture again from the new state.
    pub render: bool,
    /// A line for the diagnostic log.
    pub log: Option<String>,
}

/// The counter after one tick: one more, or zero where it stood at the top.
pub open spec fn next_count(count: usize) -> usize {
    if count < usize::MAX {
        (count + 1) as usize
    } else {
        0
    }
}

/// The counter after a message: a tick advances it, an error leaves it.
pub open spec fn count_after(count: usize, msg: Msg) -> usize {
    match msg {
        Msg::Tick => next_count(count),
        Msg::Error(_) => count,
    }
}

/// The text that a message asks to log: an error's own, nothing for a tick.
pub open spec fn log_of(msg: Msg) -> Option<String> {
    match msg {
        Msg::Tick => None,
        Msg::Error(text) => Some(text),
    }
}

/// Below the top, a tick adds one to the counter.
pub proof fn lemma_tick_adds_one(count: usize)
    requires
        count < usize::MAX,
    ensures
        count_after(count, Msg::Tick) == count + 1,
{
}

/// At the top, a tick takes the counter back to zero.
pub proof fn lemma_tick_wraps_at_top()
    ensures
        count_after(usize::MAX, Msg::Tick) == 0,
{
}

/// An error leaves the counter where it was.
pub proof fn lemma_error_keeps_count(count: usize, text: String)
    ensures
        count_after(count, Msg::Error(text)) == count,
{
}

/// Handles one message: advances the counter on a tick, keeps it on an error,
/// and in either case asks for exactly one new timer and one new drawing.
pub fn update(msg: Msg, model: &mut Model) -> (r: Effects)
    ensures
        final(model).count == count_after(old(model).count, msg),
        r.arm_timer,
        r.render,
        r.log == log_of(msg),
{
    let log = match msg {
        Msg::Tick => {
            if model.count < usize::MAX {
                model.count = model.count + 1;
            } else {
                model.count = 0;
            }
            None
        },
        Msg::Error(text) => Some(text),
    };
    Effects { arm_timer: true, render: true, log }
}

/// The start of the animation: the counter at zero, the first timer armed.
pub fn after_mount() -> (r: (Model, Effects))
    ensures
        r.0.count == 0,
        r.1.arm_timer,
        r.1.render,
        r.1.log is None,
{
    (Model { count: 0 }, Effects { arm_timer: true, render: true, log: None })
}

} // verus!
