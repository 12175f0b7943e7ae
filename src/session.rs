//! The timer loop as a state machine: the host hands it each message that a
//! timer produced and performs the effects it returns. Ghost counters record
//! how many timers fired, were armed and how many drawings were asked for.

use vstd::prelude::*;
use vstd::arithmetic::div_mod::{lemma_add_mod_noop, lemma_mod_self_0, lemma_small_mod};
use crate::model::{Model, Msg, Effects, update, after_mount, count_after, log_of};

verus! {

/// The abstract state of the loop.
pub ghost struct LoopState {
    pub count: usize,
    /// Timers that completed and were handed in.
    pub fired: nat,
    /// Timers that were armed.
    pub armed: nat,
    /// Drawings that were asked for.
    pub rendered: nat,
    /// Timers armed and not yet completed.
    pub pending: nat,
}

/// One timer in flight; one more arm than completions, since the first was
/// armed at the start; one drawing at the start and one per message.
pub open spec fn loop_wf(s: LoopState) -> bool {
    &&& s.pending == 1
    &&& s.armed == s.fired + 1
    &&& s.rendered == s.fired + 1
}

/// The loop after one message completed its timer.
pub open spec fn step(s: LoopState, msg: Msg) -> LoopState {
    LoopState {
        count: count_after(s.count, msg),
        fired: s.fired + 1,
        armed: s.armed + 1,
        rendered: s.rendered + 1,
        pending: s.pending,
    }
}

/// The loop after `n` ticks in a row.
pub open spec fn run_ticks(s: LoopState, n: nat) -> LoopState
    decreases n,
{
    if n == 0 {
        s
    } else {
        step(run_ticks(s, (n - 1) as nat), Msg::Tick)
    }
}

/// Over any run of ticks, each tick fires one timer, arms exactly one new one
/// and asks for one drawing; one timer stays in flight throughout, and the
/// counter has moved on by the number of ticks, modulo the integer width.
pub proof fn lemma_one_arm_per_tick(s: LoopState, n: nat)
    requires
        loop_wf(s),
    ensures
        run_ticks(s, n).fired - s.fired == n,
        run_ticks(s, n).armed - s.armed == n,
        run_ticks(s, n).rendered - s.rendered == n,
        run_ticks(s, n).pending == 1,
        loop_wf(run_ticks(s, n)),
        run_ticks(s, n).count == (s.count + n) % (usize::MAX + 1),
    decreases n,
{
    let m: int = usize::MAX + 1;
    if n == 0 {
        lemma_small_mod(s.count as nat, m as nat);
    } else {
        lemma_one_arm_per_tick(s, (n - 1) as nat);
        let c: int = run_ticks(s, (n - 1) as nat).count as int;
        assert(c == (s.count + n - 1) % m);
        lemma_add_mod_noop(s.count + n - 1, 1, m);
        lemma_small_mod(1, m as nat);
        if c < usize::MAX {
            lemma_small_mod((c + 1) as nat, m as nat);
        } else {
            lemma_mod_self_0(m);
        }
    }
}

/// The running loop: the model and the ghost account of its timers.
pub struct Session {
    model: Model,
    fired: Ghost<nat>,
    armed: Ghost<nat>,
    rendered: Ghost<nat>,
    pending: Ghost<nat>,
}

impl Session {
    pub closed spec fn view(&self) -> LoopState {
        LoopState {
            count: self.model.count,
            fired: self.fired@,
            armed: self.armed@,
            rendered: self.rendered@,
            pending: self.pending@,
        }
    }

    #[verifier::type_invariant]
    spec fn inv(&self) -> bool {
        loop_wf(self@)
    }

    /// Starts the loop: the counter at zero and the first timer armed.
    pub fn mount() -> (r: (Session, Effects))
        ensures
            r.0@.count == 0,
            r.0@.fired == 0,
            loop_wf(r.0@),
            r.1.arm_timer,
            r.1.render,
            r.1.log is None,
    {
        let (model, effects) = after_mount();
        let session = Session {
            model,
            fired: Ghost(0),
            armed: Ghost(1),
            rendered: Ghost(1),
            pending: Ghost(1),
        };
        (session, effects)
    }

    /// Hands in the message of the timer in flight and returns what the host
    /// is to do: arm the next timer and draw again.
    pub fn handle(&mut self, msg: Msg) -> (r: Effects)
        ensures
            final(self)@ == step(old(self)@, msg),
            loop_wf(final(self)@),
            r.arm_timer,
            r.render,
            r.log == log_of(msg),
    {
        proof {
            use_type_invariant(&*self);
        }
        let ghost m = msg;
        let mut model = Model { count: self.model.count };
        let effects = update(msg, &mut model);
        let ghost armed = if effects.arm_timer { self.armed@ + 1 } else { self.armed@ };
        let ghost rendered = if effects.render { self.rendered@ + 1 } else { self.rendered@ };
        let ghost pending = if effects.arm_timer { self.pending@ } else { (self.pending@ - 1) as nat };
        *self = Session {
            model,
            fired: Ghost(self.fired@ + 1),
            armed: Ghost(armed),
            rendered: Ghost(rendered),
            pending: Ghost(pending),
        };
        assert(self@ == step(old(self)@, m));
        effects
    }

    /// The model, for drawing.
    pub fn model(&self) -> (m: &Model)
        ensures
            m.count == self@.count,
    {
        &self.model
    }
}

} // verus!
