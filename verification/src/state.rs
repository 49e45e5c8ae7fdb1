//! The editor state: the orchestrator holding `(Mode, PendingInput)`.
//!
//! Each event is processed by snapshotting the state, asking the engine
//! for a `Transition` against the live buffer, and folding the result
//! into a fresh state. A mode switch to a different mode discards the
//! pending input; quitting is only signalled to the caller, never acted
//! on here.

use vstd::prelude::*;
use crate::buffer::{BufModel, Buffer};
use crate::engine::{step, transition, Transition};
use crate::input::InputEvent;
use crate::mode::Mode;
use crate::pending::PendingInput;

verus! {

/// The current mode together with the partially-typed command.
#[derive(Clone, Copy, Debug, PartialEq, Eq, Structural)]
pub struct VimState {
    pub mode: Mode,
    pub pending: PendingInput,
}

/// What folding a transition into a state yields: the next state and
/// whether a quit was requested.
#[verifier::ext_equal]
pub ghost struct FoldModel {
    pub state: VimState,
    pub quit: bool,
}

/// What processing one event yields: the next state, the buffer after
/// the dispatch, and whether a quit was requested.
#[verifier::ext_equal]
pub ghost struct ProcessModel {
    pub state: VimState,
    pub b: BufModel,
    pub quit: bool,
}

impl VimState {
    /// A state is well formed when its pending input is.
    pub open spec fn wf(self) -> bool {
        self.pending.wf()
    }

    /// A fresh state in the given mode, with nothing pending.
    pub fn new(mode: Mode) -> (r: VimState)
        ensures
            r == (VimState { mode, pending: PendingInput::spec_empty() }),
            r.wf(),
    {
        VimState { mode, pending: PendingInput::empty() }
    }

    /// The current mode.
    pub fn mode(&self) -> (m: Mode)
        ensures
            m == self.mode,
    {
        self.mode
    }

    /// The same state with another pending input.
    pub fn with_pending(&self, pending: PendingInput) -> (r: VimState)
        ensures
            r == (VimState { mode: self.mode, pending }),
    {
        VimState { mode: self.mode, pending }
    }

    /// How a transition folds into this state: a switch to a different
    /// mode starts that mode fresh, a switch to the same mode and a
    /// no-op change nothing, new pending input replaces the old, and a
    /// quit leaves the state alone but raises the quit signal.
    pub open spec fn folded(self, t: Transition) -> FoldModel {
        match t {
            Transition::Mode(m2) => if m2 != self.mode {
                FoldModel {
                    state: VimState { mode: m2, pending: PendingInput::spec_empty() },
                    quit: false,
                }
            } else {
                FoldModel { state: self, quit: false }
            },
            Transition::Nop => FoldModel { state: self, quit: false },
            Transition::Pending(q) => FoldModel {
                state: VimState { mode: self.mode, pending: q },
                quit: false,
            },
            Transition::Quit => FoldModel { state: self, quit: true },
        }
    }

    /// The model of processing one event: the engine's step, folded.
    pub open spec fn process_model(self, ev: InputEvent, b: BufModel) -> ProcessModel {
        let s = step(self.mode, self.pending, ev, b);
        let f = self.folded(s.t);
        ProcessModel { state: f.state, b: s.b, quit: f.quit }
    }

    /// Ask the engine for the transition this event causes, without
    /// folding it into the state.
    pub fn transition(&self, ev: InputEvent, b: &mut Buffer) -> (t: Transition)
        requires
            old(b)@.wf(),
            self.wf(),
        ensures
            t == step(self.mode, self.pending, ev, old(b)@).t,
            final(b)@ == step(self.mode, self.pending, ev, old(b)@).b,
            final(b)@.wf(),
    {
        transition(self.mode, self.pending, ev, b)
    }

    /// Process one event: dispatch it against the buffer and fold the
    /// transition into this state. Returns whether a quit was requested.
    pub fn process_event(&mut self, ev: InputEvent, b: &mut Buffer) -> (quit: bool)
        requires
            old(self).wf(),
            old(b)@.wf(),
        ensures
            *final(self) == old(self).process_model(ev, old(b)@).state,
            final(b)@ == old(self).process_model(ev, old(b)@).b,
            quit == old(self).process_model(ev, old(b)@).quit,
            final(self).wf(),
            final(b)@.wf(),
    {
        proof {
            lemma_step_pending_wf(self.mode, self.pending, ev, b@);
        }
        let t = transition(self.mode, self.pending, ev, b);
        match t {
            Transition::Mode(m2) => {
                if m2 != self.mode {
                    self.mode = m2;
                    self.pending = PendingInput::empty();
                }
                false
            },
            Transition::Nop => false,
            Transition::Pending(q) => {
                self.pending = q;
                false
            },
            Transition::Quit => true,
        }
    }
}

/// Whatever the engine hands back as new pending input is well formed,
/// so the state invariant survives every dispatch.
pub proof fn lemma_step_pending_wf(m: Mode, p: PendingInput, ev: InputEvent, b: BufModel)
    requires
        p.wf(),
    ensures
        match step(m, p, ev, b).t {
            Transition::Pending(q) => q.wf(),
            _ => true,
        },
{
}

} // verus!
