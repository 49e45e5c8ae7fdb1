//! The accumulator for a partially-typed compound command.
//!
//! A normal-mode command follows the grammar `count? register? operator?
//! motion`, possibly with a multi-key tail (`gg`, `f<ch>`, `"<reg>`, `ZZ`).
//! `PendingInput` holds the tokens read so far. It is either empty or a
//! strict prefix of a valid command; when a token completes the grammar the
//! whole command is applied at once and the accumulator resets to empty,
//! and an invalid continuation resets it without touching the buffer.

use vstd::prelude::*;

verus! {

/// The largest count a command may accumulate; further digits saturate.
pub const COUNT_CAP: u32 = 1000000;

/// A command that acts on a span of text chosen by a following motion,
/// a doubled-operator shorthand, or an active selection.
#[derive(Clone, Copy, Debug, PartialEq, Eq, Structural)]
pub enum Operator {
    Delete,
    Yank,
    Change,
}

/// The first key of a multi-key sequence, held while the second is awaited.
#[derive(Clone, Copy, Debug, PartialEq, Eq, Structural)]
pub enum Prefix {
    /// `g` was read; `g` again is the go-to-first-line motion.
    Go,
    /// `f` was read; the next character is the find target.
    Find,
    /// `"` was read; the next letter names a register.
    Reg,
    /// `Z` was read; `Z` again requests quitting.
    Zed,
}

/// The tokens of a compound command read so far.
#[derive(Clone, Copy, Debug, PartialEq, Eq, Structural)]
pub struct PendingInput {
    /// Repeat count, accumulated digit by digit; `None` means 1.
    pub count: Option<u32>,
    /// The operator awaiting a motion or a doubling key.
    pub operator: Option<Operator>,
    /// The register named for the next yank, delete or paste.
    pub register: Option<char>,
    /// A held first key of a multi-key sequence.
    pub prefix: Option<Prefix>,
}

impl PendingInput {
    /// A pending input is well formed when its count, if started,
    /// is positive and within the saturation cap.
    pub open spec fn wf(self) -> bool {
        match self.count {
            Some(n) => 1 <= n <= COUNT_CAP,
            None => true,
        }
    }

    /// The freshly-reset accumulator: no tokens at all.
    pub open spec fn spec_empty() -> PendingInput {
        PendingInput { count: None, operator: None, register: None, prefix: None }
    }

    pub fn empty() -> (r: PendingInput)
        ensures
            r == PendingInput::spec_empty(),
            r.wf(),
    {
        PendingInput { count: None, operator: None, register: None, prefix: None }
    }

    /// The repeat count a completing motion uses: the accumulated
    /// count, or 1 when none was typed.
    pub open spec fn spec_eff_count(self) -> u32 {
        match self.count {
            Some(n) => n,
            None => 1,
        }
    }

    pub fn eff_count(&self) -> (r: u32)
        ensures
            r == self.spec_eff_count(),
    {
        match self.count {
            Some(n) => n,
            None => 1,
        }
    }

    /// The count after one more digit: decimal extension, saturated
    /// at `COUNT_CAP`.
    pub open spec fn spec_push_digit(self, d: u32) -> u32 {
        let base = self.spec_eff_count_for_digits();
        if base * 10 + d > COUNT_CAP {
            COUNT_CAP
        } else {
            (base * 10 + d) as u32
        }
    }

    /// The count a new digit extends: the accumulated count, or 0 when
    /// the digit is the first one.
    pub open spec fn spec_eff_count_for_digits(self) -> u32 {
        match self.count {
            Some(n) => n,
            None => 0,
        }
    }

    pub fn push_digit(&self, d: u32) -> (r: PendingInput)
        requires
            self.wf(),
            d <= 9,
            d >= 1 || self.count is Some,
        ensures
            r == (PendingInput {
                count: Some(self.spec_push_digit(d)),
                operator: self.operator,
                register: self.register,
                prefix: self.prefix,
            }),
            r.wf(),
    {
        let base: u32 = match self.count {
            Some(n) => n,
            None => 0,
        };
        let raw: u32 = base * 10 + d;
        let new_count: u32 = if raw > COUNT_CAP {
            COUNT_CAP
        } else {
            raw
        };
        PendingInput {
            count: Some(new_count),
            operator: self.operator,
            register: self.register,
            prefix: self.prefix,
        }
    }
}

} // verus!
