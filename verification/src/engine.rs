//! The transition engine: one dispatch per input event.
//!
//! `step` is the mathematical model of a single dispatch: given the mode,
//! the pending input and the buffer, it says which `Transition` comes out
//! and what the buffer looks like afterwards. The executable `transition`
//! is proved to follow `step` exactly. Nothing in here fails: whatever a
//! mode's table does not recognise becomes a no-op, and an invalid
//! continuation of a pending command resets it without touching the text.

use vstd::prelude::*;
use crate::buffer::{
    BufModel, Buffer, backspace_m, change_lines_m, delete_lines_m, delete_span_m, insert_char_m,
    newline_m, open_above_m, open_below_m, overwrite_m, paste_m, yank_lines_m, yank_span_m,
};
use crate::input::{InputEvent, Key};
use crate::mode::Mode;
use crate::motion::{Motion, motion_n, motion_once};
use crate::pending::{Operator, PendingInput, Prefix};

verus! {

/// The outcome of processing one input event.
#[derive(Clone, Copy, Debug, PartialEq, Eq, Structural)]
pub enum Transition {
    /// Ignore the event; no state change.
    Nop,
    /// Switch to this mode; switching to the current mode is a no-op.
    Mode(Mode),
    /// Keep accumulating: the pending input becomes this.
    Pending(PendingInput),
    /// Ask the surrounding loop to shut the editor down.
    Quit,
}

/// What one dispatch yields: the transition and the buffer after it.
#[verifier::ext_equal]
pub ghost struct StepModel {
    pub t: Transition,
    pub b: BufModel,
}

/// An aborted or completed command: pending input resets, the buffer
/// stays as given.
pub open spec fn reset_step(b: BufModel) -> StepModel {
    StepModel { t: Transition::Pending(PendingInput::spec_empty()), b }
}

/// The digit a character stands for, if any.
pub open spec fn spec_digit_of(c: char) -> Option<u32> {
    match c {
        '0' => Some(0u32),
        '1' => Some(1u32),
        '2' => Some(2u32),
        '3' => Some(3u32),
        '4' => Some(4u32),
        '5' => Some(5u32),
        '6' => Some(6u32),
        '7' => Some(7u32),
        '8' => Some(8u32),
        '9' => Some(9u32),
        _ => None,
    }
}

/// The operator a normal-mode key stands for, if any.
pub open spec fn key_operator(c: char) -> Option<Operator> {
    match c {
        'd' => Some(Operator::Delete),
        'y' => Some(Operator::Yank),
        'c' => Some(Operator::Change),
        _ => None,
    }
}

/// The single-key motion a key stands for, if any. `0` is handled as a
/// digit or a line-start motion before this table is consulted, and the
/// multi-key motions `gg` and `f<ch>` go through a held prefix.
pub open spec fn key_single_motion(c: char) -> Option<Motion> {
    match c {
        'h' => Some(Motion::Left),
        'j' => Some(Motion::Down),
        'k' => Some(Motion::Up),
        'l' => Some(Motion::Right),
        '$' => Some(Motion::LineEnd),
        'w' => Some(Motion::WordForward),
        'b' => Some(Motion::WordBack),
        'e' => Some(Motion::WordEnd),
        'G' => Some(Motion::LastLine),
        _ => None,
    }
}

/// Whether a character may name a register: a letter.
pub open spec fn is_reg_name(c: char) -> bool {
    ('a' as u32) <= (c as u32) <= ('z' as u32) || ('A' as u32) <= (c as u32) <= ('Z' as u32)
}

/// The positions `(al, ac)` and `(bl, bc)` in text order: the earlier
/// one first.
pub open spec fn ordered_span(al: int, ac: int, bl: int, bc: int) -> (int, int, int, int) {
    if al < bl || (al == bl && ac <= bc) {
        (al, ac, bl, bc)
    } else {
        (bl, bc, al, ac)
    }
}

/// The anchor clamped into the buffer that exists now.
pub open spec fn clamped_anchor(b: BufModel) -> (int, int)
    recommends
        b.wf(),
{
    match b.anchor {
        None => (b.line, b.col),
        Some(p) => {
            let l = if 0 <= p.0 < b.text.len() {
                p.0
            } else {
                b.text.len() - 1
            };
            let c = if 0 <= p.1 <= b.text[l].len() {
                p.1
            } else {
                b.text[l].len() as int
            };
            (l, c)
        },
    }
}

/// A completing motion in normal mode: without an operator it moves the
/// cursor `count` times; under an operator it chooses the span from the
/// cursor to the motion target, the operator acts on it, and the
/// accumulator resets. A change enters insert mode.
pub open spec fn normal_motion_step(p: PendingInput, m: Motion, b: BufModel) -> StepModel
    recommends
        b.wf(),
        p.wf(),
{
    let n = p.spec_eff_count();
    match p.operator {
        None => StepModel {
            t: Transition::Pending(PendingInput::spec_empty()),
            b: motion_n(b, m, n as int),
        },
        Some(op) => {
            let tgt = motion_n(b, m, n as int);
            let (l1, c1, l2, c2) = ordered_span(b.line, b.col, tgt.line, tgt.col);
            match op {
                Operator::Delete => StepModel {
                    t: Transition::Pending(PendingInput::spec_empty()),
                    b: delete_span_m(b, l1, c1, l2, c2, p.register),
                },
                Operator::Yank => StepModel {
                    t: Transition::Pending(PendingInput::spec_empty()),
                    b: yank_span_m(b, l1, c1, l2, c2, p.register),
                },
                Operator::Change => StepModel {
                    t: Transition::Mode(Mode::Insert),
                    b: delete_span_m(b, l1, c1, l2, c2, p.register),
                },
            }
        },
    }
}

/// A doubled operator key: the operator acts linewise on `count` lines
/// from the cursor line.
pub open spec fn doubled_op_step(p: PendingInput, op: Operator, b: BufModel) -> StepModel
    recommends
        b.wf(),
        p.wf(),
{
    let n = p.spec_eff_count();
    match op {
        Operator::Delete => StepModel {
            t: Transition::Pending(PendingInput::spec_empty()),
            b: delete_lines_m(b, n as int, p.register),
        },
        Operator::Yank => StepModel {
            t: Transition::Pending(PendingInput::spec_empty()),
            b: yank_lines_m(b, n as int, p.register),
        },
        Operator::Change => StepModel {
            t: Transition::Mode(Mode::Insert),
            b: change_lines_m(b, n as int, p.register),
        },
    }
}

/// A normal-mode key while a multi-key prefix is held.
pub open spec fn normal_prefix_step(p: PendingInput, pf: Prefix, k: Key, b: BufModel) -> StepModel
    recommends
        b.wf(),
        p.wf(),
{
    let cleared = PendingInput { prefix: None, ..p };
    match (pf, k) {
        (Prefix::Go, Key::Char(c)) => if c == 'g' {
            normal_motion_step(cleared, Motion::FirstLine, b)
        } else {
            reset_step(b)
        },
        (Prefix::Find, Key::Char(c)) => normal_motion_step(cleared, Motion::FindChar(c), b),
        (Prefix::Reg, Key::Char(c)) => if is_reg_name(c) {
            StepModel {
                t: Transition::Pending(PendingInput { register: Some(c), ..cleared }),
                b,
            }
        } else {
            reset_step(b)
        },
        (Prefix::Zed, Key::Char(c)) => if c == 'Z' {
            StepModel { t: Transition::Quit, b }
        } else {
            reset_step(b)
        },
        _ => reset_step(b),
    }
}

/// A normal-mode key with no prefix held.
pub open spec fn normal_plain_step(p: PendingInput, k: Key, b: BufModel) -> StepModel
    recommends
        b.wf(),
        p.wf(),
{
    match k {
        Key::Esc => reset_step(b),
        Key::Left => normal_motion_step(p, Motion::Left, b),
        Key::Right => normal_motion_step(p, Motion::Right, b),
        Key::Up => normal_motion_step(p, Motion::Up, b),
        Key::Down => normal_motion_step(p, Motion::Down, b),
        Key::Char(c) => match spec_digit_of(c) {
            Some(d) => if d == 0 && p.count is None {
                normal_motion_step(p, Motion::LineStart, b)
            } else if d >= 1 || p.count is Some {
                StepModel {
                    t: Transition::Pending(
                        PendingInput { count: Some(p.spec_push_digit(d)), ..p },
                    ),
                    b,
                }
            } else {
                reset_step(b)
            },
            None => match key_operator(c) {
                Some(op) => match p.operator {
                    None => StepModel {
                        t: Transition::Pending(PendingInput { operator: Some(op), ..p }),
                        b,
                    },
                    Some(held) => if held == op {
                        doubled_op_step(p, op, b)
                    } else {
                        reset_step(b)
                    },
                },
                None => match key_single_motion(c) {
                    Some(m) => normal_motion_step(p, m, b),
                    None => match c {
                        'g' => StepModel {
                            t: Transition::Pending(PendingInput { prefix: Some(Prefix::Go), ..p }),
                            b,
                        },
                        'f' => StepModel {
                            t: Transition::Pending(
                                PendingInput { prefix: Some(Prefix::Find), ..p },
                            ),
                            b,
                        },
                        '"' => StepModel {
                            t: Transition::Pending(PendingInput { prefix: Some(Prefix::Reg), ..p }),
                            b,
                        },
                        'Z' => StepModel {
                            t: Transition::Pending(PendingInput { prefix: Some(Prefix::Zed), ..p }),
                            b,
                        },
                        'i' => StepModel { t: Transition::Mode(Mode::Insert), b },
                        'a' => StepModel {
                            t: Transition::Mode(Mode::Insert),
                            b: motion_once(b, Motion::Right),
                        },
                        'I' => StepModel {
                            t: Transition::Mode(Mode::Insert),
                            b: motion_once(b, Motion::LineStart),
                        },
                        'A' => StepModel {
                            t: Transition::Mode(Mode::Insert),
                            b: motion_once(b, Motion::LineEnd),
                        },
                        'o' => StepModel { t: Transition::Mode(Mode::Insert), b: open_below_m(b) },
                        'O' => StepModel { t: Transition::Mode(Mode::Insert), b: open_above_m(b) },
                        'p' => StepModel {
                            t: Transition::Pending(PendingInput::spec_empty()),
                            b: paste_m(b, p.register),
                        },
                        'R' => StepModel { t: Transition::Mode(Mode::Replace), b },
                        'v' => StepModel {
                            t: Transition::Mode(Mode::Visual),
                            b: BufModel { anchor: Some((b.line, b.col)), ..b },
                        },
                        'V' => StepModel {
                            t: Transition::Mode(Mode::VisualLine),
                            b: BufModel { anchor: Some((b.line, b.col)), ..b },
                        },
                        ':' => StepModel { t: Transition::Mode(Mode::Command), b },
                        _ => reset_step(b),
                    },
                },
            },
        },
        _ => reset_step(b),
    }
}

/// One normal-mode dispatch.
pub open spec fn step_normal(p: PendingInput, k: Key, b: BufModel) -> StepModel
    recommends
        b.wf(),
        p.wf(),
{
    match p.prefix {
        Some(pf) => normal_prefix_step(p, pf, k, b),
        None => normal_plain_step(p, k, b),
    }
}

/// One insert-mode dispatch: characters go into the buffer, `Esc` steps
/// the cursor one left when possible and returns to normal mode.
pub open spec fn step_insert(k: Key, b: BufModel) -> StepModel
    recommends
        b.wf(),
{
    match k {
        Key::Char(c) => StepModel { t: Transition::Nop, b: insert_char_m(b, c) },
        Key::Enter => StepModel { t: Transition::Nop, b: newline_m(b) },
        Key::Backspace => StepModel { t: Transition::Nop, b: backspace_m(b) },
        Key::Left => StepModel { t: Transition::Nop, b: motion_once(b, Motion::Left) },
        Key::Right => StepModel { t: Transition::Nop, b: motion_once(b, Motion::Right) },
        Key::Up => StepModel { t: Transition::Nop, b: motion_once(b, Motion::Up) },
        Key::Down => StepModel { t: Transition::Nop, b: motion_once(b, Motion::Down) },
        Key::Esc => StepModel {
            t: Transition::Mode(Mode::Normal),
            b: if b.col > 0 {
                b.with_cursor(b.line, b.col - 1)
            } else {
                b
            },
        },
    }
}

/// One replace-mode dispatch: characters overwrite instead of inserting.
pub open spec fn step_replace(k: Key, b: BufModel) -> StepModel
    recommends
        b.wf(),
{
    match k {
        Key::Char(c) => StepModel { t: Transition::Nop, b: overwrite_m(b, c) },
        Key::Backspace => StepModel { t: Transition::Nop, b: motion_once(b, Motion::Left) },
        Key::Left => StepModel { t: Transition::Nop, b: motion_once(b, Motion::Left) },
        Key::Right => StepModel { t: Transition::Nop, b: motion_once(b, Motion::Right) },
        Key::Up => StepModel { t: Transition::Nop, b: motion_once(b, Motion::Up) },
        Key::Down => StepModel { t: Transition::Nop, b: motion_once(b, Motion::Down) },
        Key::Esc => StepModel { t: Transition::Mode(Mode::Normal), b },
        _ => StepModel { t: Transition::Nop, b },
    }
}

/// An operator pressed in a visual mode: it acts on the selection at
/// once — linewise on whole lines in line-visual mode, charwise on the
/// span from the anchor to the cursor otherwise — the anchor clears and
/// normal mode returns (insert mode after a change).
pub open spec fn visual_op_step(linewise: bool, p: PendingInput, op: Operator, b: BufModel) -> StepModel
    recommends
        b.wf(),
        p.wf(),
{
    let (al, ac) = clamped_anchor(b);
    let (l1, c1, l2, c2) = ordered_span(al, ac, b.line, b.col);
    if linewise {
        let start = b.with_cursor(l1, 0);
        let n = l2 - l1 + 1;
        match op {
            Operator::Delete => StepModel {
                t: Transition::Mode(Mode::Normal),
                b: BufModel { anchor: None, ..delete_lines_m(start, n, p.register) },
            },
            Operator::Yank => StepModel {
                t: Transition::Mode(Mode::Normal),
                b: BufModel { anchor: None, ..yank_lines_m(start, n, p.register) },
            },
            Operator::Change => StepModel {
                t: Transition::Mode(Mode::Insert),
                b: BufModel { anchor: None, ..change_lines_m(start, n, p.register) },
            },
        }
    } else {
        match op {
            Operator::Delete => StepModel {
                t: Transition::Mode(Mode::Normal),
                b: BufModel { anchor: None, ..delete_span_m(b, l1, c1, l2, c2, p.register) },
            },
            Operator::Yank => StepModel {
                t: Transition::Mode(Mode::Normal),
                b: BufModel { anchor: None, ..yank_span_m(b, l1, c1, l2, c2, p.register) },
            },
            Operator::Change => StepModel {
                t: Transition::Mode(Mode::Insert),
                b: BufModel { anchor: None, ..delete_span_m(b, l1, c1, l2, c2, p.register) },
            },
        }
    }
}

/// A motion in a visual mode: the cursor moves, the anchor stays, so
/// the selection stretches.
pub open spec fn visual_motion_step(p: PendingInput, m: Motion, b: BufModel) -> StepModel
    recommends
        b.wf(),
        p.wf(),
{
    StepModel {
        t: Transition::Pending(PendingInput::spec_empty()),
        b: motion_n(b, m, p.spec_eff_count() as int),
    }
}

/// One dispatch in a visual mode (charwise or linewise).
pub open spec fn step_visual(linewise: bool, p: PendingInput, k: Key, b: BufModel) -> StepModel
    recommends
        b.wf(),
        p.wf(),
{
    match p.prefix {
        Some(pf) => match k {
            Key::Esc => StepModel {
                t: Transition::Mode(Mode::Normal),
                b: BufModel { anchor: None, ..b },
            },
            _ => {
                let cleared = PendingInput { prefix: None, ..p };
                match (pf, k) {
                    (Prefix::Go, Key::Char(c)) => if c == 'g' {
                        visual_motion_step(cleared, Motion::FirstLine, b)
                    } else {
                        reset_step(b)
                    },
                    (Prefix::Find, Key::Char(c)) => visual_motion_step(
                        cleared,
                        Motion::FindChar(c),
                        b,
                    ),
                    _ => reset_step(b),
                }
            },
        },
        None => match k {
            Key::Esc => StepModel {
                t: Transition::Mode(Mode::Normal),
                b: BufModel { anchor: None, ..b },
            },
            Key::Left => visual_motion_step(p, Motion::Left, b),
            Key::Right => visual_motion_step(p, Motion::Right, b),
            Key::Up => visual_motion_step(p, Motion::Up, b),
            Key::Down => visual_motion_step(p, Motion::Down, b),
            Key::Char(c) => match spec_digit_of(c) {
                Some(d) => if d == 0 && p.count is None {
                    visual_motion_step(p, Motion::LineStart, b)
                } else if d >= 1 || p.count is Some {
                    StepModel {
                        t: Transition::Pending(
                            PendingInput { count: Some(p.spec_push_digit(d)), ..p },
                        ),
                        b,
                    }
                } else {
                    reset_step(b)
                },
                None => match key_operator(c) {
                    Some(op) => visual_op_step(linewise, p, op, b),
                    None => match key_single_motion(c) {
                        Some(m) => visual_motion_step(p, m, b),
                        None => match c {
                            'g' => StepModel {
                                t: Transition::Pending(
                                    PendingInput { prefix: Some(Prefix::Go), ..p },
                                ),
                                b,
                            },
                            'f' => StepModel {
                                t: Transition::Pending(
                                    PendingInput { prefix: Some(Prefix::Find), ..p },
                                ),
                                b,
                            },
                            'v' => if linewise {
                                StepModel { t: Transition::Mode(Mode::Visual), b }
                            } else {
                                StepModel {
                                    t: Transition::Mode(Mode::Normal),
                                    b: BufModel { anchor: None, ..b },
                                }
                            },
                            'V' => if linewise {
                                StepModel {
                                    t: Transition::Mode(Mode::Normal),
                                    b: BufModel { anchor: None, ..b },
                                }
                            } else {
                                StepModel { t: Transition::Mode(Mode::VisualLine), b }
                            },
                            _ => reset_step(b),
                        },
                    },
                },
            },
            _ => reset_step(b),
        },
    }
}

/// One command-mode dispatch: the command line itself lives outside the
/// core; `Enter` executes it and `Esc` abandons it, both returning to
/// normal mode.
pub open spec fn step_command(k: Key, b: BufModel) -> StepModel
    recommends
        b.wf(),
{
    match k {
        Key::Esc => StepModel { t: Transition::Mode(Mode::Normal), b },
        Key::Enter => StepModel { t: Transition::Mode(Mode::Normal), b },
        _ => StepModel { t: Transition::Nop, b },
    }
}

/// The model of one dispatch, whatever the mode.
pub open spec fn step(m: Mode, p: PendingInput, ev: InputEvent, b: BufModel) -> StepModel
    recommends
        b.wf(),
        p.wf(),
{
    match ev {
        InputEvent::Other => StepModel { t: Transition::Nop, b },
        InputEvent::Key(k) => match m {
            Mode::Normal => step_normal(p, k, b),
            Mode::Insert => step_insert(k, b),
            Mode::Replace => step_replace(k, b),
            Mode::Visual => step_visual(false, p, k, b),
            Mode::VisualLine => step_visual(true, p, k, b),
            Mode::Command => step_command(k, b),
        },
    }
}

fn digit_of(c: char) -> (r: Option<u32>)
    ensures
        r == spec_digit_of(c),
{
    match c {
        '0' => Some(0u32),
        '1' => Some(1u32),
        '2' => Some(2u32),
        '3' => Some(3u32),
        '4' => Some(4u32),
        '5' => Some(5u32),
        '6' => Some(6u32),
        '7' => Some(7u32),
        '8' => Some(8u32),
        '9' => Some(9u32),
        _ => None,
    }
}

fn operator_of(c: char) -> (r: Option<Operator>)
    ensures
        r == key_operator(c),
{
    match c {
        'd' => Some(Operator::Delete),
        'y' => Some(Operator::Yank),
        'c' => Some(Operator::Change),
        _ => None,
    }
}

fn single_motion_of(c: char) -> (r: Option<Motion>)
    ensures
        r == key_single_motion(c),
{
    match c {
        'h' => Some(Motion::Left),
        'j' => Some(Motion::Down),
        'k' => Some(Motion::Up),
        'l' => Some(Motion::Right),
        '$' => Some(Motion::LineEnd),
        'w' => Some(Motion::WordForward),
        'b' => Some(Motion::WordBack),
        'e' => Some(Motion::WordEnd),
        'G' => Some(Motion::LastLine),
        _ => None,
    }
}

fn reg_name_ok(c: char) -> (r: bool)
    ensures
        r == is_reg_name(c),
{
    ('a' <= c && c <= 'z') || ('A' <= c && c <= 'Z')
}

/// A completing motion in normal mode, applied to the buffer.
fn run_normal_motion(p: PendingInput, m: Motion, b: &mut Buffer) -> (t: Transition)
    requires
        old(b)@.wf(),
        p.wf(),
    ensures
        t == normal_motion_step(p, m, old(b)@).t,
        final(b)@ == normal_motion_step(p, m, old(b)@).b,
        final(b)@.wf(),
{
    let n = p.eff_count();
    match p.operator {
        None => {
            b.apply_motion(m, n);
            Transition::Pending(PendingInput::empty())
        },
        Some(op) => {
            let sl = b.line;
            let sc = b.col;
            b.apply_motion(m, n);
            proof {
                crate::motion::lemma_motion_n_wf(old(b)@, m, n as int);
            }
            let tl = b.line;
            let tc = b.col;
            let (l1, c1, l2, c2) = if sl < tl || (sl == tl && sc <= tc) {
                (sl, sc, tl, tc)
            } else {
                (tl, tc, sl, sc)
            };
            match op {
                Operator::Delete => {
                    b.delete_span(l1, c1, l2, c2, p.register);
                    proof {
                        assert(b@ =~~= normal_motion_step(p, m, old(b)@).b);
                    }
                    Transition::Pending(PendingInput::empty())
                },
                Operator::Yank => {
                    b.yank_span(l1, c1, l2, c2, p.register);
                    proof {
                        assert(b@ =~~= normal_motion_step(p, m, old(b)@).b);
                    }
                    Transition::Pending(PendingInput::empty())
                },
                Operator::Change => {
                    b.delete_span(l1, c1, l2, c2, p.register);
                    proof {
                        assert(b@ =~~= normal_motion_step(p, m, old(b)@).b);
                    }
                    Transition::Mode(Mode::Insert)
                },
            }
        },
    }
}

/// A doubled operator key, applied linewise.
fn run_doubled_op(p: PendingInput, op: Operator, b: &mut Buffer) -> (t: Transition)
    requires
        old(b)@.wf(),
        p.wf(),
    ensures
        t == doubled_op_step(p, op, old(b)@).t,
        final(b)@ == doubled_op_step(p, op, old(b)@).b,
        final(b)@.wf(),
{
    let n = p.eff_count() as usize;
    match op {
        Operator::Delete => {
            b.delete_lines(n, p.register);
            Transition::Pending(PendingInput::empty())
        },
        Operator::Yank => {
            b.yank_lines(n, p.register);
            Transition::Pending(PendingInput::empty())
        },
        Operator::Change => {
            b.change_lines(n, p.register);
            Transition::Mode(Mode::Insert)
        },
    }
}

/// One normal-mode dispatch, applied to the buffer.
fn run_normal(p: PendingInput, k: Key, b: &mut Buffer) -> (t: Transition)
    requires
        old(b)@.wf(),
        p.wf(),
    ensures
        t == step_normal(p, k, old(b)@).t,
        final(b)@ == step_normal(p, k, old(b)@).b,
        final(b)@.wf(),
{
    match p.prefix {
        Some(pf) => {
            let cleared = PendingInput {
                count: p.count,
                operator: p.operator,
                register: p.register,
                prefix: None,
            };
            match (pf, k) {
                (Prefix::Go, Key::Char(c)) => {
                    if c == 'g' {
                        run_normal_motion(cleared, Motion::FirstLine, b)
                    } else {
                        Transition::Pending(PendingInput::empty())
                    }
                },
                (Prefix::Find, Key::Char(c)) => run_normal_motion(cleared, Motion::FindChar(c), b),
                (Prefix::Reg, Key::Char(c)) => {
                    if reg_name_ok(c) {
                        Transition::Pending(
                            PendingInput {
                                count: cleared.count,
                                operator: cleared.operator,
                                register: Some(c),
                                prefix: None,
                            },
                        )
                    } else {
                        Transition::Pending(PendingInput::empty())
                    }
                },
                (Prefix::Zed, Key::Char(c)) => {
                    if c == 'Z' {
                        Transition::Quit
                    } else {
                        Transition::Pending(PendingInput::empty())
                    }
                },
                _ => Transition::Pending(PendingInput::empty()),
            }
        },
        None => run_normal_plain(p, k, b),
    }
}

/// A normal-mode key with no prefix held, applied to the buffer.
fn run_normal_plain(p: PendingInput, k: Key, b: &mut Buffer) -> (t: Transition)
    requires
        old(b)@.wf(),
        p.wf(),
    ensures
        t == normal_plain_step(p, k, old(b)@).t,
        final(b)@ == normal_plain_step(p, k, old(b)@).b,
        final(b)@.wf(),
{
    match k {
        Key::Esc => Transition::Pending(PendingInput::empty()),
        Key::Left => run_normal_motion(p, Motion::Left, b),
        Key::Right => run_normal_motion(p, Motion::Right, b),
        Key::Up => run_normal_motion(p, Motion::Up, b),
        Key::Down => run_normal_motion(p, Motion::Down, b),
        Key::Char(c) => match digit_of(c) {
            Some(d) => {
                if d == 0 && matches!(p.count, None) {
                    run_normal_motion(p, Motion::LineStart, b)
                } else {
                    let q = p.push_digit(d);
                    Transition::Pending(q)
                }
            },
            None => match operator_of(c) {
                Some(op) => match p.operator {
                    None => Transition::Pending(
                        PendingInput {
                            count: p.count,
                            operator: Some(op),
                            register: p.register,
                            prefix: p.prefix,
                        },
                    ),
                    Some(held) => {
                        if held == op {
                            run_doubled_op(p, op, b)
                        } else {
                            Transition::Pending(PendingInput::empty())
                        }
                    },
                },
                None => match single_motion_of(c) {
                    Some(m) => run_normal_motion(p, m, b),
                    None => match c {
                        'g' => Transition::Pending(
                            PendingInput { prefix: Some(Prefix::Go), ..p },
                        ),
                        'f' => Transition::Pending(
                            PendingInput { prefix: Some(Prefix::Find), ..p },
                        ),
                        '"' => Transition::Pending(
                            PendingInput { prefix: Some(Prefix::Reg), ..p },
                        ),
                        'Z' => Transition::Pending(
                            PendingInput { prefix: Some(Prefix::Zed), ..p },
                        ),
                        'i' => Transition::Mode(Mode::Insert),
                        'a' => {
                            b.apply_motion_once(Motion::Right);
                            Transition::Mode(Mode::Insert)
                        },
                        'I' => {
                            b.apply_motion_once(Motion::LineStart);
                            Transition::Mode(Mode::Insert)
                        },
                        'A' => {
                            b.apply_motion_once(Motion::LineEnd);
                            Transition::Mode(Mode::Insert)
                        },
                        'o' => {
                            b.open_below();
                            Transition::Mode(Mode::Insert)
                        },
                        'O' => {
                            b.open_above();
                            Transition::Mode(Mode::Insert)
                        },
                        'p' => {
                            b.paste(p.register);
                            Transition::Pending(PendingInput::empty())
                        },
                        'R' => Transition::Mode(Mode::Replace),
                        'v' => {
                            b.set_anchor_here();
                            Transition::Mode(Mode::Visual)
                        },
                        'V' => {
                            b.set_anchor_here();
                            Transition::Mode(Mode::VisualLine)
                        },
                        ':' => Transition::Mode(Mode::Command),
                        _ => Transition::Pending(PendingInput::empty()),
                    },
                },
            },
        },
        _ => Transition::Pending(PendingInput::empty()),
    }
}

/// One insert-mode dispatch, applied to the buffer.
fn run_insert(k: Key, b: &mut Buffer) -> (t: Transition)
    requires
        old(b)@.wf(),
    ensures
        t == step_insert(k, old(b)@).t,
        final(b)@ == step_insert(k, old(b)@).b,
        final(b)@.wf(),
{
    match k {
        Key::Char(c) => {
            b.insert_char(c);
            Transition::Nop
        },
        Key::Enter => {
            b.insert_newline();
            Transition::Nop
        },
        Key::Backspace => {
            b.backspace();
            Transition::Nop
        },
        Key::Left => {
            b.apply_motion_once(Motion::Left);
            Transition::Nop
        },
        Key::Right => {
            b.apply_motion_once(Motion::Right);
            Transition::Nop
        },
        Key::Up => {
            b.apply_motion_once(Motion::Up);
            Transition::Nop
        },
        Key::Down => {
            b.apply_motion_once(Motion::Down);
            Transition::Nop
        },
        Key::Esc => {
            if b.col > 0 {
                b.col = b.col - 1;
            }
            Transition::Mode(Mode::Normal)
        },
    }
}

/// One replace-mode dispatch, applied to the buffer.
fn run_replace(k: Key, b: &mut Buffer) -> (t: Transition)
    requires
        old(b)@.wf(),
    ensures
        t == step_replace(k, old(b)@).t,
        final(b)@ == step_replace(k, old(b)@).b,
        final(b)@.wf(),
{
    match k {
        Key::Char(c) => {
            b.overwrite_char(c);
            Transition::Nop
        },
        Key::Backspace => {
            b.apply_motion_once(Motion::Left);
            Transition::Nop
        },
        Key::Left => {
            b.apply_motion_once(Motion::Left);
            Transition::Nop
        },
        Key::Right => {
            b.apply_motion_once(Motion::Right);
            Transition::Nop
        },
        Key::Up => {
            b.apply_motion_once(Motion::Up);
            Transition::Nop
        },
        Key::Down => {
            b.apply_motion_once(Motion::Down);
            Transition::Nop
        },
        Key::Esc => Transition::Mode(Mode::Normal),
        _ => Transition::Nop,
    }
}

/// An operator pressed in a visual mode, applied to the selection.
fn run_visual_op(linewise: bool, p: PendingInput, op: Operator, b: &mut Buffer) -> (t: Transition)
    requires
        old(b)@.wf(),
        p.wf(),
    ensures
        t == visual_op_step(linewise, p, op, old(b)@).t,
        final(b)@ == visual_op_step(linewise, p, op, old(b)@).b,
        final(b)@.wf(),
{
    let nlines = self_lines_len(b);
    let (al, ac) = match b.anchor {
        None => (b.line, b.col),
        Some(pos) => {
            let l = if pos.0 < nlines {
                pos.0
            } else {
                nlines - 1
            };
            let ll = b.lines[l].len();
            let c = if pos.1 <= ll {
                pos.1
            } else {
                ll
            };
            (l, c)
        },
    };
    let (l1, c1, l2, c2) = if al < b.line || (al == b.line && ac <= b.col) {
        (al, ac, b.line, b.col)
    } else {
        (b.line, b.col, al, ac)
    };
    if linewise {
        b.line = l1;
        b.col = 0;
        let n = l2 - l1 + 1;
        proof {
            assert(b@ == old(b)@.with_cursor(l1 as int, 0));
        }
        let t = match op {
            Operator::Delete => {
                b.delete_lines(n, p.register);
                Transition::Mode(Mode::Normal)
            },
            Operator::Yank => {
                b.yank_lines(n, p.register);
                Transition::Mode(Mode::Normal)
            },
            Operator::Change => {
                b.change_lines(n, p.register);
                Transition::Mode(Mode::Insert)
            },
        };
        b.clear_anchor();
        proof {
            assert(b@ =~~= visual_op_step(linewise, p, op, old(b)@).b);
        }
        t
    } else {
        let t = match op {
            Operator::Delete => {
                b.delete_span(l1, c1, l2, c2, p.register);
                Transition::Mode(Mode::Normal)
            },
            Operator::Yank => {
                b.yank_span(l1, c1, l2, c2, p.register);
                Transition::Mode(Mode::Normal)
            },
            Operator::Change => {
                b.delete_span(l1, c1, l2, c2, p.register);
                Transition::Mode(Mode::Insert)
            },
        };
        b.clear_anchor();
        proof {
            assert(b@ =~~= visual_op_step(linewise, p, op, old(b)@).b);
        }
        t
    }
}

/// The line count of the buffer, read out for bound reasoning.
fn self_lines_len(b: &Buffer) -> (n: usize)
    ensures
        n == b@.text.len(),
{
    b.lines.len()
}

/// One dispatch in a visual mode, applied to the buffer.
fn run_visual(linewise: bool, p: PendingInput, k: Key, b: &mut Buffer) -> (t: Transition)
    requires
        old(b)@.wf(),
        p.wf(),
    ensures
        t == step_visual(linewise, p, k, old(b)@).t,
        final(b)@ == step_visual(linewise, p, k, old(b)@).b,
        final(b)@.wf(),
{
    match p.prefix {
        Some(pf) => match k {
            Key::Esc => {
                b.clear_anchor();
                Transition::Mode(Mode::Normal)
            },
            _ => {
                let cleared = PendingInput {
                    count: p.count,
                    operator: p.operator,
                    register: p.register,
                    prefix: None,
                };
                match (pf, k) {
                    (Prefix::Go, Key::Char(c)) => {
                        if c == 'g' {
                            b.apply_motion(Motion::FirstLine, cleared.eff_count());
                            Transition::Pending(PendingInput::empty())
                        } else {
                            Transition::Pending(PendingInput::empty())
                        }
                    },
                    (Prefix::Find, Key::Char(c)) => {
                        b.apply_motion(Motion::FindChar(c), cleared.eff_count());
                        Transition::Pending(PendingInput::empty())
                    },
                    _ => Transition::Pending(PendingInput::empty()),
                }
            },
        },
        None => match k {
            Key::Esc => {
                b.clear_anchor();
                Transition::Mode(Mode::Normal)
            },
            Key::Left => {
                b.apply_motion(Motion::Left, p.eff_count());
                Transition::Pending(PendingInput::empty())
            },
            Key::Right => {
                b.apply_motion(Motion::Right, p.eff_count());
                Transition::Pending(PendingInput::empty())
            },
            Key::Up => {
                b.apply_motion(Motion::Up, p.eff_count());
                Transition::Pending(PendingInput::empty())
            },
            Key::Down => {
                b.apply_motion(Motion::Down, p.eff_count());
                Transition::Pending(PendingInput::empty())
            },
            Key::Char(c) => match digit_of(c) {
                Some(d) => {
                    if d == 0 && matches!(p.count, None) {
                        b.apply_motion(Motion::LineStart, p.eff_count());
                        Transition::Pending(PendingInput::empty())
                    } else {
                        let q = p.push_digit(d);
                        Transition::Pending(q)
                    }
                },
                None => match operator_of(c) {
                    Some(op) => run_visual_op(linewise, p, op, b),
                    None => match single_motion_of(c) {
                        Some(m) => {
                            b.apply_motion(m, p.eff_count());
                            Transition::Pending(PendingInput::empty())
                        },
                        None => match c {
                            'g' => Transition::Pending(
                                PendingInput { prefix: Some(Prefix::Go), ..p },
                            ),
                            'f' => Transition::Pending(
                                PendingInput { prefix: Some(Prefix::Find), ..p },
                            ),
                            'v' => {
                                if linewise {
                                    Transition::Mode(Mode::Visual)
                                } else {
                                    b.clear_anchor();
                                    Transition::Mode(Mode::Normal)
                                }
                            },
                            'V' => {
                                if linewise {
                                    b.clear_anchor();
                                    Transition::Mode(Mode::Normal)
                                } else {
                                    Transition::Mode(Mode::VisualLine)
                                }
                            },
                            _ => Transition::Pending(PendingInput::empty()),
                        },
                    },
                },
            },
            _ => Transition::Pending(PendingInput::empty()),
        },
    }
}

/// One command-mode dispatch.
fn run_command(k: Key, b: &mut Buffer) -> (t: Transition)
    requires
        old(b)@.wf(),
    ensures
        t == step_command(k, old(b)@).t,
        final(b)@ == step_command(k, old(b)@).b,
        final(b)@.wf(),
{
    match k {
        Key::Esc => Transition::Mode(Mode::Normal),
        Key::Enter => Transition::Mode(Mode::Normal),
        _ => Transition::Nop,
    }
}

/// One dispatch of the engine: the event against the current mode and
/// pending input, with its buffer side effects. Follows `step` exactly.
pub fn transition(m: Mode, p: PendingInput, ev: InputEvent, b: &mut Buffer) -> (t: Transition)
    requires
        old(b)@.wf(),
        p.wf(),
    ensures
        t == step(m, p, ev, old(b)@).t,
        final(b)@ == step(m, p, ev, old(b)@).b,
        final(b)@.wf(),
{
    match ev {
        InputEvent::Other => Transition::Nop,
        InputEvent::Key(k) => match m {
            Mode::Normal => run_normal(p, k, b),
            Mode::Insert => run_insert(k, b),
            Mode::Replace => run_replace(k, b),
            Mode::Visual => run_visual(false, p, k, b),
            Mode::VisualLine => run_visual(true, p, k, b),
            Mode::Command => run_command(k, b),
        },
    }
}

} // verus!
