//! The laws of the interpreter, proved once and for all inputs.
//!
//! Each proof function here states a property of `process_model` — the
//! exact model that `VimState::process_event` is proved to follow — so
//! whatever holds of the model holds of the running editor.

use vstd::prelude::*;
use crate::buffer::{BufModel, RegModel, span_segs};
use crate::engine::{key_operator, key_single_motion, ordered_span};
use crate::input::{InputEvent, Key};
use crate::mode::Mode;
use crate::motion::{motion_n, motion_once, Motion, lemma_motion_n_wf};
use crate::pending::PendingInput;
use crate::state::{ProcessModel, VimState};

verus! {

/// The events of a key sequence, processed one after the other; the
/// quit flag is the last event's.
pub open spec fn process_events(st: VimState, evs: Seq<InputEvent>, b: BufModel) -> ProcessModel
    decreases evs.len(),
{
    if evs.len() == 0 {
        ProcessModel { state: st, b, quit: false }
    } else {
        let r = st.process_model(evs[0], b);
        process_events(r.state, evs.skip(1), r.b)
    }
}

/// The event a single character key makes.
pub open spec fn ch(c: char) -> InputEvent {
    InputEvent::Key(Key::Char(c))
}

/// In every mode and from every pending input, `Esc` yields normal mode
/// with nothing pending and no quit; and doing so again changes nothing
/// more, neither state nor buffer.
#[verifier::rlimit(60)]
pub proof fn lemma_esc_returns_to_normal(st: VimState, b: BufModel)
    requires
        st.wf(),
        b.wf(),
    ensures
        ({
            let r1 = st.process_model(InputEvent::Key(Key::Esc), b);
            let r2 = r1.state.process_model(InputEvent::Key(Key::Esc), r1.b);
            &&& r1.state.mode == Mode::Normal
            &&& r1.state.pending == PendingInput::spec_empty()
            &&& !r1.quit
            &&& r2.state == r1.state
            &&& r2.b == r1.b
            &&& !r2.quit
        }),
{
}

/// In normal mode, `dd` deletes exactly the line the cursor is on,
/// whatever its column, and leaves normal mode with nothing pending.
/// When it was the only line, one empty line remains.
pub proof fn lemma_dd_deletes_cursor_line(st: VimState, b: BufModel)
    requires
        st.wf(),
        st.mode == Mode::Normal,
        st.pending == PendingInput::spec_empty(),
        b.wf(),
    ensures
        ({
            let r1 = st.process_model(ch('d'), b);
            let r2 = r1.state.process_model(ch('d'), r1.b);
            &&& r1.b == b
            &&& !r1.quit
            &&& r2.state.mode == Mode::Normal
            &&& r2.state.pending == PendingInput::spec_empty()
            &&& r2.b.text == (if b.text.len() > 1 {
                b.text.remove(b.line)
            } else {
                seq![Seq::<char>::empty()]
            })
            &&& r2.b.unnamed == (RegModel { linewise: true, segs: seq![b.text[b.line]] })
            &&& !r2.quit
        }),
{
    let r1 = st.process_model(ch('d'), b);
    let r2 = r1.state.process_model(ch('d'), r1.b);
    assert(b.text.subrange(b.line, b.line + 1) =~= seq![b.text[b.line]]);
    if b.text.len() > 1 {
        assert(b.text.take(b.line) + b.text.skip(b.line + 1) =~= b.text.remove(b.line));
        assert(r2.b.text =~= b.text.remove(b.line));
    } else {
        assert((b.text.take(b.line) + b.text.skip(b.line + 1)).len() == 0);
    }
}

/// In normal mode, `3dd` deletes exactly three lines from the cursor
/// line, or as many as remain when fewer do.
#[verifier::rlimit(100)]
pub proof fn lemma_count_dd_deletes_lines(st: VimState, b: BufModel)
    requires
        st.wf(),
        st.mode == Mode::Normal,
        st.pending == PendingInput::spec_empty(),
        b.wf(),
    ensures
        ({
            let r = process_events(st, seq![ch('3'), ch('d'), ch('d')], b);
            let k = if b.text.len() - b.line <= 3 {
                b.text.len() - b.line
            } else {
                3
            };
            let rest = b.text.take(b.line) + b.text.skip(b.line + k);
            &&& r.state.mode == Mode::Normal
            &&& r.state.pending == PendingInput::spec_empty()
            &&& r.b.text == (if rest.len() == 0 {
                seq![Seq::<char>::empty()]
            } else {
                rest
            })
            &&& r.b.unnamed == (RegModel { linewise: true, segs: b.text.subrange(b.line, b.line + k) })
            &&& !r.quit
        }),
{
    let evs = seq![ch('3'), ch('d'), ch('d')];
    let r1 = st.process_model(evs[0], b);
    assert(r1.state.pending.count == Some(3u32));
    let r2 = r1.state.process_model(evs[1], r1.b);
    let r3 = r2.state.process_model(evs[2], r2.b);
    assert(process_events(st, evs, b) == process_events(r1.state, evs.skip(1), r1.b));
    assert(evs.skip(1) =~= seq![ch('d'), ch('d')]);
    assert(process_events(r1.state, seq![ch('d'), ch('d')], r1.b) == process_events(
        r2.state,
        seq![ch('d'), ch('d')].skip(1),
        r2.b,
    ));
    assert(seq![ch('d'), ch('d')].skip(1) =~= seq![ch('d')]);
    assert(process_events(r2.state, seq![ch('d')], r2.b) == process_events(
        r3.state,
        seq![ch('d')].skip(1),
        r3.b,
    ));
    assert(seq![ch('d')].skip(1) =~= Seq::<InputEvent>::empty());
    assert(process_events(r3.state, Seq::<InputEvent>::empty(), r3.b) == (ProcessModel {
        state: r3.state,
        b: r3.b,
        quit: false,
    }));
    assert(!r3.quit);
    assert(process_events(st, evs, b) == r3);
}

/// Moving down `n` times lands `n` lines lower, clamped to the last
/// line; the text and everything but the cursor stay.
pub proof fn lemma_down_n(b: BufModel, n: int)
    requires
        b.wf(),
        n >= 0,
    ensures
        motion_n(b, Motion::Down, n).line == (if b.line + n < b.text.len() {
            b.line + n
        } else {
            b.text.len() - 1
        }),
        motion_n(b, Motion::Down, n).text == b.text,
        motion_n(b, Motion::Down, n).wf(),
    decreases n,
{
    lemma_motion_n_wf(b, Motion::Down, n);
    if n > 0 {
        lemma_down_n(motion_once(b, Motion::Down), n - 1);
    }
}

/// The sequence of `n` bare `j` keys.
pub open spec fn j_events(n: int) -> Seq<InputEvent> {
    Seq::new(n as nat, |i: int| ch('j'))
}

/// From normal mode with nothing pending, `n` single `j` keys move the
/// cursor exactly as `n` down-steps do, and end where they began: in
/// normal mode with nothing pending.
pub proof fn lemma_j_repeated(st: VimState, b: BufModel, n: int)
    requires
        st.wf(),
        st.mode == Mode::Normal,
        st.pending == PendingInput::spec_empty(),
        b.wf(),
        n >= 0,
    ensures
        process_events(st, j_events(n), b) == (ProcessModel {
            state: st,
            b: motion_n(b, Motion::Down, n),
            quit: false,
        }),
    decreases n,
{
    if n == 0 {
        assert(j_events(0).len() == 0);
        assert(motion_n(b, Motion::Down, 0) == b);
    } else {
        let r1 = st.process_model(ch('j'), b);
        assert(r1.b == motion_n(b, Motion::Down, 1));
        assert(motion_n(b, Motion::Down, 1) == motion_n(motion_once(b, Motion::Down), Motion::Down, 0));
        assert(motion_n(motion_once(b, Motion::Down), Motion::Down, 0) == motion_once(b, Motion::Down));
        assert(r1.state == st);
        crate::motion::lemma_motion_once_wf(b, Motion::Down);
        lemma_j_repeated(st, r1.b, n - 1);
        assert(j_events(n).skip(1) =~= j_events(n - 1));
        let whole = motion_n(b, Motion::Down, n);
        lemma_motion_shift(b, n);
        assert(process_events(st, j_events(n), b) == process_events(r1.state, j_events(n - 1), r1.b));
    }
}

/// Splitting `n` down-steps into one step and `n - 1`.
proof fn lemma_motion_shift(b: BufModel, n: int)
    requires
        n >= 1,
    ensures
        motion_n(b, Motion::Down, n) == motion_n(motion_once(b, Motion::Down), Motion::Down, n - 1),
{
}

/// In normal mode, `12j` moves the cursor down twelve lines, clamped to
/// the last line, and equals pressing `j` twelve times.
pub proof fn lemma_count_j(st: VimState, b: BufModel)
    requires
        st.wf(),
        st.mode == Mode::Normal,
        st.pending == PendingInput::spec_empty(),
        b.wf(),
    ensures
        ({
            let r = process_events(st, seq![ch('1'), ch('2'), ch('j')], b);
            &&& r.state == st
            &&& r.b == motion_n(b, Motion::Down, 12)
            &&& r.b.line == (if b.line + 12 < b.text.len() {
                b.line + 12
            } else {
                b.text.len() - 1
            })
            &&& r.b.text == b.text
            &&& !r.quit
            &&& r.b == process_events(st, j_events(12), b).b
        }),
{
    let evs = seq![ch('1'), ch('2'), ch('j')];
    let r1 = st.process_model(evs[0], b);
    assert(r1.state.pending.count == Some(1u32));
    let r2 = r1.state.process_model(evs[1], r1.b);
    assert(r2.state.pending.count == Some(12u32));
    let r3 = r2.state.process_model(evs[2], r2.b);
    assert(r3.b == motion_n(b, Motion::Down, 12));
    assert(process_events(st, evs, b) == process_events(r1.state, evs.skip(1), r1.b));
    assert(evs.skip(1) =~= seq![ch('2'), ch('j')]);
    assert(process_events(r1.state, seq![ch('2'), ch('j')], r1.b) == process_events(
        r2.state,
        seq![ch('2'), ch('j')].skip(1),
        r2.b,
    ));
    assert(seq![ch('2'), ch('j')].skip(1) =~= seq![ch('j')]);
    assert(process_events(r2.state, seq![ch('j')], r2.b) == process_events(
        r3.state,
        seq![ch('j')].skip(1),
        r3.b,
    ));
    assert(seq![ch('j')].skip(1) =~= Seq::<InputEvent>::empty());
    assert(process_events(r3.state, Seq::<InputEvent>::empty(), r3.b) == (ProcessModel {
        state: r3.state,
        b: r3.b,
        quit: false,
    }));
    assert(process_events(st, evs, b) == r3);
    lemma_down_n(b, 12);
    lemma_j_repeated(st, b, 12);
}

/// Entering insert mode with `i`, typing `a`, `b`, `c` and leaving with
/// `Esc` puts exactly `abc` in front of the old cursor position, returns
/// to normal mode, and leaves the cursor on the `c`, one short of the
/// insertion's end.
#[verifier::rlimit(100)]
pub proof fn lemma_insert_abc(st: VimState, b: BufModel)
    requires
        st.wf(),
        st.mode == Mode::Normal,
        st.pending == PendingInput::spec_empty(),
        b.wf(),
    ensures
        ({
            let r = process_events(st, seq![ch('i'), ch('a'), ch('b'), ch('c'), InputEvent::Key(Key::Esc)], b);
            &&& r.state.mode == Mode::Normal
            &&& r.state.pending == PendingInput::spec_empty()
            &&& r.b.text == b.text.update(
                b.line,
                b.cur_line().take(b.col) + seq!['a', 'b', 'c'] + b.cur_line().skip(b.col),
            )
            &&& r.b.line == b.line
            &&& r.b.col == b.col + 2
            &&& !r.quit
        }),
{
    let evs = seq![ch('i'), ch('a'), ch('b'), ch('c'), InputEvent::Key(Key::Esc)];
    let r1 = st.process_model(evs[0], b);
    assert(r1.b == b && r1.state.mode == Mode::Insert);
    let r2 = r1.state.process_model(evs[1], r1.b);
    let r3 = r2.state.process_model(evs[2], r2.b);
    let r4 = r3.state.process_model(evs[3], r3.b);
    let r5 = r4.state.process_model(evs[4], r4.b);
    let t = b.cur_line();
    let l1 = t.take(b.col) + seq!['a'] + t.skip(b.col);
    assert(r2.b.text == b.text.update(b.line, l1) && r2.b.col == b.col + 1 && r2.b.line == b.line);
    assert(r2.b.cur_line() == l1);
    let l2 = l1.take(b.col + 1) + seq!['b'] + l1.skip(b.col + 1);
    assert(r3.b.text == b.text.update(b.line, l1).update(b.line, l2));
    assert(r3.b.cur_line() == l2);
    let l3 = l2.take(b.col + 2) + seq!['c'] + l2.skip(b.col + 2);
    assert(r4.b.text == b.text.update(b.line, l1).update(b.line, l2).update(b.line, l3));
    assert(l3 =~= t.take(b.col) + seq!['a', 'b', 'c'] + t.skip(b.col));
    assert(r4.b.text =~= b.text.update(b.line, l3));
    assert(r4.b.col == b.col + 3);
    assert(r5.b.col == b.col + 2);
    assert(r5.b.text == r4.b.text);
    let esc = InputEvent::Key(Key::Esc);
    assert(process_events(st, evs, b) == process_events(r1.state, evs.skip(1), r1.b));
    assert(evs.skip(1) =~= seq![ch('a'), ch('b'), ch('c'), esc]);
    assert(process_events(r1.state, seq![ch('a'), ch('b'), ch('c'), esc], r1.b) == process_events(
        r2.state,
        seq![ch('a'), ch('b'), ch('c'), esc].skip(1),
        r2.b,
    ));
    assert(seq![ch('a'), ch('b'), ch('c'), esc].skip(1) =~= seq![ch('b'), ch('c'), esc]);
    assert(process_events(r2.state, seq![ch('b'), ch('c'), esc], r2.b) == process_events(
        r3.state,
        seq![ch('b'), ch('c'), esc].skip(1),
        r3.b,
    ));
    assert(seq![ch('b'), ch('c'), esc].skip(1) =~= seq![ch('c'), esc]);
    assert(process_events(r3.state, seq![ch('c'), esc], r3.b) == process_events(
        r4.state,
        seq![ch('c'), esc].skip(1),
        r4.b,
    ));
    assert(seq![ch('c'), esc].skip(1) =~= seq![esc]);
    assert(process_events(r4.state, seq![esc], r4.b) == process_events(
        r5.state,
        seq![esc].skip(1),
        r5.b,
    ));
    assert(seq![esc].skip(1) =~= Seq::<InputEvent>::empty());
    assert(process_events(r5.state, Seq::<InputEvent>::empty(), r5.b) == (ProcessModel {
        state: r5.state,
        b: r5.b,
        quit: false,
    }));
    assert(process_events(st, evs, b) == r5);
}

/// A doubled-operator shorthand fires only when the second key repeats
/// the pending operator exactly: any other operator key aborts the
/// pending command, resets it to empty and leaves the buffer untouched.
pub proof fn lemma_operator_mismatch_aborts(st: VimState, b: BufModel, c1: char, c2: char)
    requires
        st.wf(),
        st.mode == Mode::Normal,
        st.pending == PendingInput::spec_empty(),
        b.wf(),
        key_operator(c1) is Some,
        key_operator(c2) is Some,
        key_operator(c1) != key_operator(c2),
    ensures
        ({
            let r1 = st.process_model(ch(c1), b);
            let r2 = r1.state.process_model(ch(c2), r1.b);
            &&& r1.b == b
            &&& r2.state.mode == Mode::Normal
            &&& r2.state.pending == PendingInput::spec_empty()
            &&& r2.b == b
            &&& !r2.quit
        }),
{
}

/// In visual mode, moving by a motion and pressing an operator key
/// applies the operator to exactly the span from the anchor — the
/// cursor where `v` was pressed — up to the moved cursor, clears the
/// anchor, empties the pending input and returns to normal mode.
#[verifier::rlimit(100)]
pub proof fn lemma_visual_delete_selection(st: VimState, b: BufModel, mc: char)
    requires
        st.wf(),
        st.mode == Mode::Normal,
        st.pending == PendingInput::spec_empty(),
        b.wf(),
        key_single_motion(mc) is Some,
    ensures
        ({
            let m = key_single_motion(mc).unwrap();
            let tgt = motion_once(b, m);
            let (l1, c1, l2, c2) = ordered_span(b.line, b.col, tgt.line, tgt.col);
            let r = process_events(st, seq![ch('v'), ch(mc), ch('d')], b);
            &&& r.state.mode == Mode::Normal
            &&& r.state.pending == PendingInput::spec_empty()
            &&& r.b.anchor is None
            &&& r.b.text == b.text.take(l1) + seq![b.text[l1].take(c1) + b.text[l2].skip(c2)]
                + b.text.skip(l2 + 1)
            &&& r.b.unnamed == (RegModel { linewise: false, segs: span_segs(b.text, l1, c1, l2, c2) })
            &&& r.b.line == l1
            &&& r.b.col == c1
            &&& !r.quit
        }),
{
    let m = key_single_motion(mc).unwrap();
    let evs = seq![ch('v'), ch(mc), ch('d')];
    let r1 = st.process_model(evs[0], b);
    assert(r1.state.mode == Mode::Visual && r1.b.anchor == Some((b.line, b.col)));
    assert(r1.b.text == b.text && r1.b.line == b.line && r1.b.col == b.col);
    let r2 = r1.state.process_model(evs[1], r1.b);
    assert(r2.b == motion_n(r1.b, m, 1));
    assert(motion_n(r1.b, m, 1) == motion_n(motion_once(r1.b, m), m, 0));
    assert(motion_n(motion_once(r1.b, m), m, 0) == motion_once(r1.b, m));
    crate::motion::lemma_motion_once_wf(r1.b, m);
    let tgt = motion_once(b, m);
    assert(motion_once(r1.b, m).line == tgt.line && motion_once(r1.b, m).col == tgt.col);
    let r3 = r2.state.process_model(evs[2], r2.b);
    assert(process_events(st, evs, b) == process_events(r1.state, evs.skip(1), r1.b));
    assert(evs.skip(1) =~= seq![ch(mc), ch('d')]);
    assert(process_events(r1.state, seq![ch(mc), ch('d')], r1.b) == process_events(
        r2.state,
        seq![ch(mc), ch('d')].skip(1),
        r2.b,
    ));
    assert(seq![ch(mc), ch('d')].skip(1) =~= seq![ch('d')]);
    assert(process_events(r2.state, seq![ch('d')], r2.b) == process_events(
        r3.state,
        seq![ch('d')].skip(1),
        r3.b,
    ));
    assert(seq![ch('d')].skip(1) =~= Seq::<InputEvent>::empty());
    assert(process_events(r3.state, Seq::<InputEvent>::empty(), r3.b) == (ProcessModel {
        state: r3.state,
        b: r3.b,
        quit: false,
    }));
    assert(process_events(st, evs, b) == r3);
}

} // verus!
