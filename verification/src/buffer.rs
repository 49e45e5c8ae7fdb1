//! The text buffer the core edits: lines of characters, a cursor, a
//! selection anchor and a register store.
//!
//! Every operation is specified against `BufModel`, a mathematical view of
//! the buffer (sequences of character sequences, integer cursor). The
//! executable methods clamp at the buffer edges and never fail: moving
//! past an edge is a no-op at the edge, and deleting more lines than
//! remain deletes what is there.

use vstd::prelude::*;

verus! {

/// The mathematical text a sequence of character vectors holds.
pub open spec fn lines_view(s: Seq<Vec<char>>) -> Seq<Seq<char>> {
    Seq::new(s.len(), |i: int| s[i]@)
}

/// Mathematical view of a register: linewise or charwise content.
#[verifier::ext_equal]
pub ghost struct RegModel {
    pub linewise: bool,
    pub segs: Seq<Seq<char>>,
}

/// Mathematical view of the whole buffer.
#[verifier::ext_equal]
pub ghost struct BufModel {
    /// The text, one inner sequence per line; never empty.
    pub text: Seq<Seq<char>>,
    /// Cursor line, an index into `text`.
    pub line: int,
    /// Cursor column, in `0 ..= text[line].len()`.
    pub col: int,
    /// Selection anchor while a visual mode is active.
    pub anchor: Option<(int, int)>,
    /// The unnamed register, filled by every delete and yank.
    pub unnamed: RegModel,
    /// Named registers, most recently written first.
    pub named: Seq<(char, RegModel)>,
}

impl BufModel {
    /// A buffer is well formed when it has at least one line and the
    /// cursor sits inside the text, a column being allowed one past the
    /// end of its line. The anchor is not constrained: whoever reads it
    /// clamps it to the buffer that exists then.
    pub open spec fn wf(self) -> bool {
        &&& self.text.len() >= 1
        &&& 0 <= self.line < self.text.len()
        &&& 0 <= self.col <= self.text[self.line].len()
    }

    /// The line the cursor is on.
    pub open spec fn cur_line(self) -> Seq<char> {
        self.text[self.line]
    }

    /// The same buffer with the cursor moved.
    pub open spec fn with_cursor(self, line: int, col: int) -> BufModel {
        BufModel { line, col, ..self }
    }

    /// The same buffer with both registers written: the unnamed one
    /// always, and the named one when a register was named.
    pub open spec fn with_regs(self, name: Option<char>, content: RegModel) -> BufModel {
        BufModel {
            unnamed: content,
            named: match name {
                Some(n) => seq![(n, content)] + self.named,
                None => self.named,
            },
            ..self
        }
    }

    /// The register `name` refers to: the most recently written entry
    /// of that name, or the unnamed register when no name was given.
    pub open spec fn reg_read(self, name: Option<char>) -> RegModel {
        match name {
            Some(n) => match lookup_from(self.named, 0, n) {
                Some(c) => c,
                None => RegModel { linewise: false, segs: Seq::empty() },
            },
            None => self.unnamed,
        }
    }
}

/// The first register named `name` at or after index `i`.
pub open spec fn lookup_from(regs: Seq<(char, RegModel)>, i: int, name: char) -> Option<RegModel>
    decreases regs.len() - i,
{
    if i < 0 || i >= regs.len() {
        None
    } else if regs[i].0 == name {
        Some(regs[i].1)
    } else {
        lookup_from(regs, i + 1, name)
    }
}

/// The buffer after a character is inserted at the cursor; the cursor
/// advances past it.
pub open spec fn insert_char_m(b: BufModel, ch: char) -> BufModel
    recommends
        b.wf(),
{
    let nl = b.cur_line().take(b.col) + seq![ch] + b.cur_line().skip(b.col);
    BufModel { text: b.text.update(b.line, nl), col: b.col + 1, ..b }
}

/// The buffer after the cursor line is split at the cursor; the cursor
/// moves to the start of the new line.
pub open spec fn newline_m(b: BufModel) -> BufModel
    recommends
        b.wf(),
{
    let first = b.cur_line().take(b.col);
    let second = b.cur_line().skip(b.col);
    BufModel {
        text: b.text.take(b.line) + seq![first, second] + b.text.skip(b.line + 1),
        line: b.line + 1,
        col: 0,
        ..b
    }
}

/// The buffer after a backspace: the character left of the cursor goes,
/// or the line joins its predecessor at a line start, or nothing at the
/// very beginning.
pub open spec fn backspace_m(b: BufModel) -> BufModel
    recommends
        b.wf(),
{
    if b.col > 0 {
        let nl = b.cur_line().take(b.col - 1) + b.cur_line().skip(b.col);
        BufModel { text: b.text.update(b.line, nl), col: b.col - 1, ..b }
    } else if b.line > 0 {
        let joined = b.text[b.line - 1] + b.cur_line();
        BufModel {
            text: b.text.take(b.line - 1) + seq![joined] + b.text.skip(b.line + 1),
            line: b.line - 1,
            col: b.text[b.line - 1].len() as int,
            ..b
        }
    } else {
        b
    }
}

/// The buffer after a character overwrites the one under the cursor,
/// inserting at the end of the line; the cursor advances.
pub open spec fn overwrite_m(b: BufModel, ch: char) -> BufModel
    recommends
        b.wf(),
{
    if b.col < b.cur_line().len() {
        BufModel {
            text: b.text.update(b.line, b.cur_line().update(b.col, ch)),
            col: b.col + 1,
            ..b
        }
    } else {
        insert_char_m(b, ch)
    }
}

/// The buffer with an empty line opened below the cursor line, the
/// cursor on it.
pub open spec fn open_below_m(b: BufModel) -> BufModel
    recommends
        b.wf(),
{
    BufModel {
        text: b.text.take(b.line + 1) + seq![Seq::<char>::empty()] + b.text.skip(b.line + 1),
        line: b.line + 1,
        col: 0,
        ..b
    }
}

/// The buffer with an empty line opened above the cursor line, the
/// cursor on it.
pub open spec fn open_above_m(b: BufModel) -> BufModel
    recommends
        b.wf(),
{
    BufModel {
        text: b.text.take(b.line) + seq![Seq::<char>::empty()] + b.text.skip(b.line),
        line: b.line,
        col: 0,
        ..b
    }
}

/// How many whole lines from the cursor line a count of `n` reaches:
/// clamped to what remains.
pub open spec fn clamp_lines(b: BufModel, n: int) -> int
    recommends
        b.wf(),
{
    if n <= b.text.len() - b.line {
        n
    } else {
        b.text.len() - b.line
    }
}

/// The linewise register content made of `k` lines from the cursor line.
pub open spec fn lines_content(b: BufModel, k: int) -> RegModel
    recommends
        b.wf(),
        0 <= k <= b.text.len() - b.line,
{
    RegModel { linewise: true, segs: b.text.subrange(b.line, b.line + k) }
}

/// The buffer after `n` whole lines are deleted from the cursor line:
/// clamped to what remains, never leaving the buffer without a line,
/// cursor at the start of the line that took their place, registers
/// holding the removed lines.
pub open spec fn delete_lines_m(b: BufModel, n: int, name: Option<char>) -> BufModel
    recommends
        b.wf(),
        n >= 1,
{
    let k = clamp_lines(b, n);
    let rest = b.text.take(b.line) + b.text.skip(b.line + k);
    let text2 = if rest.len() == 0 {
        seq![Seq::<char>::empty()]
    } else {
        rest
    };
    let l2 = if b.line < text2.len() {
        b.line
    } else {
        text2.len() - 1
    };
    BufModel { text: text2, line: l2, col: 0, ..b }.with_regs(name, lines_content(b, k))
}

/// The buffer after `n` whole lines are yanked: only the registers and
/// nothing else change.
pub open spec fn yank_lines_m(b: BufModel, n: int, name: Option<char>) -> BufModel
    recommends
        b.wf(),
        n >= 1,
{
    b.with_regs(name, lines_content(b, clamp_lines(b, n)))
}

/// The buffer after `n` whole lines are changed: the lines are removed
/// into the registers, one empty line takes their place and the cursor
/// sits on it.
pub open spec fn change_lines_m(b: BufModel, n: int, name: Option<char>) -> BufModel
    recommends
        b.wf(),
        n >= 1,
{
    let k = clamp_lines(b, n);
    let text2 = b.text.take(b.line) + seq![Seq::<char>::empty()] + b.text.skip(b.line + k);
    BufModel { text: text2, line: b.line, col: 0, ..b }.with_regs(name, lines_content(b, k))
}

/// The buffer after the register `name` is pasted at the cursor.
/// Linewise content goes in as whole lines below the cursor line, the
/// cursor moving to the first of them; charwise content goes in at the
/// cursor, its last character ending up just left of the cursor. An
/// empty register changes nothing.
pub open spec fn paste_m(b: BufModel, name: Option<char>) -> BufModel
    recommends
        b.wf(),
{
    let r = b.reg_read(name);
    if r.segs.len() == 0 {
        b
    } else if r.linewise {
        BufModel {
            text: b.text.take(b.line + 1) + r.segs + b.text.skip(b.line + 1),
            line: b.line + 1,
            col: 0,
            ..b
        }
    } else if r.segs.len() == 1 {
        let nl = b.cur_line().take(b.col) + r.segs[0] + b.cur_line().skip(b.col);
        BufModel {
            text: b.text.update(b.line, nl),
            col: b.col + r.segs[0].len(),
            ..b
        }
    } else {
        let first = b.cur_line().take(b.col) + r.segs[0];
        let last = r.segs.last() + b.cur_line().skip(b.col);
        BufModel {
            text: b.text.take(b.line) + seq![first] + r.segs.subrange(1, r.segs.len() - 1)
                + seq![last] + b.text.skip(b.line + 1),
            line: b.line + r.segs.len() - 1,
            col: r.segs.last().len() as int,
            ..b
        }
    }
}

/// The charwise content of the span from `(l1, c1)` up to but not
/// including `(l2, c2)`, one segment per line touched.
pub open spec fn span_segs(t: Seq<Seq<char>>, l1: int, c1: int, l2: int, c2: int) -> Seq<
    Seq<char>,
>
    recommends
        0 <= l1 <= l2 < t.len(),
        l1 == l2 ==> c1 <= c2,
{
    if l1 == l2 {
        seq![t[l1].subrange(c1, c2)]
    } else {
        seq![t[l1].skip(c1)] + t.subrange(l1 + 1, l2) + seq![t[l2].take(c2)]
    }
}

/// Whether `(l1, c1)` and `(l2, c2)` are cursor positions of `b` in
/// order, `(l1, c1)` not after `(l2, c2)`.
pub open spec fn span_wf(b: BufModel, l1: int, c1: int, l2: int, c2: int) -> bool {
    &&& 0 <= l1 <= l2 < b.text.len()
    &&& 0 <= c1 <= b.text[l1].len()
    &&& 0 <= c2 <= b.text[l2].len()
    &&& (l1 == l2 ==> c1 <= c2)
}

/// The buffer after the span from `(l1, c1)` up to `(l2, c2)` is
/// deleted: the remainders of its first and last lines join, the cursor
/// moves to the span start, the registers hold the removed text.
pub open spec fn delete_span_m(
    b: BufModel,
    l1: int,
    c1: int,
    l2: int,
    c2: int,
    name: Option<char>,
) -> BufModel
    recommends
        b.wf(),
        span_wf(b, l1, c1, l2, c2),
{
    let joined = b.text[l1].take(c1) + b.text[l2].skip(c2);
    let text2 = b.text.take(l1) + seq![joined] + b.text.skip(l2 + 1);
    BufModel { text: text2, line: l1, col: c1, ..b }.with_regs(
        name,
        RegModel { linewise: false, segs: span_segs(b.text, l1, c1, l2, c2) },
    )
}

/// The buffer after the same span is yanked: the cursor moves to the
/// span start and the registers hold its text; the text stays.
pub open spec fn yank_span_m(
    b: BufModel,
    l1: int,
    c1: int,
    l2: int,
    c2: int,
    name: Option<char>,
) -> BufModel
    recommends
        b.wf(),
        span_wf(b, l1, c1, l2, c2),
{
    b.with_cursor(l1, c1).with_regs(
        name,
        RegModel { linewise: false, segs: span_segs(b.text, l1, c1, l2, c2) },
    )
}

/// Charwise or linewise content of a register slot.
#[derive(Clone, Debug)]
pub struct RegContent {
    pub linewise: bool,
    pub segs: Vec<Vec<char>>,
}

impl View for RegContent {
    type V = RegModel;

    open spec fn view(&self) -> RegModel {
        RegModel { linewise: self.linewise, segs: lines_view(self.segs@) }
    }
}

/// One named register slot.
#[derive(Clone, Debug)]
pub struct NamedReg {
    pub name: char,
    pub content: RegContent,
}

/// The editable text with cursor, anchor and registers.
#[derive(Debug)]
pub struct Buffer {
    pub lines: Vec<Vec<char>>,
    pub line: usize,
    pub col: usize,
    pub anchor: Option<(usize, usize)>,
    pub unnamed: RegContent,
    pub named: Vec<NamedReg>,
}

impl View for Buffer {
    type V = BufModel;

    open spec fn view(&self) -> BufModel {
        BufModel {
            text: lines_view(self.lines@),
            line: self.line as int,
            col: self.col as int,
            anchor: match self.anchor {
                Some(p) => Some((p.0 as int, p.1 as int)),
                None => None,
            },
            unnamed: self.unnamed@,
            named: Seq::new(
                self.named@.len(),
                |i: int| (self.named@[i].name, self.named@[i].content@),
            ),
        }
    }
}

impl Buffer {
    /// A fresh buffer: one empty line, cursor at the origin, no anchor,
    /// empty registers.
    pub fn new() -> (r: Buffer)
        ensures
            r@.wf(),
            r@.text == seq![Seq::<char>::empty()],
            r@.line == 0,
            r@.col == 0,
            r@.anchor is None,
            r@.named == Seq::<(char, RegModel)>::empty(),
            r@.unnamed.segs == Seq::<Seq<char>>::empty(),
    {
        let mut lines: Vec<Vec<char>> = Vec::new();
        lines.push(Vec::new());
        let r = Buffer {
            lines,
            line: 0,
            col: 0,
            anchor: None,
            unnamed: RegContent { linewise: false, segs: Vec::new() },
            named: Vec::new(),
        };
        proof {
            assert(r@.text =~= seq![Seq::<char>::empty()]);
            assert(r@.named =~= Seq::<(char, RegModel)>::empty());
            assert(r@.unnamed.segs =~= Seq::<Seq<char>>::empty());
        }
        r
    }

    /// A buffer holding the given lines, cursor at the origin.
    pub fn from_lines(lines: Vec<Vec<char>>) -> (r: Buffer)
        requires
            lines@.len() >= 1,
        ensures
            r@.wf(),
            r@.text == Seq::new(lines@.len(), |i: int| lines@[i]@),
            r@.line == 0,
            r@.col == 0,
            r@.anchor is None,
            r@.named == Seq::<(char, RegModel)>::empty(),
            r@.unnamed.segs == Seq::<Seq<char>>::empty(),
    {
        let r = Buffer {
            lines,
            line: 0,
            col: 0,
            anchor: None,
            unnamed: RegContent { linewise: false, segs: Vec::new() },
            named: Vec::new(),
        };
        proof {
            assert(r@.named =~= Seq::<(char, RegModel)>::empty());
            assert(r@.unnamed.segs =~= Seq::<Seq<char>>::empty());
        }
        r
    }
}

/// The characters of `v` from `a` up to `b`, copied out.
fn subrange_chars(v: &Vec<char>, a: usize, b: usize) -> (r: Vec<char>)
    requires
        a <= b <= v@.len(),
    ensures
        r@ == v@.subrange(a as int, b as int),
{
    let mut r: Vec<char> = Vec::new();
    let mut i: usize = a;
    while i < b
        invariant
            a <= i <= b <= v@.len(),
            r@ == v@.subrange(a as int, i as int),
        decreases b - i,
    {
        r.push(v[i]);
        proof {
            assert(v@.subrange(a as int, i + 1) =~= v@.subrange(a as int, i as int).push(
                v@[i as int],
            ));
        }
        i = i + 1;
    }
    r
}

/// A copy of a whole character vector.
fn clone_chars(v: &Vec<char>) -> (r: Vec<char>)
    ensures
        r@ == v@,
{
    let r = subrange_chars(v, 0, v.len());
    proof {
        assert(v@.subrange(0, v@.len() as int) =~= v@);
    }
    r
}

/// Appending a line to a vector of lines appends its text.
pub proof fn lemma_lines_view_push(s: Seq<Vec<char>>, v: Vec<char>)
    ensures
        lines_view(s.push(v)) == lines_view(s) + seq![v@],
{
    assert forall|j: int| 0 <= j < s.len() + 1 implies #[trigger] lines_view(s.push(v))[j] == (
    lines_view(s) + seq![v@])[j] by {
        if j < s.len() {
            assert(s.push(v)[j] == s[j]);
        } else {
            assert(s.push(v)[j] == v);
        }
    }
    assert(lines_view(s.push(v)) =~= lines_view(s) + seq![v@]);
}

/// Concatenating two vectors of lines concatenates their text.
pub proof fn lemma_lines_view_add(s: Seq<Vec<char>>, t: Seq<Vec<char>>)
    ensures
        lines_view(s + t) == lines_view(s) + lines_view(t),
{
    assert forall|j: int| 0 <= j < s.len() + t.len() implies #[trigger] lines_view(s + t)[j] == (
    lines_view(s) + lines_view(t))[j] by {
        if j < s.len() {
            assert((s + t)[j] == s[j]);
        } else {
            assert((s + t)[j] == t[j - s.len()]);
        }
    }
    assert(lines_view(s + t) =~= lines_view(s) + lines_view(t));
}

/// Copies of the lines of `src` from `a` up to `b`.
fn cloned_range(src: &Vec<Vec<char>>, a: usize, b: usize) -> (r: Vec<Vec<char>>)
    requires
        a <= b <= src@.len(),
    ensures
        lines_view(r@) == lines_view(src@).subrange(a as int, b as int),
{
    let mut r: Vec<Vec<char>> = Vec::new();
    let mut i: usize = a;
    while i < b
        invariant
            a <= i <= b <= src@.len(),
            lines_view(r@) == lines_view(src@).subrange(a as int, i as int),
        decreases b - i,
    {
        let ghost prev = r@;
        let c = clone_chars(&src[i]);
        let ghost cv = c;
        r.push(c);
        proof {
            lemma_lines_view_push(prev, cv);
            assert(lines_view(r@) =~= lines_view(src@).subrange(a as int, i + 1));
        }
        i = i + 1;
    }
    r
}

/// A copy of a whole vector of lines.
fn clone_lines(v: &Vec<Vec<char>>) -> (r: Vec<Vec<char>>)
    ensures
        lines_view(r@) == lines_view(v@),
{
    let r = cloned_range(v, 0, v.len());
    proof {
        assert(lines_view(v@).subrange(0, v@.len() as int) =~= lines_view(v@));
    }
    r
}

/// A copy of a register slot's content.
fn clone_reg(c: &RegContent) -> (r: RegContent)
    ensures
        r@ == c@,
{
    let r = RegContent { linewise: c.linewise, segs: clone_lines(&c.segs) };
    proof {
        assert(r@ =~= c@);
    }
    r
}

impl Buffer {
    /// Remember the cursor position as the selection anchor.
    pub fn set_anchor_here(&mut self)
        ensures
            final(self)@ == (BufModel {
                anchor: Some((old(self)@.line, old(self)@.col)),
                ..old(self)@
            }),
    {
        self.anchor = Some((self.line, self.col));
    }

    /// Forget the selection anchor.
    pub fn clear_anchor(&mut self)
        ensures
            final(self)@ == (BufModel { anchor: None, ..old(self)@ }),
    {
        self.anchor = None;
    }

    /// Write `content` to the unnamed register and, when one is named,
    /// to that register as well.
    fn write_regs(&mut self, name: Option<char>, content: RegContent)
        ensures
            final(self)@ == old(self)@.with_regs(name, content@),
    {
        match name {
            Some(nm) => {
                let copy = RegContent {
                    linewise: content.linewise,
                    segs: clone_lines(&content.segs),
                };
                let ghost copyv = copy;
                proof {
                    assert(copyv@ =~~= content@);
                }
                self.named.insert(0, NamedReg { name: nm, content: copy });
                proof {
                    let elemv = NamedReg { name: nm, content: copyv };
                    old(self).named@.insert_ensures(0, elemv);
                    let t = seq![(nm, content@)] + old(self)@.named;
                    assert forall|j: int|
                        0 <= j < self@.named.len() implies #[trigger] self@.named[j] == t[j] by {
                        if j == 0 {
                            assert(self.named@[0] == elemv);
                        } else {
                            assert(self.named@[(j - 1) + 1] == old(self).named@[j - 1]);
                        }
                    }
                    assert(self@.named =~= t);
                }
            },
            None => {},
        }
        self.unnamed = content;
        proof {
            assert(self@ =~~= old(self)@.with_regs(name, content@));
        }
    }

    /// The content of named register `nm`, searched from index `i` on.
    fn reg_get_from(&self, i: usize, nm: char) -> (r: Option<RegContent>)
        requires
            i <= self.named@.len(),
        ensures
            match (r, lookup_from(self@.named, i as int, nm)) {
                (Some(c), Some(m)) => c@ == m,
                (None, None) => true,
                _ => false,
            },
        decreases self.named@.len() - i,
    {
        if i >= self.named.len() {
            None
        } else if self.named[i].name == nm {
            Some(clone_reg(&self.named[i].content))
        } else {
            self.reg_get_from(i + 1, nm)
        }
    }

    /// Insert a character at the cursor and step past it.
    pub fn insert_char(&mut self, ch: char)
        requires
            old(self)@.wf(),
        ensures
            final(self)@ == insert_char_m(old(self)@, ch),
            final(self)@.wf(),
    {
        let row = &mut self.lines[self.line];
        row.insert(self.col, ch);
        let _grown = row.len();
        self.col = self.col + 1;
        proof {
            assert(self@.text =~~= insert_char_m(old(self)@, ch).text);
            assert(self@ =~~= insert_char_m(old(self)@, ch));
        }
    }

    /// Split the cursor line at the cursor; the cursor moves to the
    /// start of the new line.
    pub fn insert_newline(&mut self)
        requires
            old(self)@.wf(),
        ensures
            final(self)@ == newline_m(old(self)@),
            final(self)@.wf(),
    {
        let nlines = self.lines.len();
        let row = &mut self.lines[self.line];
        let tail = row.split_off(self.col);
        self.lines.insert(self.line + 1, tail);
        self.line = self.line + 1;
        self.col = 0;
        proof {
            assert(self@.text =~~= newline_m(old(self)@).text);
            assert(self@ =~~= newline_m(old(self)@));
        }
    }

    /// Delete the character left of the cursor, joining lines at a line
    /// start; at the very beginning nothing happens.
    pub fn backspace(&mut self)
        requires
            old(self)@.wf(),
        ensures
            final(self)@ == backspace_m(old(self)@),
            final(self)@.wf(),
    {
        if self.col > 0 {
            let row = &mut self.lines[self.line];
            row.remove(self.col - 1);
            self.col = self.col - 1;
            proof {
                assert(self@.text =~~= backspace_m(old(self)@).text);
                assert(self@ =~~= backspace_m(old(self)@));
            }
        } else if self.line > 0 {
            let mut cur = self.lines.remove(self.line);
            let prev = &mut self.lines[self.line - 1];
            let plen = prev.len();
            prev.append(&mut cur);
            self.line = self.line - 1;
            self.col = plen;
            proof {
                assert(self@.text =~~= backspace_m(old(self)@).text);
                assert(self@ =~~= backspace_m(old(self)@));
            }
        }
    }

    /// Overwrite the character under the cursor, inserting at the end
    /// of the line, and step past it.
    pub fn overwrite_char(&mut self, ch: char)
        requires
            old(self)@.wf(),
        ensures
            final(self)@ == overwrite_m(old(self)@, ch),
            final(self)@.wf(),
    {
        let row = &mut self.lines[self.line];
        if self.col < row.len() {
            row[self.col] = ch;
            self.col = self.col + 1;
            proof {
                assert(self@.text =~~= overwrite_m(old(self)@, ch).text);
                assert(self@ =~~= overwrite_m(old(self)@, ch));
            }
        } else {
            row.insert(self.col, ch);
            let _grown = row.len();
            self.col = self.col + 1;
            proof {
                assert(self@.text =~~= overwrite_m(old(self)@, ch).text);
                assert(self@ =~~= overwrite_m(old(self)@, ch));
            }
        }
    }

    /// The linewise register content of `k` lines from the cursor line.
    fn collect_lines(&self, k: usize) -> (r: RegContent)
        requires
            self@.wf(),
            k <= self@.text.len() - self@.line,
        ensures
            r@ == lines_content(self@, k as int),
    {
        let nlines = self.lines.len();
        let segs = cloned_range(&self.lines, self.line, self.line + k);
        let r = RegContent { linewise: true, segs };
        proof {
            assert(r@.segs =~= lines_content(self@, k as int).segs);
            assert(r@ =~= lines_content(self@, k as int));
        }
        r
    }

    /// How many whole lines a count of `n` reaches from the cursor line.
    fn clamped_line_count(&self, n: usize) -> (k: usize)
        requires
            self@.wf(),
            n >= 1,
        ensures
            k == clamp_lines(self@, n as int),
            1 <= k <= self@.text.len() - self@.line,
    {
        let avail = self.lines.len() - self.line;
        if n <= avail {
            n
        } else {
            avail
        }
    }

    /// Delete `n` whole lines from the cursor line into the registers.
    pub fn delete_lines(&mut self, n: usize, name: Option<char>)
        requires
            old(self)@.wf(),
            n >= 1,
        ensures
            final(self)@ == delete_lines_m(old(self)@, n as int, name),
            final(self)@.wf(),
    {
        let nlines = self.lines.len();
        let k = self.clamped_line_count(n);
        let content = self.collect_lines(k);
        let mut nl = cloned_range(&self.lines, 0, self.line);
        let mut part2 = cloned_range(&self.lines, self.line + k, nlines);
        let ghost nlv = nl@;
        let ghost p2v = part2@;
        nl.append(&mut part2);
        proof {
            lemma_lines_view_add(nlv, p2v);
        }
        if nl.len() == 0 {
            let empty_line: Vec<char> = Vec::new();
            let ghost nlv2 = nl@;
            let ghost ev = empty_line;
            nl.push(empty_line);
            proof {
                lemma_lines_view_push(nlv2, ev);
            }
        }
        self.lines = nl;
        if self.line >= self.lines.len() {
            self.line = self.lines.len() - 1;
        }
        self.col = 0;
        proof {
            let m = delete_lines_m(old(self)@, n as int, name);
            assert(self@.text =~~= m.text);
        }
        self.write_regs(name, content);
        proof {
            assert(self@ =~~= delete_lines_m(old(self)@, n as int, name));
        }
    }

    /// Yank `n` whole lines from the cursor line into the registers.
    pub fn yank_lines(&mut self, n: usize, name: Option<char>)
        requires
            old(self)@.wf(),
            n >= 1,
        ensures
            final(self)@ == yank_lines_m(old(self)@, n as int, name),
            final(self)@.wf(),
    {
        let k = self.clamped_line_count(n);
        let content = self.collect_lines(k);
        self.write_regs(name, content);
    }

    /// Change `n` whole lines: they move to the registers and one empty
    /// line takes their place, the cursor on it.
    pub fn change_lines(&mut self, n: usize, name: Option<char>)
        requires
            old(self)@.wf(),
            n >= 1,
        ensures
            final(self)@ == change_lines_m(old(self)@, n as int, name),
            final(self)@.wf(),
    {
        let nlines = self.lines.len();
        let k = self.clamped_line_count(n);
        let content = self.collect_lines(k);
        let mut nl = cloned_range(&self.lines, 0, self.line);
        let empty_line: Vec<char> = Vec::new();
        let ghost nlv = nl@;
        let ghost ev = empty_line;
        nl.push(empty_line);
        proof {
            lemma_lines_view_push(nlv, ev);
        }
        let mut part2 = cloned_range(&self.lines, self.line + k, nlines);
        let ghost nlv2 = nl@;
        let ghost p2v = part2@;
        nl.append(&mut part2);
        proof {
            lemma_lines_view_add(nlv2, p2v);
        }
        self.lines = nl;
        self.col = 0;
        proof {
            let m = change_lines_m(old(self)@, n as int, name);
            assert(self@.text =~~= m.text);
        }
        self.write_regs(name, content);
        proof {
            assert(self@ =~~= change_lines_m(old(self)@, n as int, name));
        }
    }

    /// The charwise register content of the span from `(l1, c1)` up to
    /// `(l2, c2)`.
    fn collect_span(&self, l1: usize, c1: usize, l2: usize, c2: usize) -> (r: RegContent)
        requires
            self@.wf(),
            span_wf(self@, l1 as int, c1 as int, l2 as int, c2 as int),
        ensures
            r@ == (RegModel {
                linewise: false,
                segs: span_segs(self@.text, l1 as int, c1 as int, l2 as int, c2 as int),
            }),
    {
        let nlines = self.lines.len();
        let mut segs: Vec<Vec<char>> = Vec::new();
        if l1 == l2 {
            let ghost e0 = segs@;
            let s0 = subrange_chars(&self.lines[l1], c1, c2);
            let ghost s0v = s0;
            segs.push(s0);
            proof {
                lemma_lines_view_push(e0, s0v);
            }
        } else {
            let e1 = self.lines[l1].len();
            let ghost e0 = segs@;
            let s0 = subrange_chars(&self.lines[l1], c1, e1);
            let ghost s0v = s0;
            segs.push(s0);
            proof {
                lemma_lines_view_push(e0, s0v);
            }
            let mut mid = cloned_range(&self.lines, l1 + 1, l2);
            let ghost segs1 = segs@;
            let ghost midv = mid@;
            segs.append(&mut mid);
            proof {
                lemma_lines_view_add(segs1, midv);
            }
            let s2 = subrange_chars(&self.lines[l2], 0, c2);
            let ghost segs2 = segs@;
            let ghost s2v = s2;
            segs.push(s2);
            proof {
                lemma_lines_view_push(segs2, s2v);
            }
        }
        let r = RegContent { linewise: false, segs };
        proof {
            assert(r@.segs =~~= span_segs(
                self@.text,
                l1 as int,
                c1 as int,
                l2 as int,
                c2 as int,
            ));
            assert(r@ =~~= (RegModel {
                linewise: false,
                segs: span_segs(self@.text, l1 as int, c1 as int, l2 as int, c2 as int),
            }));
        }
        r
    }

    /// Open an empty line below the cursor line and move onto it.
    pub fn open_below(&mut self)
        requires
            old(self)@.wf(),
        ensures
            final(self)@ == open_below_m(old(self)@),
            final(self)@.wf(),
    {
        let nlines = self.lines.len();
        let e: Vec<char> = Vec::new();
        let ghost ev = e;
        self.lines.insert(self.line + 1, e);
        self.line = self.line + 1;
        self.col = 0;
        proof {
            assert(self@.text =~~= open_below_m(old(self)@).text);
            assert(self@ =~~= open_below_m(old(self)@));
        }
    }

    /// Open an empty line above the cursor line and move onto it.
    pub fn open_above(&mut self)
        requires
            old(self)@.wf(),
        ensures
            final(self)@ == open_above_m(old(self)@),
            final(self)@.wf(),
    {
        let e: Vec<char> = Vec::new();
        let ghost ev = e;
        self.lines.insert(self.line, e);
        self.col = 0;
        proof {
            assert(self@.text =~~= open_above_m(old(self)@).text);
            assert(self@ =~~= open_above_m(old(self)@));
        }
    }

    /// Paste the register `name` at the cursor: whole lines below the
    /// cursor line for linewise content, characters at the cursor for
    /// charwise content.
    pub fn paste(&mut self, name: Option<char>)
        requires
            old(self)@.wf(),
        ensures
            final(self)@ == paste_m(old(self)@, name),
            final(self)@.wf(),
    {
        let content: RegContent = match name {
            Some(nm) => match self.reg_get_from(0, nm) {
                Some(c) => c,
                None => RegContent { linewise: false, segs: Vec::new() },
            },
            None => clone_reg(&self.unnamed),
        };
        proof {
            assert(content@.segs =~= old(self)@.reg_read(name).segs);
            assert(content@ =~~= old(self)@.reg_read(name));
        }
        let nsegs = content.segs.len();
        if nsegs == 0 {
            return ;
        }
        let nlines = self.lines.len();
        if content.linewise {
            let mut nl = cloned_range(&self.lines, 0, self.line + 1);
            let mut mid = content.segs;
            let ghost nlv = nl@;
            let ghost midv = mid@;
            nl.append(&mut mid);
            let mut rest = cloned_range(&self.lines, self.line + 1, nlines);
            let ghost nlv2 = nl@;
            let ghost restv = rest@;
            nl.append(&mut rest);
            self.lines = nl;
            self.line = self.line + 1;
            self.col = 0;
            proof {
                lemma_lines_view_add(nlv, midv);
                lemma_lines_view_add(nlv2, restv);
                assert(self@.text =~~= paste_m(old(self)@, name).text);
                assert(self@ =~~= paste_m(old(self)@, name));
            }
        } else if nsegs == 1 {
            let row_len = self.lines[self.line].len();
            let mut nr = subrange_chars(&self.lines[self.line], 0, self.col);
            let mut segs = content.segs;
            let mut seg0 = segs.remove(0);
            nr.append(&mut seg0);
            let newcol = nr.len();
            let mut tail = subrange_chars(&self.lines[self.line], self.col, row_len);
            nr.append(&mut tail);
            let row = &mut self.lines[self.line];
            *row = nr;
            self.col = newcol;
            proof {
                assert(self@.text =~~= paste_m(old(self)@, name).text);
                assert(self@ =~~= paste_m(old(self)@, name));
            }
        } else {
            let start_line = self.line;
            let row_len = self.lines[self.line].len();
            let head = subrange_chars(&self.lines[self.line], 0, self.col);
            let mut tailp = subrange_chars(&self.lines[self.line], self.col, row_len);
            let mut segs = content.segs;
            let mut lastseg = match segs.pop() {
                Some(s) => s,
                None => Vec::new(),
            };
            let lastlen = lastseg.len();
            lastseg.append(&mut tailp);
            let mut first = head;
            let mut seg0 = segs.remove(0);
            first.append(&mut seg0);
            let mut nl = cloned_range(&self.lines, 0, self.line);
            let ghost nlv0 = nl@;
            let ghost firstv = first;
            nl.push(first);
            proof {
                lemma_lines_view_push(nlv0, firstv);
            }
            let ghost nlv1 = nl@;
            let ghost segsv = segs@;
            nl.append(&mut segs);
            proof {
                lemma_lines_view_add(nlv1, segsv);
            }
            let ghost nlv2 = nl@;
            let ghost lastv = lastseg;
            nl.push(lastseg);
            proof {
                lemma_lines_view_push(nlv2, lastv);
            }
            let mut rest = cloned_range(&self.lines, self.line + 1, nlines);
            let ghost nlv3 = nl@;
            let ghost restv = rest@;
            nl.append(&mut rest);
            proof {
                lemma_lines_view_add(nlv3, restv);
            }
            self.lines = nl;
            let total = self.lines.len();
            self.line = total - (nlines - start_line);
            self.col = lastlen;
            proof {
                assert(self@.text =~~= paste_m(old(self)@, name).text);
                assert(self@ =~~= paste_m(old(self)@, name));
            }
        }
    }

    /// Delete the span from `(l1, c1)` up to `(l2, c2)` into the
    /// registers; the cursor moves to the span start.
    pub fn delete_span(&mut self, l1: usize, c1: usize, l2: usize, c2: usize, name: Option<char>)
        requires
            old(self)@.wf(),
            span_wf(old(self)@, l1 as int, c1 as int, l2 as int, c2 as int),
        ensures
            final(self)@ == delete_span_m(
                old(self)@,
                l1 as int,
                c1 as int,
                l2 as int,
                c2 as int,
                name,
            ),
            final(self)@.wf(),
    {
        let nlines = self.lines.len();
        let content = self.collect_span(l1, c1, l2, c2);
        let mut nl = cloned_range(&self.lines, 0, l1);
        let mut joined = subrange_chars(&self.lines[l1], 0, c1);
        let e2 = self.lines[l2].len();
        let mut tailpart = subrange_chars(&self.lines[l2], c2, e2);
        joined.append(&mut tailpart);
        let ghost nlv = nl@;
        let ghost jv = joined;
        nl.push(joined);
        proof {
            lemma_lines_view_push(nlv, jv);
        }
        let mut rest = cloned_range(&self.lines, l2 + 1, nlines);
        let ghost nlv2 = nl@;
        let ghost rv = rest@;
        nl.append(&mut rest);
        proof {
            lemma_lines_view_add(nlv2, rv);
        }
        self.lines = nl;
        self.line = l1;
        self.col = c1;
        proof {
            let m = delete_span_m(old(self)@, l1 as int, c1 as int, l2 as int, c2 as int, name);
            assert(self@.text =~~= m.text);
        }
        self.write_regs(name, content);
        proof {
            assert(self@ =~~= delete_span_m(
                old(self)@,
                l1 as int,
                c1 as int,
                l2 as int,
                c2 as int,
                name,
            ));
        }
    }

    /// Yank the span from `(l1, c1)` up to `(l2, c2)` into the
    /// registers; the cursor moves to the span start, the text stays.
    pub fn yank_span(&mut self, l1: usize, c1: usize, l2: usize, c2: usize, name: Option<char>)
        requires
            old(self)@.wf(),
            span_wf(old(self)@, l1 as int, c1 as int, l2 as int, c2 as int),
        ensures
            final(self)@ == yank_span_m(
                old(self)@,
                l1 as int,
                c1 as int,
                l2 as int,
                c2 as int,
                name,
            ),
            final(self)@.wf(),
    {
        let content = self.collect_span(l1, c1, l2, c2);
        self.line = l1;
        self.col = c1;
        self.write_regs(name, content);
    }
}

} // verus!
