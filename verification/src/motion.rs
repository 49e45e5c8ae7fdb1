//! Cursor motions.
//!
//! A motion moves the cursor; under an operator it instead chooses the
//! far end of the span the operator acts on. Horizontal motions stay on
//! the cursor line; vertical motions clamp the column to the new line.
//! Word motions treat every character except space and tab as part of a
//! word.

use vstd::prelude::*;
use crate::buffer::{BufModel, Buffer};

verus! {

/// A cursor motion, complete with its argument where it has one.
#[derive(Clone, Copy, Debug, PartialEq, Eq, Structural)]
pub enum Motion {
    Left,
    Right,
    Up,
    Down,
    LineStart,
    LineEnd,
    FirstLine,
    LastLine,
    WordForward,
    WordBack,
    WordEnd,
    FindChar(char),
}

/// Characters other than space and tab form words.
pub open spec fn is_word_char(c: char) -> bool {
    c != ' ' && c != '\t'
}

/// The first index at or after `i` that is not inside a word.
pub open spec fn skip_word(s: Seq<char>, i: int) -> int
    recommends
        0 <= i <= s.len(),
    decreases s.len() - i,
{
    if i < 0 || i >= s.len() || !is_word_char(s[i]) {
        i
    } else {
        skip_word(s, i + 1)
    }
}

/// The first index at or after `i` holding a word character, or the end.
pub open spec fn skip_space(s: Seq<char>, i: int) -> int
    recommends
        0 <= i <= s.len(),
    decreases s.len() - i,
{
    if i < 0 || i >= s.len() || is_word_char(s[i]) {
        i
    } else {
        skip_space(s, i + 1)
    }
}

/// Where the `w` motion lands from column `i`: past the current word,
/// then past the following blanks.
pub open spec fn next_word_start(s: Seq<char>, i: int) -> int
    recommends
        0 <= i <= s.len(),
{
    skip_space(s, skip_word(s, i))
}

/// The index of the rightmost word character at or before `j`, or -1.
pub open spec fn find_word_back(s: Seq<char>, j: int) -> int
    recommends
        j < s.len(),
    decreases j + 1,
{
    if j < 0 || j >= s.len() {
        -1
    } else if is_word_char(s[j]) {
        j
    } else {
        find_word_back(s, j - 1)
    }
}

/// The first column of the word containing `j`.
pub open spec fn word_start(s: Seq<char>, j: int) -> int
    recommends
        0 <= j < s.len(),
        is_word_char(s[j]),
    decreases j,
{
    if j <= 0 || !is_word_char(s[j - 1]) {
        j
    } else {
        word_start(s, j - 1)
    }
}

/// Where the `b` motion lands from column `i`: the start of the word
/// left of the cursor, or column 0 when only blanks remain.
pub open spec fn prev_word_start(s: Seq<char>, i: int) -> int
    recommends
        0 <= i <= s.len(),
{
    let j = find_word_back(s, i - 1);
    if j < 0 {
        0
    } else {
        word_start(s, j)
    }
}

/// The last column of the word starting at or containing `j`.
pub open spec fn end_of_word(s: Seq<char>, j: int) -> int
    recommends
        0 <= j < s.len(),
        is_word_char(s[j]),
    decreases s.len() - j,
{
    if j + 1 >= s.len() || !is_word_char(s[j + 1]) {
        j
    } else {
        end_of_word(s, j + 1)
    }
}

/// Where the `e` motion lands from column `i`: the end of the next
/// word, or `i` itself when no word follows.
pub open spec fn word_end(s: Seq<char>, i: int) -> int
    recommends
        0 <= i <= s.len(),
{
    if i + 1 > s.len() {
        i
    } else {
        let j = skip_space(s, i + 1);
        if j >= s.len() {
            i
        } else {
            end_of_word(s, j)
        }
    }
}

/// The first index at or after `i` holding `c`, if any.
pub open spec fn find_from(s: Seq<char>, i: int, c: char) -> Option<int>
    recommends
        0 <= i,
    decreases s.len() - i,
{
    if i < 0 || i >= s.len() {
        None
    } else if s[i] == c {
        Some(i)
    } else {
        find_from(s, i + 1, c)
    }
}

pub proof fn lemma_skip_word_bounds(s: Seq<char>, i: int)
    requires
        0 <= i <= s.len(),
    ensures
        i <= skip_word(s, i) <= s.len(),
    decreases s.len() - i,
{
    if !(i >= s.len() || !is_word_char(s[i])) {
        lemma_skip_word_bounds(s, i + 1);
    }
}

pub proof fn lemma_skip_space_bounds(s: Seq<char>, i: int)
    requires
        0 <= i <= s.len(),
    ensures
        i <= skip_space(s, i) <= s.len(),
        skip_space(s, i) < s.len() ==> is_word_char(s[skip_space(s, i)]),
    decreases s.len() - i,
{
    if !(i >= s.len() || is_word_char(s[i])) {
        lemma_skip_space_bounds(s, i + 1);
    }
}

pub proof fn lemma_find_word_back_bounds(s: Seq<char>, j: int)
    requires
        -1 <= j < s.len(),
    ensures
        -1 <= find_word_back(s, j) <= j,
        find_word_back(s, j) >= 0 ==> is_word_char(s[find_word_back(s, j)]),
    decreases j + 1,
{
    if !(j < 0 || j >= s.len()) && !is_word_char(s[j]) {
        lemma_find_word_back_bounds(s, j - 1);
    }
}

pub proof fn lemma_word_start_bounds(s: Seq<char>, j: int)
    requires
        0 <= j < s.len(),
        is_word_char(s[j]),
    ensures
        0 <= word_start(s, j) <= j,
    decreases j,
{
    if !(j <= 0 || !is_word_char(s[j - 1])) {
        lemma_word_start_bounds(s, j - 1);
    }
}

pub proof fn lemma_end_of_word_bounds(s: Seq<char>, j: int)
    requires
        0 <= j < s.len(),
        is_word_char(s[j]),
    ensures
        j <= end_of_word(s, j) < s.len(),
    decreases s.len() - j,
{
    if !(j + 1 >= s.len() || !is_word_char(s[j + 1])) {
        lemma_end_of_word_bounds(s, j + 1);
    }
}

pub proof fn lemma_find_from_bounds(s: Seq<char>, i: int, c: char)
    requires
        0 <= i,
    ensures
        match find_from(s, i, c) {
            Some(j) => i <= j < s.len(),
            None => true,
        },
    decreases s.len() - i,
{
    if !(i >= s.len()) && s[i] != c {
        lemma_find_from_bounds(s, i + 1, c);
    }
}

/// Where `b` lands stays inside `0 ..= i` and on the line.
pub proof fn lemma_prev_word_start_bounds(s: Seq<char>, i: int)
    requires
        0 <= i <= s.len(),
    ensures
        0 <= prev_word_start(s, i) <= i,
{
    if i >= 1 {
        lemma_find_word_back_bounds(s, i - 1);
        let j = find_word_back(s, i - 1);
        if j >= 0 {
            lemma_word_start_bounds(s, j);
        }
    }
}

/// Where `w` lands stays inside `i ..= len`.
pub proof fn lemma_next_word_start_bounds(s: Seq<char>, i: int)
    requires
        0 <= i <= s.len(),
    ensures
        i <= next_word_start(s, i) <= s.len(),
{
    lemma_skip_word_bounds(s, i);
    lemma_skip_space_bounds(s, skip_word(s, i));
}

/// Where `e` lands stays inside `i ..= len`.
pub proof fn lemma_word_end_bounds(s: Seq<char>, i: int)
    requires
        0 <= i <= s.len(),
    ensures
        i <= word_end(s, i) <= s.len(),
{
    if i + 1 <= s.len() {
        lemma_skip_space_bounds(s, i + 1);
        let j = skip_space(s, i + 1);
        if j < s.len() {
            lemma_end_of_word_bounds(s, j);
        }
    }
}

/// The cursor after one step of motion `m`, clamped at the edges.
pub open spec fn motion_once(b: BufModel, m: Motion) -> BufModel
    recommends
        b.wf(),
{
    match m {
        Motion::Left => b.with_cursor(b.line, if b.col > 0 { b.col - 1 } else { 0 }),
        Motion::Right => b.with_cursor(
            b.line,
            if b.col < b.cur_line().len() { b.col + 1 } else { b.col },
        ),
        Motion::Up => {
            let l = if b.line > 0 { b.line - 1 } else { 0 };
            b.with_cursor(l, clamped_col(b, l))
        },
        Motion::Down => {
            let l = if b.line + 1 < b.text.len() { b.line + 1 } else { b.line };
            b.with_cursor(l, clamped_col(b, l))
        },
        Motion::LineStart => b.with_cursor(b.line, 0),
        Motion::LineEnd => b.with_cursor(b.line, b.cur_line().len() as int),
        Motion::FirstLine => b.with_cursor(0, clamped_col(b, 0)),
        Motion::LastLine => {
            let l = b.text.len() - 1;
            b.with_cursor(l, clamped_col(b, l))
        },
        Motion::WordForward => b.with_cursor(b.line, next_word_start(b.cur_line(), b.col)),
        Motion::WordBack => b.with_cursor(b.line, prev_word_start(b.cur_line(), b.col)),
        Motion::WordEnd => b.with_cursor(b.line, word_end(b.cur_line(), b.col)),
        Motion::FindChar(c) => match find_from(b.cur_line(), b.col + 1, c) {
            Some(j) => b.with_cursor(b.line, j),
            None => b,
        },
    }
}

/// The cursor column carried to line `l`, clamped to that line's length.
pub open spec fn clamped_col(b: BufModel, l: int) -> int
    recommends
        b.wf(),
        0 <= l < b.text.len(),
{
    if b.col <= b.text[l].len() {
        b.col
    } else {
        b.text[l].len() as int
    }
}

/// The cursor after `n` steps of motion `m`.
pub open spec fn motion_n(b: BufModel, m: Motion, n: int) -> BufModel
    recommends
        b.wf(),
    decreases n,
{
    if n <= 0 {
        b
    } else {
        motion_n(motion_once(b, m), m, n - 1)
    }
}

/// One motion step moves only the cursor and keeps the buffer well
/// formed.
pub proof fn lemma_motion_once_wf(b: BufModel, m: Motion)
    requires
        b.wf(),
    ensures
        motion_once(b, m).wf(),
        motion_once(b, m).text == b.text,
        motion_once(b, m).anchor == b.anchor,
        motion_once(b, m).unnamed == b.unnamed,
        motion_once(b, m).named == b.named,
{
    match m {
        Motion::WordForward => lemma_next_word_start_bounds(b.cur_line(), b.col),
        Motion::WordBack => lemma_prev_word_start_bounds(b.cur_line(), b.col),
        Motion::WordEnd => lemma_word_end_bounds(b.cur_line(), b.col),
        Motion::FindChar(c) => lemma_find_from_bounds(b.cur_line(), b.col + 1, c),
        _ => (),
    }
}

/// `n` motion steps move only the cursor and keep the buffer well
/// formed.
pub proof fn lemma_motion_n_wf(b: BufModel, m: Motion, n: int)
    requires
        b.wf(),
    ensures
        motion_n(b, m, n).wf(),
        motion_n(b, m, n).text == b.text,
        motion_n(b, m, n).anchor == b.anchor,
        motion_n(b, m, n).unnamed == b.unnamed,
        motion_n(b, m, n).named == b.named,
    decreases n,
{
    if n > 0 {
        lemma_motion_once_wf(b, m);
        lemma_motion_n_wf(motion_once(b, m), m, n - 1);
    }
}

fn is_word_char_x(c: char) -> (r: bool)
    ensures
        r == is_word_char(c),
{
    c != ' ' && c != '\t'
}

fn skip_word_x(s: &Vec<char>, i: usize) -> (r: usize)
    requires
        i <= s@.len(),
    ensures
        r == skip_word(s@, i as int),
        i <= r <= s@.len(),
    decreases s@.len() - i,
{
    if i >= s.len() || !is_word_char_x(s[i]) {
        i
    } else {
        skip_word_x(s, i + 1)
    }
}

fn skip_space_x(s: &Vec<char>, i: usize) -> (r: usize)
    requires
        i <= s@.len(),
    ensures
        r == skip_space(s@, i as int),
        i <= r <= s@.len(),
    decreases s@.len() - i,
{
    if i >= s.len() || is_word_char_x(s[i]) {
        i
    } else {
        skip_space_x(s, i + 1)
    }
}

fn next_word_start_x(s: &Vec<char>, i: usize) -> (r: usize)
    requires
        i <= s@.len(),
    ensures
        r == next_word_start(s@, i as int),
        i <= r <= s@.len(),
{
    proof {
        lemma_next_word_start_bounds(s@, i as int);
    }
    let j = skip_word_x(s, i);
    skip_space_x(s, j)
}

fn find_word_back_x(s: &Vec<char>, j: usize) -> (r: Option<usize>)
    requires
        j <= s@.len(),
    ensures
        match r {
            Some(k) => k == find_word_back(s@, j - 1) && k < j,
            None => find_word_back(s@, j - 1) == -1,
        },
    decreases j,
{
    if j == 0 {
        None
    } else if is_word_char_x(s[j - 1]) {
        Some(j - 1)
    } else {
        find_word_back_x(s, j - 1)
    }
}

fn word_start_x(s: &Vec<char>, j: usize) -> (r: usize)
    requires
        j < s@.len(),
        is_word_char(s@[j as int]),
    ensures
        r == word_start(s@, j as int),
        r <= j,
    decreases j,
{
    if j == 0 || !is_word_char_x(s[j - 1]) {
        j
    } else {
        word_start_x(s, j - 1)
    }
}

fn prev_word_start_x(s: &Vec<char>, i: usize) -> (r: usize)
    requires
        i <= s@.len(),
    ensures
        r == prev_word_start(s@, i as int),
        r <= i,
{
    proof {
        lemma_prev_word_start_bounds(s@, i as int);
        if i >= 1 {
            lemma_find_word_back_bounds(s@, i - 1);
        }
    }
    match find_word_back_x(s, i) {
        None => 0,
        Some(j) => word_start_x(s, j),
    }
}

fn end_of_word_x(s: &Vec<char>, j: usize) -> (r: usize)
    requires
        j < s@.len(),
        is_word_char(s@[j as int]),
    ensures
        r == end_of_word(s@, j as int),
        j <= r < s@.len(),
    decreases s@.len() - j,
{
    let n = s.len();
    if j + 1 >= n || !is_word_char_x(s[j + 1]) {
        j
    } else {
        end_of_word_x(s, j + 1)
    }
}

fn word_end_x(s: &Vec<char>, i: usize) -> (r: usize)
    requires
        i <= s@.len(),
    ensures
        r == word_end(s@, i as int),
        i <= r <= s@.len(),
{
    proof {
        lemma_word_end_bounds(s@, i as int);
    }
    if i >= s.len() {
        i
    } else {
        proof {
            lemma_skip_space_bounds(s@, i + 1);
        }
        let j = skip_space_x(s, i + 1);
        if j >= s.len() {
            i
        } else {
            end_of_word_x(s, j)
        }
    }
}

fn find_from_x(s: &Vec<char>, i: usize, c: char) -> (r: Option<usize>)
    requires
        i <= s@.len(),
    ensures
        match r {
            Some(j) => find_from(s@, i as int, c) == Some(j as int) && i <= j < s@.len(),
            None => find_from(s@, i as int, c) is None,
        },
    decreases s@.len() - i,
{
    if i >= s.len() {
        None
    } else if s[i] == c {
        Some(i)
    } else {
        find_from_x(s, i + 1, c)
    }
}

impl Buffer {
    /// Move the cursor one step of motion `m`, clamped at the edges;
    /// the text, anchor and registers are untouched.
    pub fn apply_motion_once(&mut self, m: Motion)
        requires
            old(self)@.wf(),
        ensures
            final(self)@ == motion_once(old(self)@, m),
            final(self)@.wf(),
    {
        proof {
            lemma_motion_once_wf(old(self)@, m);
        }
        match m {
            Motion::Left => {
                if self.col > 0 {
                    self.col = self.col - 1;
                }
            },
            Motion::Right => {
                if self.col < self.lines[self.line].len() {
                    self.col = self.col + 1;
                }
            },
            Motion::Up => {
                let l = if self.line > 0 {
                    self.line - 1
                } else {
                    0
                };
                let ll = self.lines[l].len();
                self.line = l;
                self.col = if self.col <= ll {
                    self.col
                } else {
                    ll
                };
            },
            Motion::Down => {
                let nl = self.lines.len();
                let l = if self.line + 1 < nl {
                    self.line + 1
                } else {
                    self.line
                };
                let ll = self.lines[l].len();
                self.line = l;
                self.col = if self.col <= ll {
                    self.col
                } else {
                    ll
                };
            },
            Motion::LineStart => {
                self.col = 0;
            },
            Motion::LineEnd => {
                self.col = self.lines[self.line].len();
            },
            Motion::FirstLine => {
                let ll = self.lines[0].len();
                self.line = 0;
                self.col = if self.col <= ll {
                    self.col
                } else {
                    ll
                };
            },
            Motion::LastLine => {
                let l = self.lines.len() - 1;
                let ll = self.lines[l].len();
                self.line = l;
                self.col = if self.col <= ll {
                    self.col
                } else {
                    ll
                };
            },
            Motion::WordForward => {
                self.col = next_word_start_x(&self.lines[self.line], self.col);
            },
            Motion::WordBack => {
                self.col = prev_word_start_x(&self.lines[self.line], self.col);
            },
            Motion::WordEnd => {
                self.col = word_end_x(&self.lines[self.line], self.col);
            },
            Motion::FindChar(c) => {
                if self.col < self.lines[self.line].len() {
                    match find_from_x(&self.lines[self.line], self.col + 1, c) {
                        Some(j) => {
                            self.col = j;
                        },
                        None => {},
                    }
                }
            },
        }
    }

    /// Move the cursor `n` steps of motion `m`.
    pub fn apply_motion(&mut self, m: Motion, n: u32)
        requires
            old(self)@.wf(),
        ensures
            final(self)@ == motion_n(old(self)@, m, n as int),
            final(self)@.wf(),
    {
        let mut i: u32 = 0;
        while i < n
            invariant
                i <= n,
                old(self)@.wf(),
                self@ == motion_n(old(self)@, m, i as int),
                self@.wf(),
            decreases n - i,
        {
            proof {
                lemma_motion_n_snoc(old(self)@, m, i as int);
            }
            self.apply_motion_once(m);
            i = i + 1;
        }
    }
}

/// Taking `n + 1` steps is one step after `n` steps.
pub proof fn lemma_motion_n_snoc(b: BufModel, m: Motion, n: int)
    requires
        n >= 0,
    ensures
        motion_n(b, m, n + 1) == motion_once(motion_n(b, m, n), m),
    decreases n,
{
    assert(motion_n(b, m, n + 1) == motion_n(motion_once(b, m), m, n));
    if n == 0 {
        assert(motion_n(motion_once(b, m), m, 0) == motion_once(b, m));
        assert(motion_n(b, m, 0) == b);
    } else {
        lemma_motion_n_snoc(motion_once(b, m), m, n - 1);
    }
}

} // verus!
