//! The editor's cursor state and the dispatch of key presses.
use vstd::prelude::*;

use crate::geometry::{
    center_of, glyph_dist, is_nearest, line_index, line_index_from, GlyphBox,
    LineSpan, Point,
};

verus! {

/// The cursor after a move back: one step left, never below 0.
pub open spec fn back_of(c: usize) -> usize {
    if c > 0 { (c - 1) as usize } else { c }
}

/// The cursor after a move forward in a text of `len` characters: one step
/// right, held to the last character (0 in an empty text).
pub open spec fn fwd_of(c: usize, len: nat) -> usize {
    if len == 0 {
        0
    } else if c + 1 >= len {
        (len - 1) as usize
    } else {
        (c + 1) as usize
    }
}

/// A key pressed while the editor has focus.
#[derive(Debug, PartialEq, Eq)]
pub enum KeyPress {
    ArrowLeft,
    ArrowRight,
    ArrowUp,
    ArrowDown,
    Backspace,
    Character(String),
    Space,
    Home,
    End,
    Delete,
    Enter,
    Escape,
    Tab,
}

/// `text` with `s` put in at offset `at`.
pub open spec fn inserted(text: Seq<char>, at: int, s: Seq<char>) -> Seq<char> {
    text.subrange(0, at) + s + text.subrange(at, text.len() as int)
}

/// Puts `s` into `text` at character offset `at`.
fn insert_at(text: &str, at: usize, s: &str) -> (r: String)
    requires
        at <= text@.len(),
    ensures
        r@ == inserted(text@, at as int, s@),
{
    let len = text.unicode_len();
    let head = String::from_str(text.substring_char(0, at));
    head.concat(s).concat(text.substring_char(at, len))
}

/// Takes the character at offset `at` out of `text`.
fn remove_at(text: &str, at: usize) -> (r: String)
    requires
        at < text@.len(),
    ensures
        r@ == text@.remove(at as int),
{
    let len = text.unicode_len();
    let head = String::from_str(text.substring_char(0, at));
    let r = head.concat(text.substring_char(at + 1, len));
    assert(r@ =~= text@.remove(at as int));
    r
}

/// The cursor after the horizontal arrow keys of `keys`, in order, in a text
/// of `len` characters.
pub open spec fn after_arrows(c: usize, keys: Seq<KeyPress>, len: nat) -> usize
    decreases keys.len(),
{
    if keys.len() == 0 {
        c
    } else {
        let next = if keys[0] is ArrowLeft { back_of(c) } else { fwd_of(c, len) };
        after_arrows(next, keys.drop_first(), len)
    }
}

/// In a non-empty text, a cursor on a character stays on one through any
/// sequence of left and right arrow keys.
pub proof fn lemma_arrows_stay_in_text(c: usize, keys: Seq<KeyPress>, len: nat)
    requires
        0 < len,
        c < len,
        forall|i: int| 0 <= i < keys.len() ==> keys[i] is ArrowLeft || keys[i] is ArrowRight,
    ensures
        after_arrows(c, keys, len) < len,
    decreases keys.len(),
{
    if keys.len() > 0 {
        let next = if keys[0] is ArrowLeft { back_of(c) } else { fwd_of(c, len) };
        lemma_arrows_stay_in_text(next, keys.drop_first(), len);
    }
}

/// Away from the ends of the text, a move back undoes a move forward and a
/// move forward undoes a move back (for any text length that a `usize` holds).
pub proof fn lemma_back_undoes_fwd(c: usize, len: nat)
    ensures
        0 < c < len ==> fwd_of(back_of(c), len) == c,
        c + 1 < len <= usize::MAX ==> back_of(fwd_of(c, len)) == c,
{
}

/// Width of the caret bar.
pub const CARET_WIDTH: i32 = 2;

/// Height of the caret bar.
pub const CARET_HEIGHT: i32 = 20;

/// Cursor, glyph boxes and lines of one text editor.
pub struct TextEditorState {
    /// Index of the glyph under the cursor, and its character offset.
    pub cursor: usize,
    /// The glyph boxes of the latest layout, in text order.
    pub glyph_rects: Vec<GlyphBox>,
    /// The visual lines of the latest layout, top to bottom.
    pub lines: Vec<LineSpan>,
}

impl TextEditorState {
    /// The line that holds the cursor, or the number of lines.
    pub open spec fn line_of_cursor(&self) -> int {
        line_index(self.lines@, self.cursor as int)
    }

    /// A vertical move to line `target` can be made: the cursor
    /// has a glyph and the target is a non-empty line of known glyphs.
    pub open spec fn can_move_to(&self, target: int) -> bool {
        &&& self.cursor < self.glyph_rects@.len()
        &&& 0 <= target < self.lines@.len()
        &&& self.lines@[target].glyph_start < self.lines@[target].glyph_end
        &&& self.lines@[target].glyph_end <= self.glyph_rects@.len()
    }

    /// The cursor `c` is where a vertical move to line `target` lands: on the
    /// glyph of that line closest to the one under the cursor, or, where the
    /// move cannot be made, where it was.
    pub open spec fn moved_to(&self, target: int, c: usize) -> bool {
        if self.can_move_to(target) {
            is_nearest(
                self.glyph_rects@,
                center_of(self.glyph_rects@[self.cursor as int]),
                self.lines@[target].glyph_start as int,
                self.lines@[target].glyph_end as int,
                c as int,
            )
        } else {
            c == self.cursor
        }
    }

    /// The cursor `c` is where a move down lands.
    pub open spec fn moved_down(&self, c: usize) -> bool {
        let li = self.line_of_cursor();
        if li < self.lines@.len() { self.moved_to(li + 1, c) } else { c == self.cursor }
    }

    /// The cursor `c` is where a move up lands.
    pub open spec fn moved_up(&self, c: usize) -> bool {
        let li = self.line_of_cursor();
        if li < self.lines@.len() { self.moved_to(li - 1, c) } else { c == self.cursor }
    }

    /// Cursor `c` and text `t` are what key `k` makes of this state and
    /// of `text`.
    pub open spec fn keyed(&self, k: KeyPress, text: Seq<char>, c: usize, t: Seq<char>) -> bool {
        let cur = self.cursor;
        match k {
            KeyPress::ArrowLeft => c == back_of(cur) && t == text,
            KeyPress::ArrowRight => c == fwd_of(cur, text.len()) && t == text,
            KeyPress::ArrowUp => self.moved_up(c) && t == text,
            KeyPress::ArrowDown => self.moved_down(c) && t == text,
            KeyPress::Backspace => if 0 < cur <= text.len() {
                c == cur - 1 && t == text.remove(cur - 1)
            } else {
                c == cur && t == text
            },
            KeyPress::Character(s) => if cur <= text.len() {
                c == cur + s@.len() && t == inserted(text, cur as int, s@)
            } else {
                c == cur && t == text
            },
            KeyPress::Space => if cur <= text.len() {
                c == cur + 1 && t == inserted(text, cur as int, seq![' '])
            } else {
                c == cur && t == text
            },
            KeyPress::Home => c == 0 && t == text,
            KeyPress::End => c == text.len() && t == text,
            _ => c == cur && t == text,
        }
    }

    /// A state at the start of the text, with no layout yet.
    pub fn new() -> (r: Self)
        ensures
            r.cursor == 0,
            r.glyph_rects@.len() == 0,
            r.lines@.len() == 0,
    {
        Self { cursor: 0, glyph_rects: Vec::new(), lines: Vec::new() }
    }

    /// Moves the cursor one character right in a text of `len` characters,
    /// holding it to the last one.
    pub fn fwd(&mut self, len: usize)
        ensures
            final(self).cursor == fwd_of(old(self).cursor, len as nat),
            final(self).glyph_rects == old(self).glyph_rects,
            final(self).lines == old(self).lines,
    {
        if len == 0 {
            self.cursor = 0;
        } else if self.cursor >= len - 1 {
            self.cursor = len - 1;
        } else {
            self.cursor = self.cursor + 1;
        }
    }

    /// Moves the cursor one character left, stopping at 0.
    pub fn back(&mut self)
        ensures
            final(self).cursor == back_of(old(self).cursor),
            final(self).glyph_rects == old(self).glyph_rects,
            final(self).lines == old(self).lines,
    {
        if self.cursor > 0 {
            self.cursor = self.cursor - 1;
        }
    }

    /// The first line whose span holds the cursor, or the number of lines
    /// where none does.
    pub fn find_line(&self) -> (r: usize)
        ensures
            r as int == self.line_of_cursor(),
    {
        let mut i: usize = 0;
        while i < self.lines.len()
            invariant
                i <= self.lines@.len(),
                line_index_from(self.lines@, self.cursor as int, i as int) == self.line_of_cursor(),
            decreases self.lines@.len() - i,
        {
            let line = self.lines[i];
            if self.cursor >= line.glyph_start && self.cursor < line.glyph_end {
                return i;
            }
            i = i + 1;
        }
        i
    }

    /// The glyph of `range` in `rects` whose center lies closest to `p`; the
    /// first one among those at the same distance.
    pub fn closest_in_range(&self, p: Point, range: std::ops::Range<usize>, rects: &[GlyphBox]) -> (r: usize)
        requires
            range.start < range.end <= rects@.len(),
        ensures
            is_nearest(rects@, p, range.start as int, range.end as int, r as int),
            range.end == range.start + 1 ==> r == range.start,
    {
        let mut closest: usize = range.start;
        let mut d: u128 = rects[range.start].distance_sq_to(p);
        let mut i: usize = range.start + 1;
        while i < range.end
            invariant
                range.start < i <= range.end <= rects@.len(),
                is_nearest(rects@, p, range.start as int, i as int, closest as int),
                d as int == glyph_dist(rects@[closest as int], p),
            decreases range.end - i,
        {
            let dp = rects[i].distance_sq_to(p);
            if dp < d {
                closest = i;
                d = dp;
            }
            i = i + 1;
        }
        closest
    }
    /// Moves the cursor to the glyph of line `target` closest to the glyph
    /// under the cursor, where that move can be made.
    fn move_to_line(&mut self, target: usize)
        ensures
            old(self).moved_to(target as int, final(self).cursor),
            final(self).glyph_rects == old(self).glyph_rects,
            final(self).lines == old(self).lines,
    {
        if self.cursor < self.glyph_rects.len() && target < self.lines.len() {
            let span = self.lines[target];
            if span.glyph_start < span.glyph_end && span.glyph_end <= self.glyph_rects.len() {
                let p = self.glyph_rects[self.cursor].center();
                self.cursor = self.closest_in_range(
                    p,
                    span.glyph_start..span.glyph_end,
                    self.glyph_rects.as_slice(),
                );
            }
        }
    }

    /// Moves the cursor to the closest glyph of the next line; no move on the
    /// last line or where the layout does not hold the cursor.
    pub fn down(&mut self)
        ensures
            old(self).moved_down(final(self).cursor),
            final(self).glyph_rects == old(self).glyph_rects,
            final(self).lines == old(self).lines,
    {
        let line = self.find_line();
        if line < self.lines.len() {
            self.move_to_line(line + 1);
        }
    }

    /// Moves the cursor to the closest glyph of the previous line; no move on
    /// the first line or where the layout does not hold the cursor.
    pub fn up(&mut self)
        ensures
            old(self).moved_up(final(self).cursor),
            final(self).glyph_rects == old(self).glyph_rects,
            final(self).lines == old(self).lines,
    {
        let line = self.find_line();
        if 0 < line && line < self.lines.len() {
            self.move_to_line(line - 1);
        }
    }
    /// Applies key `k` to the cursor and to `text`, and returns the new text.
    /// Edits at a cursor past the end of the text are not made.
    pub fn key(&mut self, k: &KeyPress, text: String) -> (r: String)
        ensures
            old(self).keyed(*k, text@, final(self).cursor, r@),
            final(self).glyph_rects == old(self).glyph_rects,
            final(self).lines == old(self).lines,
    {
        match k {
            KeyPress::ArrowLeft => {
                self.back();
                text
            },
            KeyPress::ArrowRight => {
                let len = text.as_str().unicode_len();
                self.fwd(len);
                text
            },
            KeyPress::ArrowUp => {
                self.up();
                text
            },
            KeyPress::ArrowDown => {
                self.down();
                text
            },
            KeyPress::Backspace => {
                let len = text.as_str().unicode_len();
                if 0 < self.cursor && self.cursor <= len {
                    let t = remove_at(text.as_str(), self.cursor - 1);
                    self.back();
                    t
                } else {
                    text
                }
            },
            KeyPress::Character(c) => {
                let len = text.as_str().unicode_len();
                if self.cursor <= len {
                    let t = insert_at(text.as_str(), self.cursor, c.as_str());
                    let n = c.as_str().unicode_len();
                    // The new text's length fits a usize, so the cursor can pass the insert.
                    let _len_after = t.as_str().unicode_len();
                    self.cursor = self.cursor + n;
                    t
                } else {
                    text
                }
            },
            KeyPress::Space => {
                let len = text.as_str().unicode_len();
                if self.cursor <= len {
                    proof {
                        reveal_strlit(" ");
                        assert(" "@ =~= seq![' ']);
                    }
                    let t = insert_at(text.as_str(), self.cursor, " ");
                    // The new text's length fits a usize, so the cursor can pass the blank.
                    let _len_after = t.as_str().unicode_len();
                    self.cursor = self.cursor + 1;
                    t
                } else {
                    text
                }
            },
            KeyPress::Home => {
                self.cursor = 0;
                text
            },
            KeyPress::End => {
                self.cursor = text.as_str().unicode_len();
                text
            },
            _ => text,
        }
    }
    /// The caret to draw where the editor has focus: a thin bar at the
    /// origin of the glyph under the cursor. None without focus, or where
    /// the layout has no glyph for the cursor.
    pub fn caret(&self, has_focus: bool) -> (r: Option<GlyphBox>)
        ensures
            r == (if has_focus && self.cursor < self.glyph_rects@.len() {
                Some(
                    GlyphBox {
                        x: self.glyph_rects@[self.cursor as int].x,
                        y: self.glyph_rects@[self.cursor as int].y,
                        width: CARET_WIDTH,
                        height: CARET_HEIGHT,
                    },
                )
            } else {
                None
            }),
    {
        if has_focus && self.cursor < self.glyph_rects.len() {
            let g = self.glyph_rects[self.cursor];
            Some(GlyphBox { x: g.x, y: g.y, width: CARET_WIDTH, height: CARET_HEIGHT })
        } else {
            None
        }
    }
}

/// An editor of one line of text. The text belongs to the caller: edits are
/// handed back to it through `set_text`.
pub struct TextEditor<F> {
    text: String,
    set_text: F,
}

impl<F> TextEditor<F> {
    /// The text being edited.
    pub closed spec fn text_view(&self) -> Seq<char> {
        self.text@
    }

    /// The callback that takes the edited text.
    pub closed spec fn setter(&self) -> F {
        self.set_text
    }

    /// The text being edited.
    pub fn text(&self) -> (r: &String)
        ensures
            r@ == self.text_view(),
    {
        &self.text
    }

    /// The callback that takes the edited text.
    pub fn set_text(&self) -> (r: &F)
        ensures
            *r == self.setter(),
    {
        &self.set_text
    }

    /// Applies key `k` to `state` and to the text where the editor has
    /// focus, and returns the text to hand to `set_text`. Without focus
    /// nothing changes and there is nothing to hand on.
    pub fn handle_key(&self, state: &mut TextEditorState, k: &KeyPress, has_focus: bool) -> (r:
        Option<String>)
        ensures
            has_focus ==> r is Some && old(state).keyed(*k, self.text_view(), final(state).cursor, r->0@)
                && final(state).glyph_rects == old(state).glyph_rects
                && final(state).lines == old(state).lines,
            !has_focus ==> r is None && *final(state) == *old(state),
    {
        if has_focus {
            let text = self.text.clone();
            Some(state.key(k, text))
        } else {
            None
        }
    }
}

/// An editor of `text` that hands each edit to `set_text`.
pub fn text_editor<F>(text: String, set_text: F) -> (r: TextEditor<F>)
    ensures
        r.text_view() == text@,
        r.setter() == set_text,
{
    TextEditor { text, set_text }
}


} // verus!
