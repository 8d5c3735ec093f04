//! An editable line of text with a cursor, a visible window and masking.

use vstd::prelude::*;

use crate::text::string_of;

verus! {

/// The glyph shown for every character of a masked field.
pub const MASK_GLYPH: char = '*';

/// Where the visible window starts after the cursor has moved to `cursor`,
/// when it started at `start` before and is `width` columns wide.
pub open spec fn viewport_after(cursor: nat, start: nat, width: nat) -> nat {
    if cursor < 2 {
        0
    } else if cursor - 2 < start {
        (cursor - 2) as nat
    } else if cursor + 1 > start + width {
        (cursor + 1 - width) as nat
    } else {
        start
    }
}

/// `x + delta`, held within `[0, hi]`.
pub open spec fn clamped(x: int, delta: int, hi: int) -> int {
    if x + delta < 0 {
        0
    } else if x + delta > hi {
        hi
    } else {
        x + delta
    }
}

pub struct TextInput {
    data: Vec<char>,
    vis_len: usize,
    vis_start: usize,
    cursor: usize,
    masked: bool,
    is_secret: bool,
    position: (u16, u16),
}

impl TextInput {
    /// The characters held.
    pub closed spec fn chars(&self) -> Seq<char> {
        self.data@
    }

    /// The cursor, as a number of characters before it.
    pub closed spec fn cursor_at(&self) -> nat {
        self.cursor as nat
    }

    /// The first visible character.
    pub closed spec fn view_start(&self) -> nat {
        self.vis_start as nat
    }

    /// How many characters are visible at once.
    pub closed spec fn view_width(&self) -> nat {
        self.vis_len as nat
    }

    /// Whether the content is shown as mask glyphs.
    pub closed spec fn is_masked(&self) -> bool {
        self.masked
    }

    /// Whether the operator may switch masking on and off.
    pub closed spec fn is_maskable(&self) -> bool {
        self.is_secret
    }

    /// Where the field stands within its parent.
    pub closed spec fn at(&self) -> (u16, u16) {
        self.position
    }

    /// The cursor lies within the window.
    pub open spec fn cursor_in_view(&self) -> bool {
        self.view_start() <= self.cursor_at() <= self.view_start() + self.view_width()
    }

    /// Well-formed: the cursor lies within the text, the window is at least one
    /// column wide, and a window of two columns or more holds the cursor.
    pub open spec fn wf(&self) -> bool {
        &&& self.cursor_at() <= self.chars().len()
        &&& self.view_width() >= 1
        &&& (self.view_width() >= 2 ==> self.cursor_in_view())
    }

    /// `b` keeps the settings of `a`, its cursor stands at `cursor`, and its
    /// window has followed the cursor there.
    pub open spec fn settled(a: TextInput, b: TextInput, cursor: nat) -> bool {
        &&& b.cursor_at() == cursor
        &&& b.view_start() == viewport_after(cursor, a.view_start(), a.view_width())
        &&& b.view_width() == a.view_width()
        &&& b.is_masked() == a.is_masked()
        &&& b.is_maskable() == a.is_maskable()
        &&& b.at() == a.at()
    }

    /// `b` keeps the cursor, window and settings of `a`.
    pub open spec fn unmoved(a: TextInput, b: TextInput) -> bool {
        &&& b.cursor_at() == a.cursor_at()
        &&& b.view_start() == a.view_start()
        &&& b.view_width() == a.view_width()
        &&& b.is_masked() == a.is_masked()
        &&& b.is_maskable() == a.is_maskable()
        &&& b.at() == a.at()
    }

    /// `b` is `a` with its cursor moved to `cursor`.
    pub open spec fn placed(a: TextInput, b: TextInput, cursor: nat) -> bool {
        &&& b.chars() == a.chars()
        &&& Self::settled(a, b, cursor)
    }

    /// `b` is `a` with `c` typed at the cursor.
    pub open spec fn pushed(a: TextInput, c: char, b: TextInput) -> bool {
        &&& b.chars() == a.chars().insert(a.cursor_at() as int, c)
        &&& Self::settled(a, b, a.cursor_at() + 1)
    }

    /// An empty field `length` columns wide; masked when it holds a secret.
    pub fn new(length: usize, is_secret: bool, position: (u16, u16)) -> (r: Self)
        requires
            length >= 1,
        ensures
            r.wf(),
            r.chars() == Seq::<char>::empty(),
            r.cursor_at() == 0,
            r.view_start() == 0,
            r.view_width() == length,
            r.is_masked() == is_secret,
            r.is_maskable() == is_secret,
            r.at() == position,
    {
        TextInput {
            data: Vec::with_capacity(length),
            vis_len: length,
            vis_start: 0,
            cursor: 0,
            masked: is_secret,
            is_secret,
            position,
        }
    }

    /// Marks the field as secret (masked and maskable) or as plain.
    pub fn set_secret(&mut self, is_secret: bool)
        requires
            old(self).wf(),
        ensures
            final(self).wf(),
            final(self).is_masked() == is_secret,
            final(self).is_maskable() == is_secret,
            final(self).chars() == old(self).chars(),
            final(self).cursor_at() == old(self).cursor_at(),
            final(self).view_start() == old(self).view_start(),
            final(self).view_width() == old(self).view_width(),
            final(self).at() == old(self).at(),
    {
        self.is_secret = is_secret;
        self.masked = is_secret;
    }

    /// Flips masking, where the field allows it.
    pub fn toggle(&mut self)
        requires
            old(self).wf(),
        ensures
            final(self).wf(),
            final(self).is_masked() == (if old(self).is_maskable() {
                !old(self).is_masked()
            } else {
                old(self).is_masked()
            }),
            final(self).is_maskable() == old(self).is_maskable(),
            final(self).chars() == old(self).chars(),
            final(self).cursor_at() == old(self).cursor_at(),
            final(self).view_start() == old(self).view_start(),
            final(self).view_width() == old(self).view_width(),
            final(self).at() == old(self).at(),
    {
        if self.is_secret {
            self.masked = !self.masked;
        }
    }

    /// Moves the cursor to `position`, or to the end where the text is shorter.
    pub fn set_cursor(&mut self, position: usize)
        requires
            old(self).wf(),
        ensures
            final(self).wf(),
            Self::placed(
                *old(self),
                *final(self),
                if position <= old(self).chars().len() {
                    position as nat
                } else {
                    old(self).chars().len()
                },
            ),
    {
        self.cursor = if position <= self.data.len() {
            position
        } else {
            self.data.len()
        };
        self.refresh_visible();
    }

    /// Moves the cursor by `positions`, held within the text.
    pub fn move_cursor(&mut self, positions: i32)
        requires
            old(self).wf(),
        ensures
            final(self).wf(),
            Self::placed(
                *old(self),
                *final(self),
                clamped(
                    old(self).cursor_at() as int,
                    positions as int,
                    old(self).chars().len() as int,
                ) as nat,
            ),
    {
        let len = self.data.len();
        if positions < 0 {
            let back = (-(positions as i64)) as u64;
            if (self.cursor as u64) < back {
                self.cursor = 0;
            } else {
                self.cursor = self.cursor - back as usize;
            }
        } else {
            let ahead = positions as u64;
            if ((len - self.cursor) as u64) < ahead {
                self.cursor = len;
            } else {
                self.cursor = self.cursor + ahead as usize;
            }
        }
        self.refresh_visible();
    }

    /// Moves the window so that it follows the cursor.
    fn refresh_visible(&mut self)
        requires
            old(self).cursor <= old(self).data.len(),
            old(self).vis_len >= 1,
        ensures
            final(self).vis_start == viewport_after(
                old(self).cursor as nat,
                old(self).vis_start as nat,
                old(self).vis_len as nat,
            ),
            final(self).data == old(self).data,
            final(self).cursor == old(self).cursor,
            final(self).vis_len == old(self).vis_len,
            final(self).masked == old(self).masked,
            final(self).is_secret == old(self).is_secret,
            final(self).position == old(self).position,
            final(self).vis_len >= 2 ==> final(self).vis_start <= final(self).cursor
                <= final(self).vis_start + final(self).vis_len,
    {
        if self.cursor < 2 {
            self.vis_start = 0;
        } else if self.cursor - 2 < self.vis_start {
            self.vis_start = self.cursor - 2;
        } else if self.cursor - self.vis_start >= self.vis_len {
            self.vis_start = self.cursor - (self.vis_len - 1);
        }
    }

    /// The text held.
    pub fn text(&self) -> (r: String)
        ensures
            r@ == self.chars(),
    {
        string_of(&self.data)
    }

    /// Empties the field and makes it plain.
    pub fn clear(&mut self)
        requires
            old(self).wf(),
        ensures
            final(self).wf(),
            final(self).chars() == Seq::<char>::empty(),
            final(self).cursor_at() == 0,
            final(self).view_start() == 0,
            final(self).view_width() == old(self).view_width(),
            !final(self).is_masked(),
            !final(self).is_maskable(),
            final(self).at() == old(self).at(),
    {
        self.is_secret = false;
        self.masked = false;
        self.data.clear();
        self.cursor = 0;
        self.refresh_visible();
    }

    /// Types `c` at the cursor and moves the cursor past it.
    pub fn push(&mut self, c: char)
        requires
            old(self).wf(),
        ensures
            final(self).wf(),
            Self::pushed(*old(self), c, *final(self)),
    {
        if self.cursor >= self.data.len() {
            self.data.push(c);
        } else {
            self.data.insert(self.cursor, c);
        }
        proof {
            assert(self.data@ == old(self).data@.insert(old(self).cursor as int, c));
        }
        self.move_cursor(1);
    }

    /// Deletes the character after the cursor (`right`), or the one before it
    /// and moves the cursor back.
    pub fn pop(&mut self, right: bool)
        requires
            old(self).wf(),
        ensures
            final(self).wf(),
            right ==> Self::unmoved(*old(self), *final(self)),
            right ==> final(self).chars() == (if old(self).cursor_at() < old(self).chars().len() {
                old(self).chars().remove(old(self).cursor_at() as int)
            } else {
                old(self).chars()
            }),
            !right ==> final(self).chars() == (if old(self).cursor_at() > 0 {
                old(self).chars().remove(old(self).cursor_at() - 1)
            } else {
                old(self).chars()
            }),
            !right ==> Self::settled(
                *old(self),
                *final(self),
                if old(self).cursor_at() > 0 {
                    (old(self).cursor_at() - 1) as nat
                } else {
                    0
                },
            ),
    {
        if right {
            if self.cursor < self.data.len() {
                self.data.remove(self.cursor);
            }
            return;
        }
        if self.cursor >= self.data.len() {
            self.data.pop();
        } else if self.cursor > 0 {
            self.data.remove(self.cursor - 1);
        }
        if self.cursor > 0 {
            self.cursor = self.cursor - 1;
        }
        self.refresh_visible();
    }

    /// Whether the field holds no text.
    pub fn is_empty(&self) -> (r: bool)
        ensures
            r == (self.chars().len() == 0),
    {
        self.data.len() == 0
    }

    /// Moves the cursor one character back.
    pub fn cursor_left(&mut self)
        requires
            old(self).wf(),
        ensures
            final(self).wf(),
            Self::placed(
                *old(self),
                *final(self),
                if old(self).cursor_at() > 0 {
                    (old(self).cursor_at() - 1) as nat
                } else {
                    0
                },
            ),
    {
        self.move_cursor(-1);
    }

    /// Moves the cursor one character ahead.
    pub fn cursor_right(&mut self)
        requires
            old(self).wf(),
        ensures
            final(self).wf(),
            Self::placed(
                *old(self),
                *final(self),
                if old(self).cursor_at() < old(self).chars().len() {
                    old(self).cursor_at() + 1
                } else {
                    old(self).chars().len()
                },
            ),
    {
        self.move_cursor(1);
    }

    /// Moves the cursor before the first character.
    pub fn cursor_start(&mut self)
        requires
            old(self).wf(),
        ensures
            final(self).wf(),
            Self::placed(*old(self), *final(self), 0),
    {
        self.set_cursor(0);
    }

    /// Moves the cursor after the last character.
    pub fn cursor_end(&mut self)
        requires
            old(self).wf(),
        ensures
            final(self).wf(),
            Self::placed(*old(self), *final(self), old(self).chars().len()),
    {
        let len = self.data.len();
        self.set_cursor(len);
    }

    /// The characters shown in the window: the text there, or as many mask
    /// glyphs when the field is masked.
    pub open spec fn shown(&self) -> Seq<char> {
        let len = self.chars().len();
        let start = if self.view_start() <= len { self.view_start() } else { len };
        let n = if len - start <= self.view_width() { (len - start) as nat } else { self.view_width() };
        if self.is_masked() {
            Seq::new(n, |i: int| MASK_GLYPH)
        } else {
            self.chars().subrange(start as int, (start + n) as int)
        }
    }

    /// What the window shows.
    pub fn visible(&self) -> (r: String)
        ensures
            r@ == self.shown(),
            self.is_masked() ==> forall|i: int| 0 <= i < r@.len() ==> r@[i] == MASK_GLYPH,
    {
        let len = self.data.len();
        let start = if self.vis_start <= len { self.vis_start } else { len };
        let n = if len - start <= self.vis_len { len - start } else { self.vis_len };
        let mut shown: Vec<char> = Vec::new();
        let mut i: usize = 0;
        while i < n
            invariant
                i <= n,
                start + n <= len,
                len == self.data.len(),
                shown@.len() == i,
                forall|j: int| 0 <= j < i ==> shown@[j] == self.shown()[j],
                self.shown().len() == n,
                self.masked ==> self.shown() == Seq::new(n as nat, |k: int| MASK_GLYPH),
                !self.masked ==> self.shown() == self.data@.subrange(start as int, start + n),
            decreases n - i,
        {
            if self.masked {
                shown.push(MASK_GLYPH);
            } else {
                shown.push(self.data[start + i]);
            }
            i = i + 1;
        }
        assert(shown@ == self.shown());
        string_of(&shown)
    }

    /// Whether text lies before the window.
    pub fn clipped_left(&self) -> (r: bool)
        ensures
            r == (self.view_start() > 0),
    {
        self.vis_start > 0
    }

    /// Whether text lies after the window.
    pub fn clipped_right(&self) -> (r: bool)
        ensures
            r == (self.chars().len() > self.view_start() + self.view_width()),
    {
        self.data.len() > self.vis_start && self.data.len() - self.vis_start > self.vis_len
    }

    /// The cursor's column within the window (0 where the window starts past it).
    pub fn cursor_column(&self) -> (r: usize)
        ensures
            r == (if self.cursor_at() >= self.view_start() {
                self.cursor_at() - self.view_start()
            } else {
                0
            }),
    {
        if self.cursor >= self.vis_start {
            self.cursor - self.vis_start
        } else {
            0
        }
    }

    /// How many characters are visible at once.
    pub fn width(&self) -> (r: usize)
        ensures
            r == self.view_width(),
    {
        self.vis_len
    }

    /// Where the field stands within its parent.
    pub fn position(&self) -> (r: (u16, u16))
        ensures
            r == self.at(),
    {
        self.position
    }
}

/// Helper for the law below: after typing the first `k` characters of `s`
/// into a cleared field, the field holds exactly those and the cursor follows them.
proof fn typed_prefix(steps: Seq<TextInput>, s: Seq<char>, k: int)
    requires
        steps.len() == s.len() + 1,
        steps[0].chars() == Seq::<char>::empty(),
        steps[0].cursor_at() == 0,
        forall|i: int| 0 <= i < s.len() ==> TextInput::pushed(#[trigger] steps[i], s[i], steps[i + 1]),
        0 <= k <= s.len(),
    ensures
        steps[k].chars() == s.take(k),
        steps[k].cursor_at() == k,
    decreases k,
{
    if k > 0 {
        typed_prefix(steps, s, k - 1);
        assert(TextInput::pushed(steps[k - 1], s[k - 1], steps[k]));
        assert(s.take(k) == s.take(k - 1).insert(k - 1, s[k - 1]));
    }
}

/// Clearing a field and then typing the characters of `s` one after another
/// leaves exactly `s` in it: `steps[0]` is the cleared field (empty, cursor at
/// the start) and each next state is the previous one with one more character
/// of `s` typed.
pub proof fn lemma_typed_text_reads_back(steps: Seq<TextInput>, s: Seq<char>)
    requires
        steps.len() == s.len() + 1,
        steps[0].chars() == Seq::<char>::empty(),
        steps[0].cursor_at() == 0,
        forall|i: int| 0 <= i < s.len() ==> TextInput::pushed(#[trigger] steps[i], s[i], steps[i + 1]),
    ensures
        steps[s.len() as int].chars() == s,
{
    typed_prefix(steps, s, s.len() as int);
    assert(s.take(s.len() as int) == s);
}

/// `b` is `a` after typing, deleting or moving the cursor: the operations
/// that leave masking alone.
pub open spec fn edited(a: TextInput, b: TextInput) -> bool {
    ||| exists|c: char| TextInput::pushed(a, c, b)
    ||| exists|k: nat| TextInput::settled(a, b, k)
    ||| TextInput::unmoved(a, b)
}

/// Once a field is masked, typing, deleting and cursor moves keep it masked,
/// and all it shows is mask glyphs, until masking is toggled or the field is
/// cleared.
pub proof fn lemma_masked_until_toggled(steps: Seq<TextInput>)
    requires
        steps.len() > 0,
        steps[0].is_masked(),
        forall|i: int| 0 <= i < steps.len() - 1 ==> edited(#[trigger] steps[i], steps[i + 1]),
    ensures
        forall|i: int|
            0 <= i < steps.len() ==> (#[trigger] steps[i]).is_masked() && forall|j: int|
                0 <= j < steps[i].shown().len() ==> steps[i].shown()[j] == MASK_GLYPH,
{
    assert forall|i: int| 0 <= i < steps.len() implies (#[trigger] steps[i]).is_masked() by {
        masked_prefix(steps, i);
    }
}

proof fn masked_prefix(steps: Seq<TextInput>, k: int)
    requires
        0 <= k < steps.len(),
        steps[0].is_masked(),
        forall|i: int| 0 <= i < steps.len() - 1 ==> edited(#[trigger] steps[i], steps[i + 1]),
    ensures
        steps[k].is_masked(),
    decreases k,
{
    if k > 0 {
        masked_prefix(steps, k - 1);
        assert(edited(steps[k - 1], steps[k]));
    }
}

/// Wherever the window stood before, once it has followed the cursor a
/// window of two columns or more holds the cursor, and starts within the text
/// whenever the cursor does.
pub proof fn lemma_viewport_holds_cursor(cursor: nat, start: nat, width: nat, len: nat)
    requires
        width >= 2,
        cursor <= len,
    ensures
        viewport_after(cursor, start, width) <= cursor <= viewport_after(cursor, start, width)
            + width,
        viewport_after(cursor, start, width) <= len,
{
}

} // verus!
