//! A line of static text, optionally cut to a width.

use vstd::prelude::*;

use crate::text::{chars_of, string_of};

verus! {

/// The marker that ends a text that was cut short.
pub const ELLIPSIS: char = '…';

/// `s` cut to `limit` characters: a text longer than the limit keeps its
/// first `limit - 1` characters and ends in the ellipsis. No limit, or a
/// limit of zero, leaves the text whole.
pub open spec fn truncated(s: Seq<char>, limit: Option<usize>) -> Seq<char> {
    match limit {
        None => s,
        Some(n) => if n == 0 || s.len() <= n {
            s
        } else {
            s.take(n - 1).push(ELLIPSIS)
        },
    }
}

/// `text` cut to `length` characters, as `truncated` says.
pub fn truncate_text(text: &str, length: Option<usize>) -> (r: String)
    ensures
        r@ == truncated(text@, length),
{
    match length {
        None => text.to_owned(),
        Some(len) => {
            if len == 0 {
                return text.to_owned();
            }
            let chars = chars_of(text);
            if chars.len() <= len {
                return text.to_owned();
            }
            let mut kept: Vec<char> = Vec::new();
            let mut i: usize = 0;
            while i < len - 1
                invariant
                    i <= len - 1,
                    len < chars.len(),
                    kept@ == chars@.take(i as int),
                decreases len - 1 - i,
            {
                kept.push(chars[i]);
                assert(chars@.take(i + 1) == chars@.take(i as int).push(chars@[i as int]));
                i = i + 1;
            }
            kept.push(ELLIPSIS);
            string_of(&kept)
        },
    }
}

pub struct Label {
    text: String,
    position: (u16, u16),
    length: Option<usize>,
}

impl Label {
    /// The text shown.
    pub closed spec fn shown(&self) -> Seq<char> {
        self.text@
    }

    /// Where the label stands within its parent.
    pub closed spec fn at(&self) -> (u16, u16) {
        self.position
    }

    /// The width that texts are cut to, if any.
    pub closed spec fn limit(&self) -> Option<usize> {
        self.length
    }

    /// A label that shows `text` whole.
    pub fn new(text: &str, position: (u16, u16)) -> (r: Self)
        ensures
            r.shown() == text@,
            r.at() == position,
            r.limit() == None::<usize>,
    {
        Self::new_truncated(text, position, 0)
    }

    /// A label that cuts its texts to `length` characters (0: no limit).
    pub fn new_truncated(text: &str, position: (u16, u16), length: usize) -> (r: Self)
        ensures
            r.limit() == (if length == 0 {
                None
            } else {
                Some(length)
            }),
            r.shown() == truncated(text@, r.limit()),
            r.at() == position,
    {
        let length = if length == 0 {
            None
        } else {
            Some(length)
        };
        Label { text: truncate_text(text, length), position, length }
    }

    /// Shows `text`, cut to the label's width.
    pub fn set_text(&mut self, text: &str)
        ensures
            final(self).shown() == truncated(text@, old(self).limit()),
            final(self).limit() == old(self).limit(),
            final(self).at() == old(self).at(),
    {
        self.text = truncate_text(text, self.length);
    }

    /// The text shown.
    pub fn text(&self) -> (r: &str)
        ensures
            r@ == self.shown(),
    {
        self.text.as_str()
    }

    /// Where the label stands within its parent.
    pub fn position(&self) -> (r: (u16, u16))
        ensures
            r == self.at(),
    {
        self.position
    }
}

} // verus!
