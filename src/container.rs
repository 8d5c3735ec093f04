//! A rectangular frame drawn with box-drawing characters.

use vstd::prelude::*;

use crate::text::string_of;

verus! {

/// The eight characters of a frame, clockwise from the top left corner.
pub struct BorderCharacters {
    pub northwest: char,
    pub north: char,
    pub northeast: char,
    pub east: char,
    pub southeast: char,
    pub south: char,
    pub southwest: char,
    pub west: char,
}

impl BorderCharacters {
    pub fn new(
        northwest: char,
        north: char,
        northeast: char,
        east: char,
        southeast: char,
        south: char,
        southwest: char,
        west: char,
    ) -> (r: Self)
        ensures
            r.northwest == northwest,
            r.north == north,
            r.northeast == northeast,
            r.east == east,
            r.southeast == southeast,
            r.south == south,
            r.southwest == southwest,
            r.west == west,
    {
        BorderCharacters { northwest, north, northeast, east, southeast, south, southwest, west }
    }
}

impl Default for BorderCharacters {
    /// A frame of blanks.
    fn default() -> (r: Self)
        ensures
            r.northwest == ' ' && r.north == ' ' && r.northeast == ' ' && r.east == ' ',
            r.southeast == ' ' && r.south == ' ' && r.southwest == ' ' && r.west == ' ',
    {
        BorderCharacters::new(' ', ' ', ' ', ' ', ' ', ' ', ' ', ' ')
    }
}

/// The styles of frame on offer.
pub enum BorderType {
    Unicode,
}

pub struct Container {
    position: (u16, u16),
    size: (u16, u16),
    characters: BorderCharacters,
}

/// A horizontal edge `width` columns wide: a corner, the middle character
/// repeated, and the other corner.
pub open spec fn edge_line(width: nat, first: char, middle: char, last: char) -> Seq<char> {
    seq![first] + Seq::new((width - 2) as nat, |i: int| middle) + seq![last]
}

impl Container {
    /// Where the frame stands within its parent.
    pub closed spec fn at(&self) -> (u16, u16) {
        self.position
    }

    /// Width and height of the frame.
    pub closed spec fn extent(&self) -> (u16, u16) {
        self.size
    }

    /// The characters the frame is drawn with.
    pub closed spec fn glyphs(&self) -> BorderCharacters {
        self.characters
    }

    pub fn new(border: BorderType, position: (u16, u16), size: (u16, u16)) -> (r: Self)
        ensures
            r.at() == position,
            r.extent() == size,
            r.glyphs() == (match border {
                BorderType::Unicode => BorderCharacters {
                    northwest: '┌',
                    north: '─',
                    northeast: '┐',
                    east: '│',
                    southeast: '┘',
                    south: '─',
                    southwest: '└',
                    west: '│',
                },
            }),
    {
        let characters = match border {
            BorderType::Unicode => BorderCharacters::new(
                '┌',
                '─',
                '┐',
                '│',
                '┘',
                '─',
                '└',
                '│',
            ),
        };
        Container { position, size, characters }
    }

    /// Where the frame stands within its parent.
    pub fn position(&self) -> (r: (u16, u16))
        ensures
            r == self.at(),
    {
        self.position
    }

    /// Width and height of the frame.
    pub fn size(&self) -> (r: (u16, u16))
        ensures
            r == self.extent(),
    {
        self.size
    }

    /// The characters the frame is drawn with.
    pub fn characters(&self) -> (r: &BorderCharacters)
        ensures
            *r == self.glyphs(),
    {
        &self.characters
    }

    /// The top edge (`bottom` false) or the bottom edge of the frame.
    pub fn edge(&self, bottom: bool) -> (r: String)
        requires
            self.extent().0 >= 2,
        ensures
            r@ == (if bottom {
                edge_line(
                    self.extent().0 as nat,
                    self.glyphs().southwest,
                    self.glyphs().south,
                    self.glyphs().southeast,
                )
            } else {
                edge_line(
                    self.extent().0 as nat,
                    self.glyphs().northwest,
                    self.glyphs().north,
                    self.glyphs().northeast,
                )
            }),
    {
        let c = &self.characters;
        let (first, middle, last) = if bottom {
            (c.southwest, c.south, c.southeast)
        } else {
            (c.northwest, c.north, c.northeast)
        };
        let inner = (self.size.0 - 2) as usize;
        let mut line: Vec<char> = Vec::new();
        line.push(first);
        let mut i: usize = 0;
        while i < inner
            invariant
                i <= inner,
                line@ == seq![first] + Seq::new(i as nat, |k: int| middle),
            decreases inner - i,
        {
            line.push(middle);
            assert(seq![first] + Seq::new((i + 1) as nat, |k: int| middle) == (seq![first]
                + Seq::new(i as nat, |k: int| middle)).push(middle));
            i = i + 1;
        }
        line.push(last);
        string_of(&line)
    }
}

} // verus!
