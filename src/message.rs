//! A framed message: a title and a body wrapped at word boundaries.

use vstd::prelude::*;

use crate::container::{BorderType, Container};
use crate::label::{truncated, Label};
use crate::text::{chars_of, string_of};

verus! {

/// The narrowest a message is drawn.
pub const MIN_WIDTH: u16 = 40;

/// The widest a message is drawn, and the width its lines are wrapped at.
pub const MAX_WIDTH: u16 = 80;

/// ASCII whitespace: space, tab, line feed, form feed, carriage return.
pub open spec fn is_ascii_space(c: char) -> bool {
    c == ' ' || c == '\t' || c == '\n' || c == '\x0C' || c == '\r'
}

/// Unicode whitespace (the `White_Space` property).
pub open spec fn is_white_space(c: char) -> bool {
    let u = c as u32;
    (0x9 <= u <= 0xD) || u == 0x20 || u == 0x85 || u == 0xA0 || u == 0x1680 || (0x2000 <= u
        <= 0x200A) || u == 0x2028 || u == 0x2029 || u == 0x202F || u == 0x205F || u == 0x3000
}

fn ascii_space(c: char) -> (r: bool)
    ensures
        r == is_ascii_space(c),
{
    c == ' ' || c == '\t' || c == '\n' || c == '\x0C' || c == '\r'
}

fn white_space(c: char) -> (r: bool)
    ensures
        r == is_white_space(c),
{
    let u = c as u32;
    (0x9 <= u && u <= 0xD) || u == 0x20 || u == 0x85 || u == 0xA0 || u == 0x1680 || (0x2000 <= u
        && u <= 0x200A) || u == 0x2028 || u == 0x2029 || u == 0x202F || u == 0x205F || u == 0x3000
}

/// `s` without the whitespace at its end.
pub open spec fn trim_end(s: Seq<char>) -> Seq<char>
    decreases s.len(),
{
    if s.len() > 0 && is_white_space(s.last()) {
        trim_end(s.drop_last())
    } else {
        s
    }
}

/// `s` without the whitespace at its start.
pub open spec fn trim_start(s: Seq<char>) -> Seq<char>
    decreases s.len(),
{
    if s.len() > 0 && is_white_space(s[0]) {
        trim_start(s.drop_first())
    } else {
        s
    }
}

/// The last position `p` with `0 <= p < k` that holds ASCII whitespace, if any.
pub open spec fn last_space(line: Seq<char>, k: int) -> Option<int>
    decreases k,
{
    if k <= 0 {
        None
    } else if is_ascii_space(line[k - 1]) {
        Some(k - 1)
    } else {
        last_space(line, k - 1)
    }
}

/// One step of wrapping: a line longer than the width is cut at the last
/// whitespace among its first `MAX_WIDTH + 1` characters; the head loses its
/// trailing whitespace, the rest its leading whitespace. A short line, or one
/// with no such whitespace, stays whole.
pub open spec fn split(line: Seq<char>) -> (Seq<char>, Option<Seq<char>>) {
    if line.len() > MAX_WIDTH {
        match last_space(line, MAX_WIDTH + 1) {
            Some(p) => (trim_end(line.take(p)), Some(trim_start(line.skip(p)))),
            None => (line, None),
        }
    } else {
        (line, None)
    }
}

/// The display lines that `line` wraps to.
pub open spec fn wrap(line: Seq<char>) -> Seq<Seq<char>>
    decreases line.len(),
{
    match split(line).1 {
        Some(rest) => if rest.len() < line.len() {
            seq![split(line).0] + wrap(rest)
        } else {
            seq![split(line).0]
        },
        None => seq![split(line).0],
    }
}

/// `l` without one carriage return at its end.
pub open spec fn strip_cr(l: Seq<char>) -> Seq<char> {
    if l.len() > 0 && l.last() == '\r' {
        l.drop_last()
    } else {
        l
    }
}

/// The lines ended by a line feed so far, and the line still open.
pub open spec fn scan_lines(s: Seq<char>) -> (Seq<Seq<char>>, Seq<char>)
    decreases s.len(),
{
    if s.len() == 0 {
        (Seq::empty(), Seq::empty())
    } else {
        let (done, cur) = scan_lines(s.drop_last());
        if s.last() == '\n' {
            (done.push(strip_cr(cur)), Seq::empty())
        } else {
            (done, cur.push(s.last()))
        }
    }
}

/// The lines of `s`: split at line feeds, a carriage return before a line feed
/// dropped, and no empty line after a final line feed.
pub open spec fn text_lines(s: Seq<char>) -> Seq<Seq<char>> {
    let (done, cur) = scan_lines(s);
    if cur.len() == 0 {
        done
    } else {
        done.push(cur)
    }
}

/// The display lines of all `lines`, each wrapped, in order.
pub open spec fn wrap_all(lines: Seq<Seq<char>>) -> Seq<Seq<char>>
    decreases lines.len(),
{
    if lines.len() == 0 {
        Seq::empty()
    } else {
        wrap_all(lines.drop_last()) + wrap(lines.last())
    }
}

/// The display lines of a message body.
pub open spec fn message_rows(message: Seq<char>) -> Seq<Seq<char>> {
    wrap_all(text_lines(message))
}

/// The longest of `rows`, in characters (0 for none).
pub open spec fn longest(rows: Seq<Seq<char>>) -> nat
    decreases rows.len(),
{
    if rows.len() == 0 {
        0
    } else {
        let l = longest(rows.drop_last());
        if rows.last().len() > l {
            rows.last().len()
        } else {
            l
        }
    }
}

/// The drawn width of a message: the longer of title and lines, held within
/// `[MIN_WIDTH, MAX_WIDTH]`.
pub open spec fn panel_width(title_len: nat, rows: Seq<Seq<char>>) -> nat {
    let w = if title_len > longest(rows) {
        title_len
    } else {
        longest(rows)
    };
    if w < MIN_WIDTH {
        MIN_WIDTH as nat
    } else if w > MAX_WIDTH {
        MAX_WIDTH as nat
    } else {
        w
    }
}

/// The views of a vector of character vectors.
pub open spec fn rows_view(v: Seq<Vec<char>>) -> Seq<Seq<char>> {
    v.map_values(|r: Vec<char>| r@)
}

/// The characters `line[from..to]`.
fn slice_chars(line: &Vec<char>, from: usize, to: usize) -> (r: Vec<char>)
    requires
        from <= to <= line.len(),
    ensures
        r@ == line@.subrange(from as int, to as int),
{
    let mut r: Vec<char> = Vec::new();
    let mut i = from;
    while i < to
        invariant
            from <= i <= to <= line.len(),
            r@ == line@.subrange(from as int, i as int),
        decreases to - i,
    {
        r.push(line[i]);
        assert(line@.subrange(from as int, i + 1) == line@.subrange(from as int, i as int).push(
            line@[i as int],
        ));
        i = i + 1;
    }
    r
}

/// Cuts `line` once, as `split` says.
pub fn split_line(line: &Vec<char>) -> (r: (Vec<char>, Option<Vec<char>>))
    ensures
        r.0@ == split(line@).0,
        match (r.1, split(line@).1) {
            (Some(a), Some(b)) => a@ == b,
            (None, None) => true,
            _ => false,
        },
{
    let width = MAX_WIDTH as usize;
    if line.len() > width {
        let mut last_word: Option<usize> = None;
        let mut i: usize = 0;
        while i <= width
            invariant
                i <= width + 1,
                width == MAX_WIDTH,
                line.len() > width,
                last_space(line@, i as int) == (match last_word {
                    Some(w) => Some(w as int),
                    None => None::<int>,
                }),
                last_word matches Some(w) ==> w < i,
            decreases width + 1 - i,
        {
            if ascii_space(line[i]) {
                last_word = Some(i);
            }
            i = i + 1;
        }
        if let Some(p) = last_word {
            let mut end = p;
            while end > 0 && white_space(line[end - 1])
                invariant
                    end <= p <= line.len(),
                    trim_end(line@.take(p as int)) == trim_end(line@.take(end as int)),
                decreases end,
            {
                assert(line@.take(end as int).drop_last() == line@.take(end - 1));
                end = end - 1;
            }
            assert(trim_end(line@.take(end as int)) == line@.take(end as int));
            let mut start = p;
            while start < line.len() && white_space(line[start])
                invariant
                    p <= start <= line.len(),
                    trim_start(line@.skip(p as int)) == trim_start(line@.skip(start as int)),
                decreases line.len() - start,
            {
                assert(line@.skip(start as int).drop_first() == line@.skip(start + 1));
                start = start + 1;
            }
            assert(trim_start(line@.skip(start as int)) == line@.skip(start as int));
            let head = slice_chars(line, 0, end);
            let rest = slice_chars(line, start, line.len());
            assert(line@.take(end as int) == line@.subrange(0, end as int));
            assert(line@.skip(start as int) == line@.subrange(start as int, line.len() as int));
            return (head, Some(rest));
        }
    }
    assert(line@.subrange(0, line@.len() as int) == line@);
    (slice_chars(line, 0, line.len()), None)
}

/// What is left after a cut is shorter than the line, and the head fits the width.
proof fn lemma_split_shrinks(line: Seq<char>)
    ensures
        split(line).1 matches Some(rest) ==> rest.len() < line.len() && line.len() >= 2,
        split(line).1 matches Some(rest) ==> split(line).0.len() <= MAX_WIDTH,
{
    if line.len() > MAX_WIDTH {
        lemma_last_space_range(line, MAX_WIDTH + 1);
        lemma_last_space_found(line, MAX_WIDTH + 1);
        if let Some(p) = last_space(line, MAX_WIDTH + 1) {
            lemma_trim_end_shorter(line.take(p));
            if p == 0 {
                assert(line.skip(0) == line);
                assert(is_white_space(line[0]));
                lemma_trim_start_shorter(line.drop_first());
            } else {
                lemma_trim_start_shorter(line.skip(p));
            }
        }
    }
}

proof fn lemma_last_space_range(line: Seq<char>, k: int)
    ensures
        last_space(line, k) matches Some(p) ==> 0 <= p < k,
    decreases k,
{
    if k > 0 {
        lemma_last_space_range(line, k - 1);
    }
}

proof fn lemma_trim_start_shorter(s: Seq<char>)
    ensures
        trim_start(s).len() <= s.len(),
    decreases s.len(),
{
    if s.len() > 0 && is_white_space(s[0]) {
        lemma_trim_start_shorter(s.drop_first());
    }
}

proof fn lemma_trim_end_shorter(s: Seq<char>)
    ensures
        trim_end(s).len() <= s.len(),
    decreases s.len(),
{
    if s.len() > 0 && is_white_space(s.last()) {
        lemma_trim_end_shorter(s.drop_last());
    }
}

/// The display lines of `line`.
pub fn wrap_line(line: &Vec<char>) -> (r: Vec<Vec<char>>)
    ensures
        rows_view(r@) == wrap(line@),
{
    let mut out: Vec<Vec<char>> = Vec::new();
    let mut cur = slice_chars(line, 0, line.len());
    let mut done = false;
    assert(line@.subrange(0, line@.len() as int) == line@);
    while !done
        invariant
            !done ==> rows_view(out@) + wrap(cur@) == wrap(line@),
            done ==> rows_view(out@) == wrap(line@),
        decreases (if done {
            0
        } else {
            cur@.len() + 1
        }),
    {
        let (head, rest) = split_line(&cur);
        proof {
            lemma_split_shrinks(cur@);
        }
        let ghost before = rows_view(out@);
        out.push(head);
        assert(rows_view(out@) == before.push(head@));
        match rest {
            Some(r) => {
                assert(wrap(cur@) == seq![head@] + wrap(r@));
                assert(before + wrap(cur@) == before.push(head@) + wrap(r@));
                cur = r;
            },
            None => {
                assert(wrap(cur@) == seq![head@]);
                assert(before + wrap(cur@) == before.push(head@));
                done = true;
            },
        }
    }
    out
}

proof fn lemma_wrap_count(line: Seq<char>)
    ensures
        1 <= wrap(line).len() <= line.len() + 1,
    decreases line.len(),
{
    lemma_split_shrinks(line);
    if let Some(rest) = split(line).1 {
        lemma_wrap_count(rest);
    }
}

proof fn lemma_wrap_all_push(lines: Seq<Seq<char>>, l: Seq<char>)
    ensures
        wrap_all(lines.push(l)) == wrap_all(lines) + wrap(l),
{
    assert(lines.push(l).drop_last() == lines);
}

proof fn lemma_longest_push(rows: Seq<Seq<char>>, r: Seq<char>)
    ensures
        longest(rows.push(r)) == (if r.len() > longest(rows) {
            r.len()
        } else {
            longest(rows)
        }),
{
    assert(rows.push(r).drop_last() == rows);
}

/// The characters of `message` split into lines and wrapped, in order; at most
/// one more line than `message` has characters.
fn message_lines(message: &Vec<char>) -> (r: Vec<Vec<char>>)
    ensures
        rows_view(r@) == message_rows(message@),
        r.len() <= message.len() + 1,
{
    let mut out: Vec<Vec<char>> = Vec::new();
    let mut cur: Vec<char> = Vec::new();
    let mut i: usize = 0;
    while i < message.len()
        invariant
            i <= message.len(),
            rows_view(out@) == wrap_all(scan_lines(message@.take(i as int)).0),
            cur@ == scan_lines(message@.take(i as int)).1,
            out.len() + cur.len() <= i,
        decreases message.len() - i,
    {
        let c = message[i];
        assert(message@.take(i + 1).drop_last() == message@.take(i as int));
        if c == '\n' {
            if cur.len() > 0 && cur[cur.len() - 1] == '\r' {
                cur.pop();
            }
            let pieces = wrap_line(&cur);
            proof {
                lemma_wrap_count(cur@);
                lemma_wrap_all_push(scan_lines(message@.take(i as int)).0, cur@);
            }
            let ghost before = out@;
            let mut pieces = pieces;
            out.append(&mut pieces);
            assert(rows_view(out@) == rows_view(before) + wrap(cur@));
            cur = Vec::new();
        } else {
            cur.push(c);
        }
        i = i + 1;
    }
    assert(message@.take(message.len() as int) == message@);
    if cur.len() > 0 {
        let pieces = wrap_line(&cur);
        proof {
            lemma_wrap_count(cur@);
            lemma_wrap_all_push(scan_lines(message@).0, cur@);
        }
        let ghost before = out@;
        let mut pieces = pieces;
        out.append(&mut pieces);
        assert(rows_view(out@) == rows_view(before) + wrap(cur@));
    }
    out
}

pub struct Message {
    position: (u16, u16),
    size: (u16, u16),
    label: Label,
    lines: Vec<Label>,
    container: Container,
}

impl Message {
    /// Where the message stands within its parent.
    pub closed spec fn at(&self) -> (u16, u16) {
        self.position
    }

    /// Width and height of the message's frame.
    pub closed spec fn extent(&self) -> (u16, u16) {
        self.size
    }

    /// The title.
    pub closed spec fn heading(&self) -> Label {
        self.label
    }

    /// The body's display lines.
    pub closed spec fn rows(&self) -> Seq<Label> {
        self.lines@
    }

    /// The frame.
    pub closed spec fn frame(&self) -> Container {
        self.container
    }

    /// A message titled `title` (cut to `MAX_WIDTH` characters) whose body is
    /// `message` wrapped into display lines.
    pub fn new(title: &str, message: &str, position: (u16, u16)) -> (r: Self)
        requires
            message@.len() <= 65000,
        ensures
            r.at() == position,
            r.heading().shown() == truncated(title@, Some(MAX_WIDTH as usize)),
            r.heading().at() == (2u16, 1u16),
            r.rows().len() == message_rows(message@).len(),
            forall|k: int|
                0 <= k < r.rows().len() ==> (#[trigger] r.rows()[k]).shown() == message_rows(
                    message@,
                )[k] && r.rows()[k].at() == (2u16, (k + 2) as u16),
            r.extent() == ((panel_width(title@.len(), message_rows(message@)) + 4) as u16, (
            message_rows(message@).len() + 3) as u16),
            r.frame().at() == (0u16, 0u16),
            r.frame().extent() == r.extent(),
    {
        let title_chars = chars_of(title);
        let body = chars_of(message);
        let rows = message_lines(&body);
        let label = Label::new_truncated(title, (2, 1), MAX_WIDTH as usize);
        let mut lines: Vec<Label> = Vec::new();
        let mut longest_row: usize = 0;
        let mut k: usize = 0;
        while k < rows.len()
            invariant
                k <= rows.len(),
                rows.len() <= 65001,
                rows_view(rows@) == message_rows(message@),
                lines.len() == k,
                forall|j: int|
                    0 <= j < k ==> (#[trigger] lines@[j]).shown() == rows_view(rows@)[j]
                        && lines@[j].at() == (2u16, (j + 2) as u16),
                longest_row == longest(rows_view(rows@).take(k as int)),
            decreases rows.len() - k,
        {
            let text = string_of(&rows[k]);
            lines.push(Label::new(text.as_str(), (2, k as u16 + 2)));
            proof {
                assert(rows_view(rows@).take(k + 1) == rows_view(rows@).take(k as int).push(
                    rows_view(rows@)[k as int],
                ));
                lemma_longest_push(rows_view(rows@).take(k as int), rows_view(rows@)[k as int]);
            }
            if rows[k].len() > longest_row {
                longest_row = rows[k].len();
            }
            k = k + 1;
        }
        assert(rows_view(rows@).take(rows.len() as int) == rows_view(rows@));
        let widest = if title_chars.len() > longest_row {
            title_chars.len()
        } else {
            longest_row
        };
        let width: u16 = if widest < MIN_WIDTH as usize {
            MIN_WIDTH
        } else if widest > MAX_WIDTH as usize {
            MAX_WIDTH
        } else {
            widest as u16
        };
        let height = rows.len() as u16 + 1;
        let size = (width + 4, height + 2);
        let container = Container::new(BorderType::Unicode, (0, 0), size);
        Message { position, size, label, lines, container }
    }

    /// The height of the message's frame.
    pub fn height(&self) -> (r: u16)
        ensures
            r == self.extent().1,
    {
        self.size.1
    }

    /// Where the message stands within its parent.
    pub fn position(&self) -> (r: (u16, u16))
        ensures
            r == self.at(),
    {
        self.position
    }

    /// The title.
    pub fn title(&self) -> (r: &Label)
        ensures
            *r == self.heading(),
    {
        &self.label
    }

    /// The body's display lines.
    pub fn lines(&self) -> (r: &Vec<Label>)
        ensures
            r@ == self.rows(),
    {
        &self.lines
    }

    /// The frame.
    pub fn container(&self) -> (r: &Container)
        ensures
            *r == self.frame(),
    {
        &self.container
    }
}

/// `rows` joined back into one line, with one space between each two.
pub open spec fn joined(rows: Seq<Seq<char>>) -> Seq<char>
    decreases rows.len(),
{
    if rows.len() == 0 {
        Seq::empty()
    } else if rows.len() == 1 {
        rows[0]
    } else {
        rows[0] + seq![' '] + joined(rows.drop_first())
    }
}

/// The only whitespace in `s` is the plain space, and no two spaces are adjacent.
pub open spec fn single_spaced(s: Seq<char>) -> bool {
    &&& forall|i: int| 0 <= i < s.len() && is_white_space(#[trigger] s[i]) ==> s[i] == ' '
    &&& forall|i: int| 0 < i < s.len() && #[trigger] s[i] == ' ' ==> s[i - 1] != ' '
}

/// Wrapping loses nothing: a line whose words are separated by single spaces
/// is given back exactly by joining its display lines with one space each.
pub proof fn lemma_wrap_rejoins(line: Seq<char>)
    requires
        single_spaced(line),
    ensures
        joined(wrap(line)) == line,
    decreases line.len(),
{
    lemma_split_shrinks(line);
    if let Some(rest) = split(line).1 {
        lemma_last_space_range(line, MAX_WIDTH + 1);
        lemma_last_space_found(line, MAX_WIDTH + 1);
        let p = last_space(line, MAX_WIDTH + 1)->0;
        assert(line[p] == ' ');
        if p > 0 {
            assert(line[p - 1] != ' ');
            assert(!is_white_space(line[p - 1]));
            assert(line.take(p).last() == line[p - 1]);
        }
        assert(trim_end(line.take(p)) == line.take(p));
        assert(line.skip(p).drop_first() == line.skip(p + 1));
        if p + 1 < line.len() {
            assert(line.skip(p + 1)[0] == line[p + 1]);
            assert(!is_white_space(line[p + 1]));
        }
        assert(trim_start(line.skip(p + 1)) == line.skip(p + 1));
        assert(rest == line.skip(p + 1));
        assert(single_spaced(rest)) by {
            assert forall|i: int| 0 <= i < rest.len() && is_white_space(#[trigger] rest[i]) implies rest[i] == ' ' by {
                assert(rest[i] == line[p + 1 + i]);
            }
            assert forall|i: int| 0 < i < rest.len() && #[trigger] rest[i] == ' ' implies rest[i - 1] != ' ' by {
                assert(rest[i] == line[p + 1 + i]);
                assert(rest[i - 1] == line[p + i]);
            }
        }
        lemma_wrap_rejoins(rest);
        lemma_wrap_count(rest);
        let rows = wrap(line);
        assert(rows == seq![line.take(p)] + wrap(rest));
        assert(rows.drop_first() == wrap(rest));
        assert(joined(rows) == line.take(p) + seq![' '] + rest);
        assert(line == line.take(p) + seq![' '] + line.skip(p + 1));
    }
}

proof fn lemma_last_space_found(line: Seq<char>, k: int)
    requires
        k <= line.len(),
    ensures
        last_space(line, k) matches Some(p) ==> is_ascii_space(line[p]),
    decreases k,
{
    if k > 0 {
        lemma_last_space_found(line, k - 1);
    }
}

/// Every display line fits `MAX_WIDTH`, but for a last one that has no
/// whitespace to cut at.
pub proof fn lemma_wrap_rows_fit(line: Seq<char>)
    ensures
        forall|i: int|
            0 <= i < wrap(line).len() ==> (#[trigger] wrap(line)[i]).len() <= MAX_WIDTH || (i
                == wrap(line).len() - 1 && last_space(wrap(line)[i], MAX_WIDTH + 1) is None),
    decreases line.len(),
{
    lemma_split_shrinks(line);
    if let Some(rest) = split(line).1 {
        lemma_wrap_rows_fit(rest);
        let rows = wrap(line);
        assert(rows == seq![split(line).0] + wrap(rest));
        assert forall|i: int|
            0 <= i < rows.len() implies (#[trigger] rows[i]).len() <= MAX_WIDTH || (i == rows.len() - 1
                && last_space(rows[i], MAX_WIDTH + 1) is None) by {
            if i > 0 {
                assert(rows[i] == wrap(rest)[i - 1]);
                assert(wrap(rest)[i - 1].len() <= MAX_WIDTH || (i - 1 == wrap(rest).len() - 1
                    && last_space(wrap(rest)[i - 1], MAX_WIDTH + 1) is None));
            } else {
                assert(rows[0] == split(line).0);
            }
        }
    } else {
        assert(wrap(line) == seq![line]);
        if line.len() > MAX_WIDTH && last_space(line, MAX_WIDTH + 1) is Some {
            assert(split(line).1 is Some);
        }
        lemma_last_space_range(line, MAX_WIDTH + 1);
        assert(wrap(line)[0] == line);
    }
}

} // verus!
