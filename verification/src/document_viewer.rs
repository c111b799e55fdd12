//! The document viewer: the previewed file's text split into lines, plus the
//! scroll state, with bounds-clamped scrolling.

use vstd::prelude::*;

use crate::document::DocumentState;

verus! {

/// Index of the first newline in `s`, or `s.len()` when `s` holds none.
pub open spec fn find_newline(s: Seq<char>) -> int
    decreases s.len(),
{
    if s.len() == 0 {
        0
    } else if s[0] == '\n' {
        0
    } else {
        1 + find_newline(s.subrange(1, s.len() as int))
    }
}

/// The lines of `s`, split on newline boundaries. Empty text yields one
/// empty line; a trailing newline yields a final empty line.
pub open spec fn split_lines(s: Seq<char>) -> Seq<Seq<char>>
    decreases s.len(),
{
    let i = find_newline(s);
    if 0 <= i < s.len() {
        seq![s.subrange(0, i)] + split_lines(s.subrange(i + 1, s.len() as int))
    } else {
        seq![s]
    }
}

/// `find_newline` returns exactly the position of the first newline: `m`,
/// whenever no earlier character is a newline and either `s[m]` is one or
/// `m` is the length of `s`.
proof fn lemma_find_newline_at(s: Seq<char>, m: int)
    requires
        0 <= m <= s.len(),
        forall|k: int| 0 <= k < m ==> s[k] != '\n',
        m < s.len() ==> s[m] == '\n',
    ensures
        find_newline(s) == m,
    decreases s.len(),
{
    if s.len() == 0 {
    } else if s[0] == '\n' {
        assert(m == 0);
    } else {
        let tail = s.subrange(1, s.len() as int);
        lemma_find_newline_at(tail, m - 1);
    }
}

/// Split `contents` into its lines.
pub fn split_into_lines(contents: &str) -> (lines: Vec<String>)
    ensures
        lines.deep_view() == split_lines(contents@),
{
    let len = contents.unicode_len();
    let mut lines: Vec<String> = Vec::new();
    let mut start: usize = 0;
    let mut i: usize = 0;
    proof {
        assert(contents@.subrange(0, len as int) =~= contents@);
        assert(split_lines(contents@) =~= lines.deep_view() + split_lines(
            contents@.subrange(start as int, len as int),
        ));
    }
    while i < len
        invariant
            contents@.len() == len,
            start <= i <= len,
            forall|k: int| start <= k < i ==> contents@[k] != '\n',
            split_lines(contents@) =~= lines.deep_view() + split_lines(
                contents@.subrange(start as int, len as int),
            ),
        decreases len - i,
    {
        let c = contents.get_char(i);
        if c == '\n' {
            let line = contents.substring_char(start, i);
            let ghost pre = lines.deep_view();
            lines.push(String::from_str(line));
            proof {
                let s = contents@;
                let sub = s.subrange(start as int, len as int);
                lemma_find_newline_at(sub, i - start);
                assert(sub.subrange(0, i - start) =~= s.subrange(start as int, i as int));
                assert(sub.subrange(i - start + 1, sub.len() as int) =~= s.subrange(
                    i + 1,
                    len as int,
                ));
                assert(split_lines(sub) =~= seq![s.subrange(start as int, i as int)] + split_lines(
                    s.subrange(i + 1, len as int),
                ));
                assert(lines.deep_view() =~= pre.push(s.subrange(start as int, i as int)));
                assert(split_lines(s) =~= lines.deep_view() + split_lines(
                    s.subrange(i + 1, len as int),
                ));
            }
            start = i + 1;
        }
        i += 1;
    }
    let last = contents.substring_char(start, len);
    let ghost pre = lines.deep_view();
    lines.push(String::from_str(last));
    proof {
        let s = contents@;
        let sub = s.subrange(start as int, len as int);
        lemma_find_newline_at(sub, sub.len() as int);
        assert(split_lines(sub) =~= seq![sub]);
        assert(lines.deep_view() =~= pre.push(sub));
        assert(lines.deep_view() =~= split_lines(s));
    }
    lines
}

/// One scroll step towards the end: the offset grows by one unless it has
/// already reached `len`, where it stays (one past the last line is allowed
/// and shows an empty pane).
pub open spec fn scroll_down_spec(off: int, len: int) -> int {
    if off < len {
        off + 1
    } else {
        off
    }
}

/// One scroll step towards the top: the offset shrinks by one, clamped at 0.
pub open spec fn scroll_up_spec(off: int) -> int {
    if off > 0 {
        off - 1
    } else {
        0
    }
}

/// Law: away from both boundaries, scrolling up then down — or down then up
/// — leaves the offset where it was.
pub proof fn lemma_scroll_round_trip(off: int, len: int)
    requires
        0 < off < len,
    ensures
        scroll_down_spec(scroll_up_spec(off), len) == off,
        scroll_up_spec(scroll_down_spec(off, len)) == off,
{
}

/// Law: scrolling in either direction keeps an in-range offset within
/// `[0, len]`: it never exceeds the line count and never goes negative.
pub proof fn lemma_scroll_bounds(off: int, len: int)
    requires
        0 <= off <= len,
    ensures
        0 <= scroll_down_spec(off, len) <= len,
        0 <= scroll_up_spec(off) <= len,
{
}

/// The document pane: the previewed text as lines, and the scroll state.
pub struct DocumentViewer {
    lines: Vec<String>,
    state: DocumentState,
}

impl DocumentViewer {
    /// The current line sequence, as sequences of characters.
    pub closed spec fn lines_view(&self) -> Seq<Seq<char>> {
        self.lines.deep_view()
    }

    /// The current scroll offset.
    pub closed spec fn offset_spec(&self) -> int {
        self.state.offset_spec()
    }

    /// A fresh viewer shows `contents` split into lines, scrolled to the top.
    pub fn new(contents: String) -> (r: DocumentViewer)
        ensures
            r.lines_view() == split_lines(contents@),
            r.offset_spec() == 0,
    {
        DocumentViewer { lines: split_into_lines(contents.as_str()), state: DocumentState::default() }
    }

    /// Scroll one line towards the end, never past one-past-the-last line.
    pub fn scroll_down(&mut self)
        ensures
            final(self).lines_view() == old(self).lines_view(),
            final(self).offset_spec() == scroll_down_spec(
                old(self).offset_spec(),
                old(self).lines_view().len() as int,
            ),
    {
        if self.state.get_offset() < self.lines.len() {
            let off = self.state.get_offset();
            self.state.set_offset(off + 1);
        }
    }

    /// Scroll one line towards the top, never below 0.
    pub fn scroll_up(&mut self)
        ensures
            final(self).lines_view() == old(self).lines_view(),
            final(self).offset_spec() == scroll_up_spec(old(self).offset_spec()),
    {
        if self.state.get_offset() > 0 {
            let off = self.state.get_offset();
            self.state.set_offset(off - 1);
        }
    }

    /// Replace the document with `contents` split into lines. The scroll
    /// offset is deliberately left alone: resetting it is the navigation
    /// handler's job, so that re-reading the same file causes no visual jump.
    pub fn set_contents(&mut self, contents: String)
        ensures
            final(self).lines_view() == split_lines(contents@),
            final(self).offset_spec() == old(self).offset_spec(),
    {
        self.lines = split_into_lines(contents.as_str());
    }

    /// Read-only access to the current line sequence.
    pub fn get_lines(&self) -> (r: &Vec<String>)
        ensures
            r.deep_view() == self.lines_view(),
    {
        &self.lines
    }

    /// Mutable access to the scroll state, for resetting the offset on
    /// navigation and for handing to the rendering collaborator.
    pub fn get_mut_state(&mut self) -> (r: &mut DocumentState)
        ensures
            r.offset_spec() == old(self).offset_spec(),
            final(self).offset_spec() == final(r).offset_spec(),
            final(self).lines_view() == old(self).lines_view(),
    {
        &mut self.state
    }
}

} // verus!
