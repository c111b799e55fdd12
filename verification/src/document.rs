//! Scroll state of the document pane, and the pure windowing logic that
//! slices a line sequence from a scroll offset for display.

use vstd::prelude::*;

verus! {

/// Scroll state of the document pane: the index of the first visible line.
pub struct DocumentState {
    offset: usize,
}

impl DocumentState {
    /// The scroll offset as a mathematical integer.
    pub closed spec fn offset_spec(&self) -> int {
        self.offset as int
    }

    pub fn get_offset(&self) -> (r: usize)
        ensures
            r as int == self.offset_spec(),
    {
        self.offset
    }

    pub fn set_offset(&mut self, offset: usize)
        ensures
            final(self).offset_spec() == offset as int,
    {
        self.offset = offset;
    }
}

impl Default for DocumentState {
    /// A fresh scroll state starts at the top of the document.
    fn default() -> (r: Self)
        ensures
            r.offset_spec() == 0,
    {
        DocumentState { offset: 0 }
    }
}

/// The lines visible from `offset` on: the suffix of `lines` starting at
/// `offset`, or the empty sequence when `offset` lies past the end.
pub open spec fn window_spec(lines: Seq<Seq<char>>, offset: int) -> Seq<Seq<char>> {
    if 0 <= offset <= lines.len() {
        lines.subrange(offset, lines.len() as int)
    } else {
        Seq::empty()
    }
}

/// The lines of `lines` joined by a single newline separator.
pub open spec fn join_lines(lines: Seq<Seq<char>>) -> Seq<char>
    decreases lines.len(),
{
    if lines.len() == 0 {
        Seq::empty()
    } else if lines.len() == 1 {
        lines[0]
    } else {
        lines[0] + seq!['\n'] + join_lines(lines.drop_first())
    }
}

/// Joining a non-empty sequence of lines extended by one more line appends a
/// newline separator and that line.
proof fn lemma_join_push(lines: Seq<Seq<char>>, x: Seq<char>)
    requires
        lines.len() >= 1,
    ensures
        join_lines(lines.push(x)) == join_lines(lines) + seq!['\n'] + x,
    decreases lines.len(),
{
    if lines.len() == 1 {
        assert(lines.push(x).drop_first() =~= seq![x]);
        assert(join_lines(seq![x]) == x);
        assert(join_lines(lines.push(x)) =~= lines[0] + seq!['\n'] + x);
    } else {
        lemma_join_push(lines.drop_first(), x);
        assert(lines.push(x).drop_first() =~= lines.drop_first().push(x));
        assert(join_lines(lines.push(x)) =~= join_lines(lines) + seq!['\n'] + x);
    }
}

/// Slice the document to the part visible from `offset` on.
pub fn window(lines: &Vec<String>, offset: usize) -> (v: Vec<String>)
    ensures
        v.deep_view() == window_spec(lines.deep_view(), offset as int),
{
    let mut v: Vec<String> = Vec::new();
    if offset >= lines.len() {
        proof {
            assert(v.deep_view() =~= window_spec(lines.deep_view(), offset as int));
        }
        return v;
    }
    let mut j: usize = offset;
    while j < lines.len()
        invariant
            offset <= j <= lines@.len(),
            v.deep_view() =~= lines.deep_view().subrange(offset as int, j as int),
        decreases lines@.len() - j,
    {
        let ghost pre = v.deep_view();
        let line = lines[j].clone();
        v.push(line);
        proof {
            assert(v.deep_view() =~= pre.push(lines.deep_view()[j as int]));
            assert(v.deep_view() =~= lines.deep_view().subrange(offset as int, j + 1));
        }
        j += 1;
    }
    proof {
        assert(v.deep_view() =~= window_spec(lines.deep_view(), offset as int));
    }
    v
}

/// Render the visible part of the document as one string: the lines from
/// `offset` on, joined by newlines. An offset at or past the end of the
/// document yields the empty string.
pub fn window_text(lines: &Vec<String>, offset: usize) -> (r: String)
    ensures
        r@ == join_lines(window_spec(lines.deep_view(), offset as int)),
{
    let mut r = String::new();
    if offset >= lines.len() {
        proof {
            assert(window_spec(lines.deep_view(), offset as int) =~= Seq::<Seq<char>>::empty());
        }
        return r;
    }
    r.append(lines[offset].as_str());
    let ghost ld = lines.deep_view();
    proof {
        assert(ld.subrange(offset as int, offset + 1) =~= seq![ld[offset as int]]);
        assert(r@ == join_lines(ld.subrange(offset as int, offset + 1)));
    }
    let mut j: usize = offset + 1;
    while j < lines.len()
        invariant
            offset < j <= lines@.len(),
            ld == lines.deep_view(),
            r@ == join_lines(ld.subrange(offset as int, j as int)),
        decreases lines@.len() - j,
    {
        r.append("\n");
        r.append(lines[j].as_str());
        proof {
            reveal_strlit("\n");
            assert("\n"@ =~= seq!['\n']);
            lemma_join_push(ld.subrange(offset as int, j as int), ld[j as int]);
            assert(ld.subrange(offset as int, j + 1) =~= ld.subrange(offset as int, j as int).push(
                ld[j as int],
            ));
        }
        j += 1;
    }
    proof {
        assert(ld.subrange(offset as int, ld.len() as int) =~= window_spec(ld, offset as int));
    }
    r
}

} // verus!
