//! The text buffer seen by the editor core: an ordered sequence of
//! rows, each a sequence of characters, plus an optional display name.

use vstd::prelude::*;

verus! {

/// One logical line of the buffer.
pub struct Row {
    content: Vec<char>,
}

impl View for Row {
    type V = Seq<char>;

    closed spec fn view(&self) -> Seq<char> {
        self.content@
    }
}

/// The visible slice of `s` for the half-open range `start..end`:
/// both bounds are clamped to the available characters, so the
/// operation is total and yields an empty result past the end.
pub open spec fn render_seq(s: Seq<char>, start: int, end: int) -> Seq<char> {
    let hi = if end <= s.len() {
        end
    } else {
        s.len() as int
    };
    let lo = if start <= hi {
        start
    } else {
        hi
    };
    if lo < 0 {
        s.subrange(0, hi)
    } else {
        s.subrange(lo, hi)
    }
}

impl Row {
    /// A row holding exactly `content`.
    pub fn new(content: Vec<char>) -> (r: Row)
        ensures
            r@ == content@,
    {
        Row { content }
    }

    /// The number of characters in the row.
    pub fn len(&self) -> (n: usize)
        ensures
            n == self@.len(),
    {
        self.content.len()
    }

    /// The visible slice of the row for columns `start..end`. Total
    /// for every pair of bounds; an offset at or past the end of the
    /// row yields an empty result, never an error.
    pub fn render(&self, start: usize, end: usize) -> (v: Vec<char>)
        ensures
            v@ == render_seq(self@, start as int, end as int),
            start >= self@.len() ==> v@.len() == 0,
    {
        let hi: usize = if end <= self.content.len() {
            end
        } else {
            self.content.len()
        };
        let lo: usize = if start <= hi {
            start
        } else {
            hi
        };
        let mut v: Vec<char> = Vec::new();
        let mut i: usize = lo;
        while i < hi
            invariant
                lo <= i <= hi <= self.content@.len(),
                v@ =~= self.content@.subrange(lo as int, i as int),
            decreases hi - i,
        {
            v.push(self.content[i]);
            proof {
                assert(v@ =~= self.content@.subrange(lo as int, i + 1));
            }
            i = i + 1;
        }
        v
    }
}

/// The buffer: rows in order, and the display name of the file they
/// came from, when there is one.
pub struct Document {
    pub rows: Vec<Row>,
    pub file_name: Option<Vec<char>>,
}

impl View for Document {
    type V = Seq<Seq<char>>;

    open spec fn view(&self) -> Seq<Seq<char>> {
        self.rows@.map_values(|r: Row| r@)
    }
}

impl Document {
    /// A document holding exactly `rows`, named `file_name`.
    pub fn new(rows: Vec<Row>, file_name: Option<Vec<char>>) -> (d: Document)
        ensures
            d@ == rows@.map_values(|r: Row| r@),
            d.file_name == file_name,
    {
        Document { rows, file_name }
    }

    /// The untitled empty document.
    pub fn empty() -> (d: Document)
        ensures
            d@.len() == 0,
            d.file_name is None,
    {
        Document { rows: Vec::new(), file_name: None }
    }

    /// The row at `index`, when the document has one there.
    pub fn row(&self, index: usize) -> (r: Option<&Row>)
        ensures
            index < self@.len() ==> (r matches Some(row) && row@ == self@[index as int]),
            index >= self@.len() ==> r is None,
    {
        if index < self.rows.len() {
            Some(&self.rows[index])
        } else {
            None
        }
    }

    /// The number of rows.
    pub fn len(&self) -> (n: usize)
        ensures
            n == self@.len(),
    {
        self.rows.len()
    }

    /// Whether the document has no rows at all.
    pub fn is_empty(&self) -> (b: bool)
        ensures
            b == (self@.len() == 0),
    {
        self.rows.is_empty()
    }
}

/// The length of the row at `y`, taking any position outside the
/// document to hold an empty virtual row.
pub open spec fn line_len(doc: Seq<Seq<char>>, y: int) -> int {
    if 0 <= y < doc.len() {
        doc[y].len() as int
    } else {
        0
    }
}

} // verus!
