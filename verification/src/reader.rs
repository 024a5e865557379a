//! The incremental reader's offset logic, and the law that the line stream
//! it produces reconstructs the file across any split of the watch events.
//! The file I/O itself happens outside the library: the caller validates a
//! modification, reads the tail, and hands the text in.

use vstd::prelude::*;

use crate::text::complete_lines;
use crate::text::lemma_complete_lines_concat;
use crate::text::split_complete_lines;

verus! {

/// A modification whose length lies behind the consumed offset: truncation
/// without a preceding creation, which breaks the stream's integrity.
#[derive(Debug, Clone, Copy, PartialEq, Eq)]
pub struct OffsetRegression {
    pub length: u64,
    pub offset: u64,
}

/// The reader: one byte offset into the current file incarnation.
pub struct LogReader {
    pub offset: u64,
}

impl LogReader {
    /// A reader at the start of the file.
    pub fn new() -> (r: Self)
        ensures
            r.offset == 0,
    {
        LogReader { offset: 0 }
    }

    /// The file was recreated: consume it from the start again.
    pub fn on_created(&mut self)
        ensures
            final(self).offset == 0,
    {
        self.offset = 0;
    }

    /// A modification of `length` arrived: where to resume reading, or the
    /// integrity error when the file shrank. A modification before any
    /// creation is welcome: the offset starts at zero, so the whole prefix
    /// is read.
    pub fn start_read(&self, length: u64) -> (r: Result<u64, OffsetRegression>)
        ensures
            match r {
                Ok(o) => length >= self.offset && o == self.offset,
                Err(e) => length < self.offset && e.length == length && e.offset == self.offset,
            },
    {
        if length < self.offset {
            Err(OffsetRegression { length, offset: self.offset })
        } else {
            Ok(self.offset)
        }
    }

    /// Consume the text read from the resume point: every terminated line
    /// goes downstream, a trailing partial line waits for the next cycle,
    /// and the offset advances to the modification's length.
    pub fn ingest(&mut self, length: u64, data: &str) -> (r: Vec<String>)
        requires
            length >= old(self).offset,
        ensures
            r.deep_view() == complete_lines(data@),
            final(self).offset == length,
    {
        let lines = split_complete_lines(data);
        self.offset = length;
        lines
    }
}

// ---------------------------------------------------------------------------
// Stream-reconstruction laws
// ---------------------------------------------------------------------------

/// The terminated lines of the window `[a, b)` of the file.
pub open spec fn window_lines(file: Seq<char>, a: int, b: int) -> Seq<Seq<char>> {
    complete_lines(file.subrange(a, b))
}

/// `b` sits on a line boundary of the file: at the start, or just past a
/// line feed.
pub open spec fn aligned(file: Seq<char>, b: int) -> bool {
    b == 0 || (0 < b <= file.len() && file[b - 1] == '\n')
}

/// Law: one modification may split into two. Reading `[a, b)` and then
/// `[b, c)` yields the same lines as reading `[a, c)` at once, whenever
/// the split point sits on a line boundary.
pub proof fn lemma_split_modified(file: Seq<char>, a: int, b: int, c: int)
    requires
        0 <= a <= b <= c <= file.len(),
        aligned(file, b) || a == b,
    ensures
        window_lines(file, a, b) + window_lines(file, b, c) == window_lines(file, a, c),
{
    let x = file.subrange(a, b);
    let y = file.subrange(b, c);
    if x.len() > 0 {
        assert(x.last() == file[b - 1]);
    }
    lemma_complete_lines_concat(x, y);
    assert(x + y =~= file.subrange(a, c));
}

/// The lines the reader emits across a run of modifications with
/// boundaries `bs[i], bs[i+1], ...`.
pub open spec fn windows_concat(file: Seq<char>, bs: Seq<int>, i: int) -> Seq<Seq<char>>
    decreases bs.len() - i,
{
    if i < 0 || i + 1 >= bs.len() {
        Seq::empty()
    } else {
        window_lines(file, bs[i], bs[i + 1]) + windows_concat(file, bs, i + 1)
    }
}

/// Law: over any run of modifications whose lengths are non-decreasing and
/// whose interior split points land on line boundaries, the emitted line
/// stream equals the lines of the file contents across the whole window,
/// split at line feeds, minus any trailing partial line. The final length
/// may stop mid-line: that partial line is simply not yet emitted.
pub proof fn lemma_stream_reconstruction(file: Seq<char>, bs: Seq<int>)
    requires
        bs.len() >= 1,
        forall|i: int| 0 <= i < bs.len() ==> 0 <= #[trigger] bs[i] <= file.len(),
        forall|i: int| 0 <= i < bs.len() - 1 ==> #[trigger] bs[i] <= bs[i + 1],
        forall|i: int| 0 < i < bs.len() - 1 ==> aligned(file, #[trigger] bs[i]),
    ensures
        windows_concat(file, bs, 0) == window_lines(file, bs[0], bs[bs.len() - 1]),
{
    lemma_stream_reconstruction_from(file, bs, 0);
}

proof fn lemma_stream_reconstruction_from(file: Seq<char>, bs: Seq<int>, i: int)
    requires
        0 <= i < bs.len(),
        forall|k: int| 0 <= k < bs.len() ==> 0 <= #[trigger] bs[k] <= file.len(),
        forall|k: int| 0 <= k < bs.len() - 1 ==> #[trigger] bs[k] <= bs[k + 1],
        forall|k: int| 0 < k < bs.len() - 1 ==> aligned(file, #[trigger] bs[k]),
    ensures
        windows_concat(file, bs, i) == window_lines(file, bs[i], bs[bs.len() - 1]),
    decreases bs.len() - i,
{
    let last = bs[bs.len() - 1];
    if i + 1 >= bs.len() {
        assert(bs[i] == last);
        assert(file.subrange(last, last) =~= Seq::<char>::empty());
        assert(windows_concat(file, bs, i) =~= window_lines(file, last, last));
    } else if i + 1 == bs.len() - 1 {
        // the window before the last boundary: nothing follows it
        lemma_stream_reconstruction_from(file, bs, i + 1);
        assert(windows_concat(file, bs, i) =~= window_lines(file, bs[i], last));
    } else {
        lemma_stream_reconstruction_from(file, bs, i + 1);
        lemma_bounds_monotone(bs, i + 1, bs.len() - 1);
        lemma_split_modified(file, bs[i], bs[i + 1], last);
    }
}

/// Non-decreasing adjacent boundaries are non-decreasing across the run.
proof fn lemma_bounds_monotone(bs: Seq<int>, i: int, j: int)
    requires
        0 <= i <= j < bs.len(),
        forall|k: int| 0 <= k < bs.len() - 1 ==> #[trigger] bs[k] <= bs[k + 1],
    ensures
        bs[i] <= bs[j],
    decreases j - i,
{
    if i < j {
        lemma_bounds_monotone(bs, i + 1, j);
    }
}

} // verus!
