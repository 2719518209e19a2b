//! The text that is shown: an ordered sequence of lines, and the name it goes
//! by.

use crate::text::push_char;
use vstd::prelude::*;
use vstd::std_specs::iter::IteratorSpec;
use vstd::string::StrSliceExecFns;

verus! {

/// `std::io::Error`: the failure of a read. The library never looks inside
/// one; it only hands it on.
#[verifier::external_type_specification]
#[verifier::external_body]
pub struct ExIoError(std::io::Error);

/// The lines of a buffer as sequences of characters.
pub open spec fn line_views(lines: Seq<String>) -> Seq<Seq<char>> {
    Seq::new(lines.len(), |i: int| lines[i]@)
}

/// The largest column a cursor can take in line `row`: one less than the
/// number of its characters, and 0 for an empty line or a row that does not
/// exist.
pub open spec fn line_length(lines: Seq<Seq<char>>, row: int) -> int {
    if 0 <= row < lines.len() && lines[row].len() > 0 {
        lines[row].len() - 1
    } else {
        0
    }
}

/// The index of the last line, and 0 where there is no line.
pub open spec fn last_line_index(lines: Seq<Seq<char>>) -> int {
    if lines.len() > 0 {
        lines.len() - 1
    } else {
        0
    }
}

/// The characters of `line` from column `col` on, at most `width` of them.
pub open spec fn truncated(line: Seq<char>, col: int, width: int) -> Seq<char> {
    if 0 <= col < line.len() && width >= 0 {
        line.subrange(col, if col + width < line.len() { col + width } else { line.len() as int })
    } else {
        Seq::empty()
    }
}

/// The index of the first line feed in `text`, or the length of `text` where
/// it holds none.
pub open spec fn first_line_feed(text: Seq<char>) -> int
    decreases text.len(),
{
    if text.len() == 0 || text[0] == '\n' {
        0
    } else {
        1 + first_line_feed(text.drop_first())
    }
}

/// A line as it stood before its line feed, without the carriage return that
/// belongs to the terminator.
pub open spec fn without_carriage_return(line: Seq<char>) -> Seq<char> {
    if line.len() > 0 && line.last() == '\r' {
        line.drop_last()
    } else {
        line
    }
}

/// The lines of `text`. A line ends at a line feed, or at a carriage return
/// directly followed by one; the terminator is not part of the line. The last
/// line needs no terminator, and a terminator at the very end starts no
/// further line.
pub open spec fn lines_of(text: Seq<char>) -> Seq<Seq<char>>
    decreases text.len(),
{
    let n = first_line_feed(text);
    if text.len() == 0 {
        Seq::empty()
    } else if 0 <= n < text.len() {
        seq![without_carriage_return(text.take(n))] + lines_of(text.skip(n + 1))
    } else {
        seq![text]
    }
}

/// `first_line_feed` finds the line feed at `k` when none stands before it.
pub proof fn lemma_first_line_feed_at(text: Seq<char>, k: int)
    requires
        0 <= k < text.len(),
        text[k] == '\n',
        forall|j: int| 0 <= j < k ==> text[j] != '\n',
    ensures
        first_line_feed(text) == k,
    decreases k,
{
    if k > 0 {
        lemma_first_line_feed_at(text.drop_first(), k - 1);
    }
}

/// `first_line_feed` is the length of a text without line feeds.
pub proof fn lemma_first_line_feed_none(text: Seq<char>)
    requires
        forall|j: int| 0 <= j < text.len() ==> text[j] != '\n',
    ensures
        first_line_feed(text) == text.len(),
    decreases text.len(),
{
    if text.len() > 0 {
        lemma_first_line_feed_none(text.drop_first());
    }
}

/// What `first_line_feed` finds: no line feed stands before it, and one
/// stands at it unless it is the length of the text.
pub proof fn lemma_first_line_feed(text: Seq<char>)
    ensures
        0 <= first_line_feed(text) <= text.len(),
        forall|j: int| 0 <= j < first_line_feed(text) ==> text[j] != '\n',
        first_line_feed(text) < text.len() ==> text[first_line_feed(text)] == '\n',
    decreases text.len(),
{
    if text.len() > 0 && text[0] != '\n' {
        let rest = text.drop_first();
        lemma_first_line_feed(rest);
        assert forall|j: int| 0 <= j < first_line_feed(text) implies text[j] != '\n' by {
            if j > 0 {
                assert(text[j] == rest[j - 1]);
            }
        }
        if first_line_feed(rest) < rest.len() {
            assert(text[first_line_feed(text)] == rest[first_line_feed(rest)]);
        }
    }
}

/// No line of a text holds a line feed.
pub proof fn lemma_lines_hold_no_line_feed(text: Seq<char>)
    ensures
        forall|i: int, j: int|
            0 <= i < lines_of(text).len() && 0 <= j < lines_of(text)[i].len() ==> lines_of(
                text,
            )[i][j] != '\n',
    decreases text.len(),
{
    let n = first_line_feed(text);
    lemma_first_line_feed(text);
    if text.len() > 0 && n < text.len() {
        let first = without_carriage_return(text.take(n));
        let rest = lines_of(text.skip(n + 1));
        lemma_lines_hold_no_line_feed(text.skip(n + 1));
        assert(lines_of(text) == seq![first] + rest);
        assert forall|i: int, j: int|
            0 <= i < lines_of(text).len() && 0 <= j < lines_of(text)[i].len() implies lines_of(
            text,
        )[i][j] != '\n' by {
            if i == 0 {
                assert(lines_of(text)[0] == first);
                assert(first[j] == text[j]);
            } else {
                assert(lines_of(text)[i] == rest[i - 1]);
            }
        }
    } else if text.len() > 0 {
        assert(lines_of(text) == seq![text]);
    }
}

/// Splits `text` into its lines.
pub fn split_lines(text: &str) -> (lines: Vec<String>)
    ensures
        line_views(lines@) == lines_of(text@),
{
    let mut lines: Vec<String> = Vec::new();
    let mut current = String::new();
    // A carriage return that was read and is not yet known to be data.
    let mut pending = false;
    let ghost mut start: int = 0;
    assert(text@.skip(0) == text@);
    assert(line_views(lines@) + lines_of(text@) == lines_of(text@));
    for c in it: text.chars()
        invariant
            it.seq() == text@,
            0 <= start <= it.index() <= text@.len(),
            forall|j: int| start <= j < it.index() ==> text@[j] != '\n',
            current@ + (if pending { seq!['\r'] } else { Seq::<char>::empty() })
                == text@.subrange(start, it.index() as int),
            !pending ==> current@.len() == 0 || current@.last() != '\r',
            lines_of(text@) == line_views(lines@) + lines_of(text@.skip(start)),
    {
        let ghost i = it.index() as int;
        let ghost rest = text@.skip(start);
        assert(text@.subrange(start, i + 1) == text@.subrange(start, i).push(c));
        if c == '\n' {
            proof {
                lemma_first_line_feed_at(rest, i - start);
                assert(rest.take(i - start) == text@.subrange(start, i));
                assert(rest.skip(i - start + 1) == text@.skip(i + 1));
                if pending {
                    assert((current@ + seq!['\r']).drop_last() == current@);
                }
                assert(without_carriage_return(text@.subrange(start, i)) == current@);
                assert(line_views(lines@.push(current)) == line_views(lines@).push(current@));
                assert(line_views(lines@) + (seq![current@] + lines_of(text@.skip(i + 1)))
                    == line_views(lines@).push(current@) + lines_of(text@.skip(i + 1)));
                start = i + 1;
            }
            lines.push(current);
            current = String::new();
            pending = false;
        } else if c == '\r' {
            if pending {
                push_char(&mut current, '\r');
            }
            pending = true;
            assert(current@ + seq!['\r'] == text@.subrange(start, i + 1));
        } else {
            if pending {
                push_char(&mut current, '\r');
            }
            push_char(&mut current, c);
            pending = false;
            assert(current@ + Seq::<char>::empty() == text@.subrange(start, i + 1));
        }
    }
    if pending {
        push_char(&mut current, '\r');
    }
    let ghost rest = text@.skip(start);
    assert(current@ == rest) by {
        assert(text@.subrange(start, text@.len() as int) == rest);
        assert(current@ + Seq::<char>::empty() == current@);
    }
    if current.as_str().unicode_len() > 0 {
        proof {
            lemma_first_line_feed_none(rest);
            assert(line_views(lines@.push(current)) == line_views(lines@).push(current@));
            assert(line_views(lines@) + seq![rest] == line_views(lines@).push(rest));
        }
        lines.push(current);
    } else {
        assert(line_views(lines@) + Seq::<Seq<char>>::empty() == line_views(lines@));
    }
    lines
}

/// The text of a document, line by line, with the name it is shown under.
#[derive(Debug)]
pub struct Buffer {
    pub lines: Vec<String>,
    pub path: String,
}

impl View for Buffer {
    type V = Seq<Seq<char>>;

    /// The lines, each as a sequence of characters.
    open spec fn view(&self) -> Seq<Seq<char>> {
        line_views(self.lines@)
    }
}

impl Default for Buffer {
    /// A buffer without lines, under a name that says so.
    fn default() -> (buffer: Self)
        ensures
            buffer@ == Seq::<Seq<char>>::empty(),
            buffer.path@ == "<empty file>"@,
    {
        Buffer { lines: Vec::new(), path: "<empty file>".to_owned() }
    }
}

impl Buffer {
    /// The buffer that holds the lines of `text`, under the name `path`.
    pub fn from_text(path: String, text: &str) -> (buffer: Self)
        ensures
            buffer@ == lines_of(text@),
            buffer.path == path,
    {
        Buffer { lines: split_lines(text), path }
    }

    /// The buffer for the file at `path`, from the outcome of reading that
    /// file: its lines where the read gave its text, and the read's own error
    /// where it failed.
    pub fn from_path(path: String, read: Result<String, std::io::Error>) -> (res: Result<
        Self,
        std::io::Error,
    >)
        ensures
            match read {
                Ok(text) => res is Ok && res->Ok_0@ == lines_of(text@) && res->Ok_0.path == path,
                Err(error) => res is Err && res->Err_0 == error,
            },
    {
        match read {
            Ok(text) => Ok(Buffer::from_text(path, text.as_str())),
            Err(error) => Err(error),
        }
    }

    /// The largest column that a cursor can take in the line at `index`.
    pub fn get_line_length(&self, index: usize) -> (length: usize)
        ensures
            length == line_length(self@, index as int),
    {
        if index < self.lines.len() {
            let count = self.lines[index].as_str().unicode_len();
            if count > 0 {
                count - 1
            } else {
                0
            }
        } else {
            0
        }
    }

    /// The part of line `row` that a window shows which is `width` columns
    /// wide and starts at column `col`; `None` where there is no such line.
    /// Columns count characters, so no character is ever cut.
    pub fn get_truncated_line(&self, row: usize, col: usize, width: usize) -> (res: Option<&str>)
        ensures
            match res {
                Some(text) => row < self@.len() && text@ == truncated(
                    self@[row as int],
                    col as int,
                    width as int,
                ),
                None => row >= self@.len(),
            },
    {
        if row >= self.lines.len() {
            return None;
        }
        let line = self.lines[row].as_str();
        let count = line.unicode_len();
        if col >= count {
            proof {
                reveal_strlit("");
            }
            assert(""@ == Seq::<char>::empty());
            Some("")
        } else {
            let end = if width < count - col {
                col + width
            } else {
                count
            };
            Some(line.substring_char(col, end))
        }
    }

    /// The index of the last line; 0 for a buffer without lines.
    pub fn get_last_line_index(&self) -> (index: usize)
        ensures
            index == last_line_index(self@),
    {
        if self.lines.len() > 0 {
            self.lines.len() - 1
        } else {
            0
        }
    }
}

/// A buffer holds no more lines than a `usize` can count.
pub proof fn lemma_line_count_fits(buffer: &Buffer)
    ensures
        buffer@.len() <= usize::MAX,
{
    assert(buffer@.len() == buffer.lines.len());
}

/// A truncated line is a window on the line: it starts at column `col`, holds
/// whole characters in their order, and is as long as the window is wide, or
/// shorter where the line ends before the window does.
pub proof fn lemma_truncated_is_window(line: Seq<char>, col: nat, width: nat)
    ensures
        truncated(line, col as int, width as int).len() == if col >= line.len() {
            0
        } else if col + width <= line.len() {
            width as int
        } else {
            line.len() - col
        },
        forall|i: int|
            0 <= i < truncated(line, col as int, width as int).len() ==> truncated(
                line,
                col as int,
                width as int,
            )[i] == line[col + i],
{
}

} // verus!
