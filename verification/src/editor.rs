//! The line-collecting state machine.
//!
//! The editor repeatedly takes one line of user input at a time.  Each
//! line is first normalized (trailing carriage-return and line-feed
//! characters are stripped), then appended to an internal buffer: an
//! empty line is kept as a literal newline character, a line whose last
//! character is the break character ends the collection and is kept
//! without that character, and any other line is kept as it is.  The
//! buffered lines, joined with single newline separators, form the
//! content that is eventually written to the target file.

use vstd::prelude::*;
use vstd::string::StrSliceExecFns;
use vstd::string::StringExecFns;

verus! {

/// Whether a character counts as a line terminator of the raw input:
/// a line feed or a carriage return.
pub open spec fn is_line_break(c: char) -> bool {
    c == '\n' || c == '\r'
}

/// A raw input line with its trailing line-feed and carriage-return
/// characters removed.  Interior line breaks are kept.
pub open spec fn trim_line_ends(s: Seq<char>) -> Seq<char>
    decreases s.len(),
{
    if s.len() > 0 && is_line_break(s.last()) {
        trim_line_ends(s.drop_last())
    } else {
        s
    }
}

/// What is stored in the buffer for an empty normalized line: a single
/// literal newline character, so that blank lines survive the join.
pub open spec fn blank_marker() -> Seq<char> {
    seq!['\n']
}

/// Whether a normalized line ends the collection: it is non-empty and
/// its last character is the break character.
pub open spec fn terminates_line(line: Seq<char>, break_char: char) -> bool {
    line.len() > 0 && line.last() == break_char
}

/// What one normalized line contributes to the buffer: the blank marker
/// for an empty line, the line without its final character for a
/// terminating line, and the line itself otherwise.
pub open spec fn stored_line(line: Seq<char>, break_char: char) -> Seq<char> {
    if line.len() == 0 {
        blank_marker()
    } else if line.last() == break_char {
        line.drop_last()
    } else {
        line
    }
}

/// The abstract state of the collector: the buffered lines, the break
/// character, and whether the terminating line has been seen.
#[verifier::ext_equal]
pub struct EditorView {
    pub lines: Seq<Seq<char>>,
    pub break_char: char,
    pub done: bool,
}

/// The collector's initial state: an empty buffer, not yet terminated.
pub open spec fn init_view(break_char: char) -> EditorView {
    EditorView { lines: Seq::empty(), break_char: break_char, done: false }
}

/// One transition of the collector on a normalized line: the line's
/// contribution is appended, and the state becomes terminated exactly
/// when the line ends in the break character.
pub open spec fn step(s: EditorView, line: Seq<char>) -> EditorView {
    EditorView {
        lines: s.lines.push(stored_line(line, s.break_char)),
        break_char: s.break_char,
        done: terminates_line(line, s.break_char),
    }
}

/// The state after feeding a whole sequence of normalized lines, first
/// line first.
pub open spec fn run(s: EditorView, input: Seq<Seq<char>>) -> EditorView
    decreases input.len(),
{
    if input.len() == 0 {
        s
    } else {
        run(step(s, input.first()), input.drop_first())
    }
}

/// The contributions of a whole sequence of normalized lines, in
/// order.
pub open spec fn stored_lines(input: Seq<Seq<char>>, break_char: char) -> Seq<Seq<char>> {
    input.map(|i: int, l: Seq<char>| stored_line(l, break_char))
}

/// A collector that is not done never becomes done on its own: feeding
/// any sequence of normalized lines, none of which is non-empty with
/// the break character last, leaves it not done, with every line's
/// contribution appended in order.
pub proof fn lemma_run_without_terminator(s: EditorView, input: Seq<Seq<char>>)
    requires
        !s.done,
        forall|i: int|
            0 <= i < input.len() ==> !terminates_line(#[trigger] input[i], s.break_char),
    ensures
        !run(s, input).done,
        run(s, input).break_char == s.break_char,
        run(s, input).lines == s.lines + stored_lines(input, s.break_char),
    decreases input.len(),
{
    if input.len() == 0 {
        assert(run(s, input).lines =~= s.lines + stored_lines(input, s.break_char));
    } else {
        let s1 = step(s, input.first());
        assert(input.first() == input[0]);
        assert(!s1.done);
        assert(forall|i: int|
            0 <= i < input.drop_first().len() ==> !terminates_line(
                #[trigger] input.drop_first()[i],
                s1.break_char,
            ));
        lemma_run_without_terminator(s1, input.drop_first());
        assert(run(s1, input.drop_first()).lines =~= s.lines + stored_lines(
            input,
            s.break_char,
        ));
        assert(run(s, input) =~~= run(s1, input.drop_first()));
    }
}

/// Feeding the lines of a sequence one more line at its end is one
/// more transition after feeding the sequence.
pub proof fn lemma_run_push(s: EditorView, input: Seq<Seq<char>>, line: Seq<char>)
    ensures
        run(s, input.push(line)) == step(run(s, input), line),
    decreases input.len(),
{
    if input.len() == 0 {
        assert(input.push(line).drop_first() =~= Seq::<Seq<char>>::empty());
        assert(input.push(line).first() == line);
        assert(run(s, input.push(line)) == run(step(s, line), Seq::<Seq<char>>::empty()));
        assert(run(step(s, line), Seq::<Seq<char>>::empty()) == step(s, line));
        assert(run(s, input) == s);
    } else {
        let s1 = step(s, input.first());
        lemma_run_push(s1, input.drop_first(), line);
        assert(input.push(line).drop_first() =~= input.drop_first().push(line));
        assert(input.push(line).first() == input.first());
        assert(run(s, input.push(line)) == run(s1, input.drop_first().push(line)));
        assert(run(s, input) == run(s1, input.drop_first()));
    }
}

/// A run on input whose last normalized line alone ends in the break
/// character reaches the terminated state, with exactly the
/// contributions of all its lines appended in order.
pub proof fn lemma_run_with_terminator(s: EditorView, input: Seq<Seq<char>>)
    requires
        !s.done,
        input.len() > 0,
        forall|i: int|
            0 <= i < input.len() - 1 ==> !terminates_line(#[trigger] input[i], s.break_char),
        terminates_line(input.last(), s.break_char),
    ensures
        run(s, input).done,
        run(s, input).break_char == s.break_char,
        run(s, input).lines == s.lines + stored_lines(input, s.break_char),
    decreases input.len(),
{
    let front = input.drop_last();
    lemma_run_without_terminator(s, front);
    lemma_run_push(s, front, input.last());
    assert(input =~= front.push(input.last()));
    assert(run(s, input).lines =~= s.lines + stored_lines(input, s.break_char));
}

/// The buffered lines joined with a single newline character between
/// consecutive entries; no separator is added before the first line or
/// after the last.
pub open spec fn join_lines(lines: Seq<Seq<char>>) -> Seq<char>
    decreases lines.len(),
{
    if lines.len() == 0 {
        Seq::empty()
    } else if lines.len() == 1 {
        lines[0]
    } else {
        lines[0] + blank_marker() + join_lines(lines.drop_first())
    }
}

/// Strips trailing line-feed and carriage-return characters from a raw
/// input line, leaving interior ones in place.
pub fn normalize_line(line: &str) -> (r: String)
    ensures
        r@ == trim_line_ends(line@),
{
    let mut end: usize = line.unicode_len();
    proof {
        assert(line@.take(end as int) =~= line@);
    }
    loop
        invariant
            end <= line@.len(),
            trim_line_ends(line@) == trim_line_ends(line@.take(end as int)),
        ensures
            end <= line@.len(),
            trim_line_ends(line@) == trim_line_ends(line@.take(end as int)),
            end > 0 ==> !is_line_break(line@[end - 1]),
        decreases end,
    {
        if end == 0 {
            break;
        }
        let c = line.get_char(end - 1);
        if c == '\n' || c == '\r' {
            proof {
                assert(line@.take(end as int).last() == c);
                assert(line@.take(end as int).drop_last() =~= line@.take(end - 1));
            }
            end = end - 1;
        } else {
            proof {
                assert(line@.take(end as int).last() == c);
            }
            break;
        }
    }
    proof {
        assert(line@.take(end as int).len() == end);
        assert(trim_line_ends(line@.take(end as int)) == line@.take(end as int));
    }
    let r = line.substring_char(0, end);
    proof {
        assert(r@ =~= line@.take(end as int));
    }
    String::from_str(r)
}

/// Appending one line to a buffer appends it to the join, preceded by a
/// newline separator whenever the buffer was non-empty.
pub proof fn lemma_join_lines_push(lines: Seq<Seq<char>>, line: Seq<char>)
    ensures
        lines.len() == 0 ==> join_lines(lines.push(line)) == line,
        lines.len() > 0 ==> join_lines(lines.push(line)) == join_lines(lines) + blank_marker()
            + line,
    decreases lines.len(),
{
    let p = lines.push(line);
    if lines.len() == 0 {
        assert(p[0] == line);
    } else if lines.len() == 1 {
        assert(p.drop_first() =~= seq![line]);
        assert(join_lines(seq![line]) == seq![line][0]);
        assert(p[0] == lines[0]);
        assert(join_lines(p) == lines[0] + blank_marker() + line);
    } else {
        lemma_join_lines_push(lines.drop_first(), line);
        assert(p.drop_first() =~= lines.drop_first().push(line));
        assert(p[0] == lines[0]);
        assert(lines[0] + blank_marker() + (join_lines(lines.drop_first()) + blank_marker()
            + line) =~= (lines[0] + blank_marker() + join_lines(lines.drop_first()))
            + blank_marker() + line);
    }
}

/// The line collector.  Feed it one raw input line at a time until it
/// reports that it is done, then ask for the joined content.
pub struct Editor {
    lines: Vec<String>,
    break_char: char,
    done: bool,
}

impl View for Editor {
    type V = EditorView;

    closed spec fn view(&self) -> EditorView {
        EditorView {
            lines: self.lines.deep_view(),
            break_char: self.break_char,
            done: self.done,
        }
    }
}

impl Editor {
    /// A fresh collector for the given break character.
    pub fn new(break_char: char) -> (e: Editor)
        ensures
            e@ == init_view(break_char),
    {
        let e = Editor { lines: Vec::new(), break_char: break_char, done: false };
        proof {
            assert(e@ =~~= init_view(break_char));
        }
        e
    }

    /// Takes one raw input line and performs one transition of the
    /// collector on its normalized form: the line's contribution is
    /// appended to the buffer, and the collector becomes done exactly
    /// when the normalized line is non-empty and ends in the break
    /// character.
    pub fn feed(&mut self, line: &str)
        requires
            !old(self)@.done,
        ensures
            final(self)@ == step(old(self)@, trim_line_ends(line@)),
    {
        let norm = normalize_line(line);
        let n = norm.as_str().unicode_len();
        if n == 0 {
            self.lines.push(String::from_str("\n"));
            proof {
                reveal_strlit("\n");
                assert("\n"@ =~= blank_marker());
                assert(self@ =~~= step(old(self)@, trim_line_ends(line@)));
            }
        } else {
            let c = norm.as_str().get_char(n - 1);
            if c == self.break_char {
                let kept = norm.as_str().substring_char(0, n - 1);
                self.lines.push(String::from_str(kept));
                self.done = true;
                proof {
                    assert(kept@ =~= trim_line_ends(line@).drop_last());
                    assert(self@ =~~= step(old(self)@, trim_line_ends(line@)));
                }
            } else {
                self.lines.push(norm);
                proof {
                    assert(self@ =~~= step(old(self)@, trim_line_ends(line@)));
                }
            }
        }
    }

    /// Whether the terminating line has been seen.
    pub fn is_done(&self) -> (r: bool)
        ensures
            r == self@.done,
    {
        self.done
    }

    /// The buffered lines joined with a single newline character
    /// between consecutive entries.  This is the content that is
    /// written to the target file.
    pub fn content(&self) -> (r: String)
        ensures
            r@ == join_lines(self@.lines),
    {
        let mut out = String::new();
        let mut i: usize = 0;
        while i < self.lines.len()
            invariant
                i <= self.lines.len(),
                out@ == join_lines(self@.lines.take(i as int)),
                self@.lines.len() == self.lines.len(),
            decreases self.lines.len() - i,
        {
            if i > 0 {
                out.append("\n");
            }
            out.append(self.lines[i].as_str());
            proof {
                reveal_strlit("\n");
                assert("\n"@ =~= blank_marker());
                assert(self@.lines[i as int] == self.lines@[i as int]@);
                lemma_join_lines_push(self@.lines.take(i as int), self@.lines[i as int]);
                assert(self@.lines.take(i as int).push(self@.lines[i as int]) =~= self@.lines.take(
                    i + 1,
                ));
            }
            i = i + 1;
        }
        proof {
            assert(self@.lines.take(self@.lines.len() as int) =~= self@.lines);
        }
        out
    }

    /// The length in bytes of the joined content under UTF-8 encoding:
    /// the number that is reported after a successful write.
    pub fn content_byte_len(&self) -> (n: usize)
        ensures
            n == vstd::utf8::encode_utf8(join_lines(self@.lines)).len(),
    {
        let c = self.content();
        let b = c.as_str().as_bytes();
        b.len()
    }

    /// The break character this collector was created with.
    pub fn break_char(&self) -> (r: char)
        ensures
            r == self@.break_char,
    {
        self.break_char
    }

    /// How many lines have been buffered so far.  The prompt shown for
    /// the next line is one more than this.
    pub fn line_count(&self) -> (r: usize)
        ensures
            r == self@.lines.len(),
    {
        self.lines.len()
    }
}

} // verus!
