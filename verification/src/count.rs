//! Counting words and lines in a text source.
//!
//! A source is scanned line by line. Every line raises the line count by one.
//! A line whose characters are all whitespace contributes no words; any other
//! line contributes one word more than it has space characters, because the
//! tokenizer splits on the single space character alone and keeps empty
//! pieces.

use vstd::prelude::*;

verus! {

/// The Unicode `White_Space` characters: the set that `str::trim` strips,
/// used here to decide whether a line is blank.
pub open spec fn is_whitespace_char(c: char) -> bool {
    let u = c as u32;
    (9 <= u && u <= 13) || u == 32 || u == 0x85 || u == 0xA0 || u == 0x1680
        || (0x2000 <= u && u <= 0x200A) || u == 0x2028 || u == 0x2029
        || u == 0x202F || u == 0x205F || u == 0x3000
}

/// A line is blank when every character in it is whitespace; the empty line
/// is blank too.
pub open spec fn is_blank_line(s: Seq<char>) -> bool {
    forall|i: int| 0 <= i < s.len() ==> is_whitespace_char(#[trigger] s[i])
}

/// How many space characters a line holds.
pub open spec fn space_count(s: Seq<char>) -> nat
    decreases s.len(),
{
    if s.len() == 0 {
        0
    } else {
        space_count(s.drop_last()) + if s.last() == ' ' {
            1nat
        } else {
            0nat
        }
    }
}

/// The number of words in one line: none for a blank line, otherwise one more
/// than the number of space characters, since splitting on the space character
/// yields exactly that many pieces.
pub open spec fn line_word_count(s: Seq<char>) -> nat {
    if is_blank_line(s) {
        0
    } else {
        space_count(s) + 1
    }
}

/// The views of a sequence of line strings.
pub open spec fn lines_view(v: Seq<String>) -> Seq<Seq<char>> {
    v.map_values(|l: String| l@)
}

/// The total number of words over a sequence of lines.
pub open spec fn total_line_words(ls: Seq<Seq<char>>) -> nat
    decreases ls.len(),
{
    if ls.len() == 0 {
        0
    } else {
        total_line_words(ls.drop_last()) + line_word_count(ls.last())
    }
}

/// How many lines of a text are not blank.
pub open spec fn nonblank_line_count(ls: Seq<Seq<char>>) -> nat
    decreases ls.len(),
{
    if ls.len() == 0 {
        0
    } else {
        nonblank_line_count(ls.drop_last()) + if is_blank_line(ls.last()) {
            0nat
        } else {
            1nat
        }
    }
}

proof fn lemma_space_count_le_len(s: Seq<char>)
    ensures
        space_count(s) <= s.len(),
    decreases s.len(),
{
    if s.len() > 0 {
        lemma_space_count_le_len(s.drop_last());
    }
}

proof fn lemma_space_count_lt_len(s: Seq<char>, i: int)
    requires
        0 <= i < s.len(),
        s[i] != ' ',
    ensures
        space_count(s) < s.len(),
    decreases s.len(),
{
    if i == s.len() - 1 {
        lemma_space_count_le_len(s.drop_last());
    } else {
        lemma_space_count_lt_len(s.drop_last(), i);
    }
}

fn char_is_whitespace(c: char) -> (r: bool)
    ensures
        r == is_whitespace_char(c),
{
    let u = c as u32;
    (9 <= u && u <= 13) || u == 32 || u == 0x85 || u == 0xA0 || u == 0x1680
        || (0x2000 <= u && u <= 0x200A) || u == 0x2028 || u == 0x2029
        || u == 0x202F || u == 0x205F || u == 0x3000
}

/// Count the words in one line, given as a string slice.
pub fn words_in_str(line: &str) -> (n: usize)
    ensures
        n == line_word_count(line@),
{
    let len = line.unicode_len();
    let mut spaces: usize = 0;
    let mut blank = true;
    let mut i: usize = 0;
    while i < len
        invariant
            i <= len,
            len == line@.len(),
            spaces == space_count(line@.subrange(0, i as int)),
            blank == is_blank_line(line@.subrange(0, i as int)),
            spaces <= i,
        decreases len - i,
    {
        let c = line.get_char(i);
        if c == ' ' {
            spaces = spaces + 1;
        }
        if !char_is_whitespace(c) {
            blank = false;
        }
        proof {
            assert(line@.subrange(0, i + 1).drop_last() =~= line@.subrange(0, i as int));
        }
        i = i + 1;
    }
    proof {
        assert(line@.subrange(0, len as int) =~= line@);
    }
    if blank {
        0
    } else {
        proof {
            let w = choose|j: int| 0 <= j < line@.len() && !is_whitespace_char(line@[j]);
            assert(line@[w] != ' ');
            lemma_space_count_lt_len(line@, w);
        }
        spaces + 1
    }
}

/// Count the words in one line.
pub fn words_in_line(line: String) -> (n: usize)
    ensures
        n == line_word_count(line@),
{
    words_in_str(line.as_str())
}

proof fn lemma_total_line_words_step(ls: Seq<Seq<char>>, i: int)
    requires
        0 <= i < ls.len(),
    ensures
        total_line_words(ls.subrange(0, i + 1)) == total_line_words(ls.subrange(0, i))
            + line_word_count(ls[i]),
{
    assert(ls.subrange(0, i + 1).drop_last() =~= ls.subrange(0, i));
    assert(ls.subrange(0, i + 1).last() == ls[i]);
}

proof fn lemma_total_line_words_prefix_le(ls: Seq<Seq<char>>, i: int)
    requires
        0 <= i <= ls.len(),
    ensures
        total_line_words(ls.subrange(0, i)) <= total_line_words(ls),
    decreases ls.len() - i,
{
    if i == ls.len() {
        assert(ls.subrange(0, i) =~= ls);
    } else {
        lemma_total_line_words_step(ls, i);
        lemma_total_line_words_prefix_le(ls, i + 1);
    }
}

/// One source and the counts gathered from a single forward scan of it.
pub struct WordyFile {
    /// The display name: the path as given, or `stdin`.
    pub path: String,
    /// Words seen so far, under the single-space tokenizer.
    pub word_count: usize,
    /// Lines seen so far, blank ones included.
    pub line_count: usize,
}

impl WordyFile {
    /// A source that has not been scanned yet.
    pub fn new(path: String) -> (wf: WordyFile)
        ensures
            wf.path == path,
            wf.word_count == 0,
            wf.line_count == 0,
    {
        WordyFile { path, word_count: 0, line_count: 0 }
    }

    /// Scan a source, given as the lines a buffered reader yielded, and add
    /// its words and lines to the counts.
    pub fn process_buf_reader(&mut self, buf_lines: &Vec<String>)
        requires
            old(self).word_count + total_line_words(lines_view(buf_lines@)) <= usize::MAX,
            old(self).line_count + buf_lines@.len() <= usize::MAX,
        ensures
            final(self).path == old(self).path,
            final(self).word_count == old(self).word_count + total_line_words(
                lines_view(buf_lines@),
            ),
            final(self).line_count == old(self).line_count + buf_lines@.len(),
    {
        let ghost all = lines_view(buf_lines@);
        let mut i: usize = 0;
        while i < buf_lines.len()
            invariant
                i <= buf_lines@.len(),
                all == lines_view(buf_lines@),
                old(self).word_count + total_line_words(all) <= usize::MAX,
                old(self).line_count + buf_lines@.len() <= usize::MAX,
                self.path == old(self).path,
                self.word_count == old(self).word_count + total_line_words(
                    all.subrange(0, i as int),
                ),
                self.line_count == old(self).line_count + i,
            decreases buf_lines@.len() - i,
        {
            let w = words_in_str(buf_lines[i].as_str());
            proof {
                lemma_total_line_words_step(all, i as int);
                lemma_total_line_words_prefix_le(all, i + 1);
            }
            self.word_count = self.word_count + w;
            self.line_count = self.line_count + 1;
            i = i + 1;
        }
        proof {
            assert(all.subrange(0, buf_lines@.len() as int) =~= all);
        }
    }
}

/// The quantity the mode flag selects for a source: its line count in line
/// mode, its word count otherwise.
pub open spec fn selected_count(wf: WordyFile, lines: bool) -> nat {
    if lines {
        wf.line_count as nat
    } else {
        wf.word_count as nat
    }
}

/// Pick the reported quantity of one source according to the mode flag.
pub fn count_based_on_args(wfile: &WordyFile, lines: bool) -> (n: usize)
    ensures
        n == selected_count(*wfile, lines),
{
    if lines {
        wfile.line_count
    } else {
        wfile.word_count
    }
}

/// Law: every line that is not blank contributes at least one word, so a
/// text's word count is at least its number of non-blank lines; in
/// particular, text with a non-blank line somewhere has a positive word
/// count.
pub proof fn lemma_words_at_least_nonblank_lines(ls: Seq<Seq<char>>)
    ensures
        total_line_words(ls) >= nonblank_line_count(ls),
    decreases ls.len(),
{
    if ls.len() > 0 {
        lemma_words_at_least_nonblank_lines(ls.drop_last());
    }
}

/// Law: when no line of a text is blank, its word count is at least its line
/// count.
pub proof fn lemma_words_at_least_lines(ls: Seq<Seq<char>>)
    requires
        forall|i: int| 0 <= i < ls.len() ==> !is_blank_line(#[trigger] ls[i]),
    ensures
        total_line_words(ls) >= ls.len(),
    decreases ls.len(),
{
    if ls.len() > 0 {
        assert(forall|i: int|
            0 <= i < ls.drop_last().len() ==> !is_blank_line(#[trigger] ls.drop_last()[i]));
        lemma_words_at_least_lines(ls.drop_last());
        assert(!is_blank_line(ls.last()));
    }
}

} // verus!
