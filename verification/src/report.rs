//! Rendering the final summary.
//!
//! With a single source the output is just that source's count. With several,
//! each source gets a line `<name>: <count>` in argument order, closed by a
//! line `total: <sum>`. The whole block is newline-terminated, and the same
//! mode flag selects words or lines for every source and for the total.

use vstd::prelude::*;
use crate::count::{selected_count, WordyFile};

verus! {

/// The digit character for one decimal digit.
pub open spec fn digit_char(d: nat) -> char {
    if d == 0 {
        '0'
    } else if d == 1 {
        '1'
    } else if d == 2 {
        '2'
    } else if d == 3 {
        '3'
    } else if d == 4 {
        '4'
    } else if d == 5 {
        '5'
    } else if d == 6 {
        '6'
    } else if d == 7 {
        '7'
    } else if d == 8 {
        '8'
    } else {
        '9'
    }
}

/// The decimal representation of a number, most significant digit first and
/// without leading zeros (a single `0` for zero itself).
pub open spec fn dec_rep(n: nat) -> Seq<char>
    decreases n,
{
    if n < 10 {
        seq![digit_char(n)]
    } else {
        dec_rep(n / 10).push(digit_char(n % 10))
    }
}

fn digit_str(d: usize) -> (s: &'static str)
    requires
        d < 10,
    ensures
        s@ == seq![digit_char(d as nat)],
{
    proof {
        reveal_strlit("0");
        reveal_strlit("1");
        reveal_strlit("2");
        reveal_strlit("3");
        reveal_strlit("4");
        reveal_strlit("5");
        reveal_strlit("6");
        reveal_strlit("7");
        reveal_strlit("8");
        reveal_strlit("9");
    }
    let s: &'static str = if d == 0 {
        "0"
    } else if d == 1 {
        "1"
    } else if d == 2 {
        "2"
    } else if d == 3 {
        "3"
    } else if d == 4 {
        "4"
    } else if d == 5 {
        "5"
    } else if d == 6 {
        "6"
    } else if d == 7 {
        "7"
    } else if d == 8 {
        "8"
    } else {
        "9"
    };
    proof {
        assert(s@ =~= seq![digit_char(d as nat)]);
    }
    s
}

/// Render a number in decimal.
pub fn usize_to_string(n: usize) -> (s: String)
    ensures
        s@ == dec_rep(n as nat),
    decreases n,
{
    if n < 10 {
        String::from_str(digit_str(n))
    } else {
        let mut s = usize_to_string(n / 10);
        s.append(digit_str(n % 10));
        proof {
            assert(s@ =~= dec_rep(n as nat));
        }
        s
    }
}

/// The sum of the selected quantity over an ordered list of sources.
pub open spec fn total_selected(files: Seq<WordyFile>, lines: bool) -> nat
    decreases files.len(),
{
    if files.len() == 0 {
        0
    } else {
        total_selected(files.drop_last(), lines) + selected_count(files.last(), lines)
    }
}

/// One line of the multi-source report: `<name>: <count>`, newline-terminated.
pub open spec fn file_report_line(wf: WordyFile, lines: bool) -> Seq<char> {
    wf.path@ + ": "@ + dec_rep(selected_count(wf, lines)) + "\n"@
}

/// The per-source lines of the multi-source report, in argument order.
pub open spec fn files_report(files: Seq<WordyFile>, lines: bool) -> Seq<char>
    decreases files.len(),
{
    if files.len() == 0 {
        Seq::empty()
    } else {
        files_report(files.drop_last(), lines) + file_report_line(files.last(), lines)
    }
}

/// The whole standard-output text of a successful run: the bare count for a
/// single source, otherwise the per-source lines followed by the total line.
pub open spec fn summary_output(files: Seq<WordyFile>, lines: bool) -> Seq<char> {
    if files.len() == 1 {
        dec_rep(selected_count(files[0], lines)) + "\n"@
    } else {
        files_report(files, lines) + "total: "@ + dec_rep(total_selected(files, lines)) + "\n"@
    }
}

proof fn lemma_total_selected_step(files: Seq<WordyFile>, lines: bool, i: int)
    requires
        0 <= i < files.len(),
    ensures
        total_selected(files.subrange(0, i + 1), lines) == total_selected(
            files.subrange(0, i),
            lines,
        ) + selected_count(files[i], lines),
{
    assert(files.subrange(0, i + 1).drop_last() =~= files.subrange(0, i));
    assert(files.subrange(0, i + 1).last() == files[i]);
}

proof fn lemma_total_selected_prefix_le(files: Seq<WordyFile>, lines: bool, i: int)
    requires
        0 <= i <= files.len(),
    ensures
        total_selected(files.subrange(0, i), lines) <= total_selected(files, lines),
    decreases files.len() - i,
{
    if i == files.len() {
        assert(files.subrange(0, i) =~= files);
    } else {
        lemma_total_selected_step(files, lines, i);
        lemma_total_selected_prefix_le(files, lines, i + 1);
    }
}

proof fn lemma_files_report_step(files: Seq<WordyFile>, lines: bool, i: int)
    requires
        0 <= i < files.len(),
    ensures
        files_report(files.subrange(0, i + 1), lines) == files_report(files.subrange(0, i), lines)
            + file_report_line(files[i], lines),
{
    assert(files.subrange(0, i + 1).drop_last() =~= files.subrange(0, i));
    assert(files.subrange(0, i + 1).last() == files[i]);
}

/// Render the summary for an ordered, non-empty list of scanned sources.
pub fn render_summary(files: &Vec<WordyFile>, lines: bool) -> (s: String)
    requires
        files@.len() >= 1,
        total_selected(files@, lines) <= usize::MAX,
    ensures
        s@ == summary_output(files@, lines),
{
    if files.len() == 1 {
        let c = crate::count::count_based_on_args(&files[0], lines);
        let mut s = usize_to_string(c);
        s.append("\n");
        s
    } else {
        let mut s = String::new();
        let mut total: usize = 0;
        let mut i: usize = 0;
        while i < files.len()
            invariant
                i <= files@.len(),
                total_selected(files@, lines) <= usize::MAX,
                s@ == files_report(files@.subrange(0, i as int), lines),
                total == total_selected(files@.subrange(0, i as int), lines),
            decreases files@.len() - i,
        {
            proof {
                lemma_total_selected_step(files@, lines, i as int);
                lemma_total_selected_prefix_le(files@, lines, i + 1);
                lemma_files_report_step(files@, lines, i as int);
            }
            s.append(files[i].path.as_str());
            s.append(": ");
            let c = crate::count::count_based_on_args(&files[i], lines);
            let cs = usize_to_string(c);
            s.append(cs.as_str());
            s.append("\n");
            total = total + c;
            i = i + 1;
        }
        proof {
            assert(files@.subrange(0, files@.len() as int) =~= files@);
        }
        s.append("total: ");
        let ts = usize_to_string(total);
        s.append(ts.as_str());
        s.append("\n");
        s
    }
}

/// Law: the summary is a function of the recorded sources and the mode flag
/// alone, so running the tool twice over the same unchanged input yields
/// identical output.
pub proof fn lemma_summary_deterministic(
    first: Seq<WordyFile>,
    second: Seq<WordyFile>,
    lines: bool,
)
    requires
        first == second,
    ensures
        summary_output(first, lines) == summary_output(second, lines),
{
}

} // verus!
