//! The verification report: an ordered sequence of lines, one per processed
//! file or unreadable entry, and its rendering as newline-delimited text.

use vstd::prelude::*;
use vstd::string::StringExecFns;

verus! {

/// One line of the verification report.
#[derive(PartialEq, Eq, Debug)]
pub enum ReportLine {
    /// The oracle confirmed a valid signature on this file.
    Verified { path: String },
    /// The oracle reported that this file carries no signature.
    NoSignature { path: String },
    /// One directory entry could not be read; the error description.
    EntryFailure { error: String },
    /// A directory could not be enumerated; the error description.
    DirFailure { error: String },
}

/// The text of one report line, trailing newline included.
pub open spec fn line_text(line: ReportLine) -> Seq<char> {
    match line {
        ReportLine::Verified { path } => "Verified: "@ + path@ + "\n"@,
        ReportLine::NoSignature { path } => "No signature: "@ + path@ + "\n"@,
        ReportLine::EntryFailure { error } => "Failed to read entry: "@ + error@ + "\n"@,
        ReportLine::DirFailure { error } => "Could not read the directory: "@ + error@ + "\n"@,
    }
}

/// The text of a whole report: the lines' texts in order.
pub open spec fn report_text(lines: Seq<ReportLine>) -> Seq<char>
    decreases lines.len(),
{
    if lines.len() == 0 {
        Seq::empty()
    } else {
        line_text(lines[0]) + report_text(lines.drop_first())
    }
}

/// Appending one line to a report appends that line's text.
pub proof fn lemma_report_text_push(lines: Seq<ReportLine>, line: ReportLine)
    ensures
        report_text(lines.push(line)) == report_text(lines) + line_text(line),
    decreases lines.len(),
{
    if lines.len() == 0 {
        assert(lines.push(line).drop_first() =~= lines);
        assert(report_text(lines.push(line)) =~= report_text(lines) + line_text(line));
    } else {
        assert(lines.push(line).drop_first() =~= lines.drop_first().push(line));
        lemma_report_text_push(lines.drop_first(), line);
        assert(report_text(lines.push(line)) =~= report_text(lines) + line_text(line));
    }
}

/// Renders one report line as its human-readable text, newline included.
pub fn render_line(line: &ReportLine) -> (r: String)
    ensures
        r@ == line_text(*line),
{
    let mut s = String::new();
    match line {
        ReportLine::Verified { path } => {
            s.append("Verified: ");
            s.append(path.as_str());
        },
        ReportLine::NoSignature { path } => {
            s.append("No signature: ");
            s.append(path.as_str());
        },
        ReportLine::EntryFailure { error } => {
            s.append("Failed to read entry: ");
            s.append(error.as_str());
        },
        ReportLine::DirFailure { error } => {
            s.append("Could not read the directory: ");
            s.append(error.as_str());
        },
    }
    s.append("\n");
    proof {
        assert(s@ =~= line_text(*line));
    }
    s
}

/// Renders a whole report as one newline-delimited text blob, the lines in
/// order.
pub fn render_report(lines: &Vec<ReportLine>) -> (r: String)
    ensures
        r@ == report_text(lines@),
{
    let mut s = String::new();
    let n = lines.len();
    let mut i: usize = 0;
    while i < n
        invariant
            i <= n,
            n == lines@.len(),
            s@ == report_text(lines@.take(i as int)),
        decreases n - i,
    {
        let line = render_line(&lines[i]);
        s.append(line.as_str());
        proof {
            lemma_report_text_push(lines@.take(i as int), lines@[i as int]);
            assert(lines@.take(i as int + 1) =~= lines@.take(i as int).push(lines@[i as int]));
        }
        i = i + 1;
    }
    proof {
        assert(lines@.take(n as int) =~= lines@);
    }
    s
}

} // verus!
