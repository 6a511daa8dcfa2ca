//! The recursive verifier: given a recorded directory tree — what the
//! filesystem enumeration yielded for every directory and what the trust
//! oracle said about every regular file — produce the verification report,
//! one line per reported file or read failure, in traversal order.

use vstd::prelude::*;
use crate::outcome::VerificationOutcome;
use crate::report::{ReportLine, report_text, render_report};

verus! {

/// A directory subtree as the enumeration saw it.
pub enum DirTree {
    /// The directory's immediate entries, in the order the filesystem
    /// enumeration yielded them.
    Listed { entries: Vec<DirEntry> },
    /// The directory itself could not be enumerated; the error description.
    Unreadable { error: String },
}

/// One directory entry as the enumeration saw it.
pub enum DirEntry {
    /// A regular file: its path and the oracle's verdict on it.
    File { path: String, outcome: VerificationOutcome },
    /// A subdirectory, with its own recorded subtree.
    Subdir { subtree: DirTree },
    /// This particular entry could not be read; the error description.
    Unreadable { error: String },
    /// Neither a regular file nor a directory (symlink, special file);
    /// skipped entirely.
    Other,
}

/// The report lines a single regular file contributes: one `Verified` line
/// when the oracle confirmed the signature, one `NoSignature` line when it
/// reported none, and no line at all for any other oracle failure.
pub open spec fn file_report(path: String, outcome: VerificationOutcome) -> Seq<ReportLine> {
    match outcome {
        VerificationOutcome::Trusted => seq![ReportLine::Verified { path }],
        VerificationOutcome::Unsigned => seq![ReportLine::NoSignature { path }],
        VerificationOutcome::Failed(_) => Seq::empty(),
    }
}

/// The report lines one directory entry contributes.
pub open spec fn entry_report(e: DirEntry) -> Seq<ReportLine>
    decreases e,
{
    match e {
        DirEntry::File { path, outcome } => file_report(path, outcome),
        DirEntry::Subdir { subtree } => tree_report(subtree),
        DirEntry::Unreadable { error } => seq![ReportLine::EntryFailure { error }],
        DirEntry::Other => Seq::empty(),
    }
}

/// The report lines a sequence of entries contributes, in order.
pub open spec fn entries_report(s: Seq<DirEntry>) -> Seq<ReportLine>
    decreases s,
{
    if s.len() == 0 {
        Seq::empty()
    } else {
        entry_report(s[0]) + entries_report(s.drop_first())
    }
}

/// The whole report of a subtree: one `DirFailure` line when the directory
/// could not be enumerated, else its entries' lines in enumeration order.
pub open spec fn tree_report(t: DirTree) -> Seq<ReportLine>
    decreases t,
{
    match t {
        DirTree::Listed { entries } => entries_report(entries@),
        DirTree::Unreadable { error } => seq![ReportLine::DirFailure { error }],
    }
}

/// Extending a run of entries by one appends exactly that entry's lines.
pub proof fn lemma_entries_report_push(s: Seq<DirEntry>, e: DirEntry)
    ensures
        entries_report(s.push(e)) == entries_report(s) + entry_report(e),
    decreases s,
{
    if s.len() == 0 {
        assert(s.push(e).drop_first() =~= s);
        assert(entries_report(s.push(e)) =~= entries_report(s) + entry_report(e));
    } else {
        assert(s.push(e).drop_first() =~= s.drop_first().push(e));
        lemma_entries_report_push(s.drop_first(), e);
        assert(entries_report(s.push(e)) =~= entries_report(s) + entry_report(e));
    }
}

/// Produces the report lines of one directory entry: the oracle's verdict
/// for a regular file, the whole subtree's report for a subdirectory, one
/// failure line for an unreadable entry, nothing for anything else.
pub fn verify_entry(e: &DirEntry) -> (r: Vec<ReportLine>)
    ensures
        r@ == entry_report(*e),
    decreases *e,
{
    match e {
        DirEntry::File { path, outcome } => {
            let mut r: Vec<ReportLine> = Vec::new();
            match outcome {
                VerificationOutcome::Trusted => {
                    r.push(ReportLine::Verified { path: path.clone() });
                },
                VerificationOutcome::Unsigned => {
                    r.push(ReportLine::NoSignature { path: path.clone() });
                },
                VerificationOutcome::Failed(_) => {},
            }
            proof {
                assert(r@ =~= entry_report(*e));
            }
            r
        },
        DirEntry::Subdir { subtree } => verify_tree(subtree),
        DirEntry::Unreadable { error } => {
            let mut r: Vec<ReportLine> = Vec::new();
            r.push(ReportLine::EntryFailure { error: error.clone() });
            proof {
                assert(r@ =~= entry_report(*e));
            }
            r
        },
        DirEntry::Other => Vec::new(),
    }
}

/// Walks a recorded subtree depth-first, entry by entry in enumeration
/// order, and accumulates the report: every recursive call owns only its
/// own lines, and per-entry failures never abort the walk.
pub fn verify_tree(t: &DirTree) -> (r: Vec<ReportLine>)
    ensures
        r@ == tree_report(*t),
    decreases *t,
{
    match t {
        DirTree::Listed { entries } => {
            let mut r: Vec<ReportLine> = Vec::new();
            let n = entries.len();
            let mut i: usize = 0;
            while i < n
                invariant
                    *t == (DirTree::Listed { entries: *entries }),
                    i <= n,
                    n == entries@.len(),
                    r@ == entries_report(entries@.take(i as int)),
                decreases n - i,
            {
                proof {
                    // Termination of the mutual recursion: the entry about to
                    // be visited sits strictly below the tree being walked.
                    assert(decreases_to!(*t => t->Listed_entries));
                    assert(decreases_to!(*entries => entries@));
                    assert(decreases_to!(entries@ => entries@[i as int]));
                }
                let mut sub = verify_entry(&entries[i]);
                proof {
                    lemma_entries_report_push(entries@.take(i as int), entries@[i as int]);
                    assert(entries@.take(i as int + 1) =~= entries@.take(i as int).push(
                        entries@[i as int],
                    ));
                }
                r.append(&mut sub);
                i = i + 1;
            }
            proof {
                assert(entries@.take(n as int) =~= entries@);
            }
            r
        },
        DirTree::Unreadable { error } => {
            let mut r: Vec<ReportLine> = Vec::new();
            r.push(ReportLine::DirFailure { error: error.clone() });
            proof {
                assert(r@ =~= tree_report(*t));
            }
            r
        },
    }
}

/// Walks a recorded subtree and returns the full report as one
/// newline-delimited text blob, as the host shell displays it.
pub fn verify_tree_text(t: &DirTree) -> (r: String)
    ensures
        r@ == report_text(tree_report(*t)),
{
    let lines = verify_tree(t);
    render_report(&lines)
}

/// How many lines of each kind a report holds — or, of a tree, how many
/// lines of each kind its report owes: one `verified` per file the oracle
/// trusted, one `no_signature` per file it found unsigned, one `failures`
/// per unreadable directory or entry.
pub struct ReportCounts {
    pub verified: nat,
    pub no_signature: nat,
    pub failures: nat,
}

/// Componentwise sum of two counts.
pub open spec fn add_counts(a: ReportCounts, b: ReportCounts) -> ReportCounts {
    ReportCounts {
        verified: a.verified + b.verified,
        no_signature: a.no_signature + b.no_signature,
        failures: a.failures + b.failures,
    }
}

/// The all-zero count.
pub open spec fn zero_counts() -> ReportCounts {
    ReportCounts { verified: 0, no_signature: 0, failures: 0 }
}

/// How many lines of each kind a sequence of report lines holds; both
/// failure kinds count as failures.
pub open spec fn line_counts(lines: Seq<ReportLine>) -> ReportCounts
    decreases lines.len(),
{
    if lines.len() == 0 {
        zero_counts()
    } else {
        let one = match lines[0] {
            ReportLine::Verified { path: _ } => (ReportCounts {
                verified: 1,
                no_signature: 0,
                failures: 0,
            }),
            ReportLine::NoSignature { path: _ } => (ReportCounts {
                verified: 0,
                no_signature: 1,
                failures: 0,
            }),
            ReportLine::EntryFailure { error: _ } => (ReportCounts {
                verified: 0,
                no_signature: 0,
                failures: 1,
            }),
            ReportLine::DirFailure { error: _ } => (ReportCounts {
                verified: 0,
                no_signature: 0,
                failures: 1,
            }),
        };
        add_counts(one, line_counts(lines.drop_first()))
    }
}

/// The lines one entry owes: one verified or one unsigned line for a file
/// the oracle trusted or found unsigned, nothing for a file that failed
/// otherwise, the subtree's dues for a subdirectory, one failure for an
/// unreadable entry, nothing for anything else.
pub open spec fn entry_counts(e: DirEntry) -> ReportCounts
    decreases e,
{
    match e {
        DirEntry::File { path: _, outcome } => match outcome {
            VerificationOutcome::Trusted => (ReportCounts {
                verified: 1,
                no_signature: 0,
                failures: 0,
            }),
            VerificationOutcome::Unsigned => (ReportCounts {
                verified: 0,
                no_signature: 1,
                failures: 0,
            }),
            VerificationOutcome::Failed(_) => zero_counts(),
        },
        DirEntry::Subdir { subtree } => tree_counts(subtree),
        DirEntry::Unreadable { error: _ } => (ReportCounts {
            verified: 0,
            no_signature: 0,
            failures: 1,
        }),
        DirEntry::Other => zero_counts(),
    }
}

/// The lines a sequence of entries owes.
pub open spec fn entries_counts(s: Seq<DirEntry>) -> ReportCounts
    decreases s,
{
    if s.len() == 0 {
        zero_counts()
    } else {
        add_counts(entry_counts(s[0]), entries_counts(s.drop_first()))
    }
}

/// The lines a whole subtree owes: one failure when the directory could not
/// be enumerated, else what its entries owe.
pub open spec fn tree_counts(t: DirTree) -> ReportCounts
    decreases t,
{
    match t {
        DirTree::Listed { entries } => entries_counts(entries@),
        DirTree::Unreadable { error: _ } => (ReportCounts {
            verified: 0,
            no_signature: 0,
            failures: 1,
        }),
    }
}

/// Line counts distribute over concatenation of reports.
pub proof fn lemma_line_counts_add(a: Seq<ReportLine>, b: Seq<ReportLine>)
    ensures
        line_counts(a + b) == add_counts(line_counts(a), line_counts(b)),
    decreases a.len(),
{
    if a.len() == 0 {
        assert(a + b =~= b);
    } else {
        assert((a + b).drop_first() =~= a.drop_first() + b);
        assert((a + b)[0] == a[0]);
        lemma_line_counts_add(a.drop_first(), b);
    }
}

/// Every report line is of exactly one kind, so the three counts partition
/// the report's length.
pub proof fn lemma_line_counts_partition(lines: Seq<ReportLine>)
    ensures
        lines.len() == line_counts(lines).verified + line_counts(lines).no_signature
            + line_counts(lines).failures,
    decreases lines.len(),
{
    if lines.len() > 0 {
        lemma_line_counts_partition(lines.drop_first());
    }
}

/// A report of one line holds one line of that line's kind.
pub proof fn lemma_line_counts_singleton(line: ReportLine)
    ensures
        line matches ReportLine::Verified { .. } ==> line_counts(seq![line])
            == (ReportCounts { verified: 1, no_signature: 0, failures: 0 }),
        line matches ReportLine::NoSignature { .. } ==> line_counts(seq![line])
            == (ReportCounts { verified: 0, no_signature: 1, failures: 0 }),
        line matches ReportLine::EntryFailure { .. } ==> line_counts(seq![line])
            == (ReportCounts { verified: 0, no_signature: 0, failures: 1 }),
        line matches ReportLine::DirFailure { .. } ==> line_counts(seq![line])
            == (ReportCounts { verified: 0, no_signature: 0, failures: 1 }),
{
    assert(seq![line].drop_first() =~= Seq::<ReportLine>::empty());
    assert(line_counts(Seq::<ReportLine>::empty()) == zero_counts());
}

/// An entry's report holds exactly the lines the entry owes: one line per
/// trusted or unsigned file, one per unreadable entry, and none for a file
/// whose verification failed with any other code.
pub proof fn lemma_entry_report_counts(e: DirEntry)
    ensures
        line_counts(entry_report(e)) == entry_counts(e),
    decreases e,
{
    match e {
        DirEntry::File { path, outcome } => {
            match outcome {
                VerificationOutcome::Trusted => {
                    lemma_line_counts_singleton(ReportLine::Verified { path });
                },
                VerificationOutcome::Unsigned => {
                    lemma_line_counts_singleton(ReportLine::NoSignature { path });
                },
                VerificationOutcome::Failed(_) => {
                    assert(line_counts(Seq::<ReportLine>::empty()) == zero_counts());
                },
            }
        },
        DirEntry::Subdir { subtree } => {
            lemma_tree_report_counts(subtree);
        },
        DirEntry::Unreadable { error } => {
            lemma_line_counts_singleton(ReportLine::EntryFailure { error });
        },
        DirEntry::Other => {
            assert(line_counts(Seq::<ReportLine>::empty()) == zero_counts());
        },
    }
}

/// A run of entries' report holds exactly the lines the entries owe.
pub proof fn lemma_entries_report_counts(s: Seq<DirEntry>)
    ensures
        line_counts(entries_report(s)) == entries_counts(s),
    decreases s,
{
    if s.len() > 0 {
        lemma_entry_report_counts(s[0]);
        lemma_entries_report_counts(s.drop_first());
        lemma_line_counts_add(entry_report(s[0]), entries_report(s.drop_first()));
    }
}

/// A subtree's report holds exactly the lines the subtree owes: one
/// `Verified` line per file the oracle trusted, one `NoSignature` line per
/// file it found unsigned, one failure line per unreadable directory or
/// entry — and nothing at all for files whose verification failed with any
/// other code.
pub proof fn lemma_tree_report_counts(t: DirTree)
    ensures
        line_counts(tree_report(t)) == tree_counts(t),
    decreases t,
{
    match t {
        DirTree::Listed { entries } => {
            lemma_entries_report_counts(entries@);
        },
        DirTree::Unreadable { error } => {
            lemma_line_counts_singleton(ReportLine::DirFailure { error });
        },
    }
}

/// The report's length is exactly one line per successfully enumerated
/// regular file the oracle classified as trusted or unsigned, plus one line
/// per directory or entry read failure.
pub proof fn lemma_one_line_per_subject(t: DirTree)
    ensures
        tree_report(t).len() == tree_counts(t).verified + tree_counts(t).no_signature
            + tree_counts(t).failures,
{
    lemma_tree_report_counts(t);
    lemma_line_counts_partition(tree_report(t));
}

/// The report is a function of the recorded tree alone: two walks over an
/// unchanged tree, with an unchanged trust store behind the recorded
/// verdicts, yield the same lines in the same order.
pub proof fn lemma_report_deterministic(t: DirTree, r1: Seq<ReportLine>, r2: Seq<ReportLine>)
    requires
        r1 == tree_report(t),
        r2 == tree_report(t),
    ensures
        r1 == r2,
{
}

/// An empty, readable directory yields an empty report.
pub proof fn lemma_empty_dir_report(entries: Vec<DirEntry>)
    requires
        entries@.len() == 0,
    ensures
        tree_report(DirTree::Listed { entries }) == Seq::<ReportLine>::empty(),
{
}

/// An unreadable root yields exactly one directory-failure line and no file
/// lines.
pub proof fn lemma_unreadable_root_report(error: String)
    ensures
        tree_report(DirTree::Unreadable { error }) == seq![ReportLine::DirFailure { error }],
{
}

/// A file the oracle rejected with any code other than the no-signature
/// sentinel contributes no line at all — in particular it never appears as
/// verified or as unsigned.
pub proof fn lemma_failed_file_unreported(path: String, code: u32)
    ensures
        entry_report(
            DirEntry::File { path, outcome: VerificationOutcome::Failed(code) },
        ) == Seq::<ReportLine>::empty(),
{
}

} // verus!
