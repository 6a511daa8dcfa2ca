use digital_signature_verifier::outcome::{
    classify_status, VerificationOutcome, STATUS_NO_SIGNATURE, STATUS_SUCCESS,
};
use digital_signature_verifier::report::{render_line, render_report, ReportLine};
use digital_signature_verifier::tree::{verify_entry, verify_tree, verify_tree_text, DirEntry, DirTree};

fn file(path: &str, outcome: VerificationOutcome) -> DirEntry {
    DirEntry::File { path: String::from(path), outcome }
}

fn listed(entries: Vec<DirEntry>) -> DirTree {
    DirTree::Listed { entries }
}

#[test]
fn classify_success_is_trusted() {
    assert_eq!(classify_status(STATUS_SUCCESS), VerificationOutcome::Trusted);
    assert_eq!(classify_status(0), VerificationOutcome::Trusted);
}

#[test]
fn classify_no_signature_sentinel_is_unsigned() {
    assert_eq!(classify_status(STATUS_NO_SIGNATURE), VerificationOutcome::Unsigned);
    assert_eq!(classify_status(0x800B_0100), VerificationOutcome::Unsigned);
}

#[test]
fn classify_other_codes_keep_the_code() {
    assert_eq!(classify_status(42), VerificationOutcome::Failed(42));
    // CERT_E_REVOKED-like code: not the no-signature sentinel.
    assert_eq!(classify_status(0x800B_010C), VerificationOutcome::Failed(0x800B_010C));
    assert_eq!(classify_status(u32::MAX), VerificationOutcome::Failed(u32::MAX));
}

#[test]
fn render_each_line_kind() {
    assert_eq!(
        render_line(&ReportLine::Verified { path: String::from("C:/x/a.exe") }),
        "Verified: C:/x/a.exe\n"
    );
    assert_eq!(
        render_line(&ReportLine::NoSignature { path: String::from("C:/x/b.exe") }),
        "No signature: C:/x/b.exe\n"
    );
    assert_eq!(
        render_line(&ReportLine::EntryFailure { error: String::from("permission denied") }),
        "Failed to read entry: permission denied\n"
    );
    assert_eq!(
        render_line(&ReportLine::DirFailure { error: String::from("not found") }),
        "Could not read the directory: not found\n"
    );
}

#[test]
fn render_report_concatenates_in_order() {
    let lines = vec![
        ReportLine::Verified { path: String::from("a") },
        ReportLine::NoSignature { path: String::from("b") },
    ];
    assert_eq!(render_report(&lines), "Verified: a\nNo signature: b\n");
}

#[test]
fn empty_directory_yields_empty_report() {
    let t = listed(Vec::new());
    assert_eq!(verify_tree(&t).len(), 0);
    assert_eq!(verify_tree_text(&t), "");
}

#[test]
fn unreadable_root_yields_one_failure_line() {
    let t = DirTree::Unreadable { error: String::from("access is denied") };
    let lines = verify_tree(&t);
    assert_eq!(lines.len(), 1);
    assert_eq!(
        lines[0],
        ReportLine::DirFailure { error: String::from("access is denied") }
    );
    assert_eq!(
        verify_tree_text(&t),
        "Could not read the directory: access is denied\n"
    );
}

#[test]
fn signed_unsigned_and_unreadable_entry_give_one_line_each() {
    let t = listed(vec![
        file("signed.exe", VerificationOutcome::Trusted),
        file("unsigned.exe", VerificationOutcome::Unsigned),
        DirEntry::Unreadable { error: String::from("entry vanished") },
    ]);
    let lines = verify_tree(&t);
    assert_eq!(lines.len(), 3);
    assert!(lines.contains(&ReportLine::Verified { path: String::from("signed.exe") }));
    assert!(lines.contains(&ReportLine::NoSignature { path: String::from("unsigned.exe") }));
    assert!(lines.contains(&ReportLine::EntryFailure { error: String::from("entry vanished") }));
}

#[test]
fn traversal_keeps_enumeration_order() {
    let t = listed(vec![
        file("b.exe", VerificationOutcome::Unsigned),
        file("a.exe", VerificationOutcome::Trusted),
        DirEntry::Unreadable { error: String::from("race") },
        file("c.exe", VerificationOutcome::Trusted),
    ]);
    assert_eq!(
        verify_tree_text(&t),
        "No signature: b.exe\nVerified: a.exe\nFailed to read entry: race\nVerified: c.exe\n"
    );
}

#[test]
fn file_three_levels_deep_is_reported_with_full_path() {
    let deep = listed(vec![file("top/mid/leaf/prog.exe", VerificationOutcome::Trusted)]);
    let mid = listed(vec![DirEntry::Subdir { subtree: deep }]);
    let t = listed(vec![DirEntry::Subdir { subtree: mid }]);
    assert_eq!(verify_tree_text(&t), "Verified: top/mid/leaf/prog.exe\n");
}

#[test]
fn failed_outcome_produces_no_line() {
    let lone = verify_entry(&file("revoked.exe", VerificationOutcome::Failed(0x800B_010C)));
    assert_eq!(lone.len(), 0);

    let t = listed(vec![
        file("good.exe", VerificationOutcome::Trusted),
        file("revoked.exe", VerificationOutcome::Failed(0x800B_010C)),
        file("bare.exe", VerificationOutcome::Unsigned),
    ]);
    let text = verify_tree_text(&t);
    assert_eq!(text, "Verified: good.exe\nNo signature: bare.exe\n");
    assert!(!text.contains("revoked.exe"));
}

#[test]
fn subdirectory_failures_do_not_abort_siblings() {
    let bad = DirTree::Unreadable { error: String::from("locked") };
    let t = listed(vec![
        DirEntry::Subdir { subtree: bad },
        file("after.exe", VerificationOutcome::Trusted),
    ]);
    assert_eq!(
        verify_tree_text(&t),
        "Could not read the directory: locked\nVerified: after.exe\n"
    );
}

#[test]
fn special_entries_are_skipped() {
    let t = listed(vec![
        DirEntry::Other,
        file("only.exe", VerificationOutcome::Unsigned),
        DirEntry::Other,
    ]);
    assert_eq!(verify_tree_text(&t), "No signature: only.exe\n");
}

#[test]
fn verification_is_idempotent_on_an_unchanged_tree() {
    let t = listed(vec![
        file("a.exe", VerificationOutcome::Trusted),
        DirEntry::Subdir {
            subtree: listed(vec![file("d/b.exe", VerificationOutcome::Unsigned)]),
        },
        DirEntry::Unreadable { error: String::from("gone") },
        file("c.exe", VerificationOutcome::Failed(5)),
    ]);
    let first = verify_tree(&t);
    let second = verify_tree(&t);
    assert_eq!(first, second);
    assert_eq!(verify_tree_text(&t), verify_tree_text(&t));
}

#[test]
fn classified_statuses_drive_the_report() {
    let t = listed(vec![
        file("ok.exe", classify_status(STATUS_SUCCESS)),
        file("none.exe", classify_status(STATUS_NO_SIGNATURE)),
        file("bad.exe", classify_status(2148204801)),
    ]);
    assert_eq!(verify_tree_text(&t), "Verified: ok.exe\nNo signature: none.exe\n");
}
