use imgtool::batch::{collect_failures, collect_successes, count_true};
use imgtool::confirm::{cleanup_decision, parse_confirm, trimmed, CleanupStep};
use imgtool::folder::{select_files, FolderEntry};
use imgtool::outcome::{outcome_after_write, outcome_is_failure, Outcome};
use imgtool::report::{
    batch_line, delete_line, delete_summary, single_line, summary_header, usize_to_decimal, OpKind,
};

#[test]
fn failures_are_exactly_the_failing_paths() {
    let results = vec![
        (String::from("a.png"), Outcome::Success),
        (String::from("b.png"), Outcome::ReadFailure),
        (String::from("c.png"), Outcome::AlreadySatisfied),
        (String::from("d.png"), Outcome::WriteFailure),
        (String::from("e.png"), Outcome::EncodeFailure),
        (String::from("f.png"), Outcome::Success),
        (String::from("g.png"), Outcome::FormatGuessFailure),
    ];
    let failures = collect_failures(&results);
    assert_eq!(failures.len(), 4);
    assert_eq!(failures, vec!["b.png", "d.png", "e.png", "g.png"]);
    assert_eq!(summary_header(failures.len()), "4 FAILED CASES:");
}

#[test]
fn already_satisfied_is_a_warning_not_a_failure() {
    assert!(!outcome_is_failure(Outcome::Success));
    assert!(!outcome_is_failure(Outcome::AlreadySatisfied));
    assert!(outcome_is_failure(Outcome::ReadFailure));
    assert!(outcome_is_failure(Outcome::FormatGuessFailure));
    assert!(outcome_is_failure(Outcome::EncodeFailure));
    assert!(outcome_is_failure(Outcome::WriteFailure));
}

#[test]
fn a_failed_write_overrides_the_planned_outcome() {
    assert_eq!(outcome_after_write(Outcome::Success, true), Outcome::Success);
    assert_eq!(outcome_after_write(Outcome::Success, false), Outcome::WriteFailure);
    assert_eq!(outcome_after_write(Outcome::AlreadySatisfied, false), Outcome::WriteFailure);
    assert_eq!(outcome_after_write(Outcome::AlreadySatisfied, true), Outcome::AlreadySatisfied);
}

#[test]
fn successes_are_exactly_the_successful_paths() {
    let results = vec![
        (String::from("a.png"), Outcome::Success),
        (String::from("b.png"), Outcome::ReadFailure),
        (String::from("c.png"), Outcome::AlreadySatisfied),
        (String::from("d.png"), Outcome::Success),
    ];
    let successes = collect_successes(&results);
    assert_eq!(successes, vec!["a.png", "d.png"]);
}

#[test]
fn empty_batch_has_no_failures() {
    let results: Vec<(String, Outcome)> = Vec::new();
    assert_eq!(collect_failures(&results).len(), 0);
    assert_eq!(summary_header(0), "0 FAILED CASES:");
}

#[test]
fn count_true_counts_deletions() {
    assert_eq!(count_true(&vec![true, false, true, true]), 3);
    assert_eq!(count_true(&Vec::new()), 0);
    assert_eq!(delete_summary(3), "3 files deleted in total.");
}

#[test]
fn select_files_skips_subdirectories() {
    let entries = vec![
        FolderEntry { path: String::from("dir/pic.png"), is_file: true },
        FolderEntry { path: String::from("dir/sub"), is_file: false },
    ];
    let files = select_files(&entries);
    assert_eq!(files, vec!["dir/pic.png"]);
}

#[test]
fn select_files_keeps_enumeration_order() {
    let entries = vec![
        FolderEntry { path: String::from("d/z.png"), is_file: true },
        FolderEntry { path: String::from("d/a"), is_file: false },
        FolderEntry { path: String::from("d/a.png"), is_file: true },
    ];
    assert_eq!(select_files(&entries), vec!["d/z.png", "d/a.png"]);
}

#[test]
fn trimmed_strips_surrounding_white_space() {
    assert_eq!(trimmed("  y\n"), "y");
    assert_eq!(trimmed("\t n \r\n"), "n");
    assert_eq!(trimmed("none"), "none");
    assert_eq!(trimmed("   "), "");
    assert_eq!(trimmed(""), "");
    assert_eq!(trimmed(" a b "), "a b");
}

#[test]
fn parse_confirm_takes_only_y_and_n() {
    assert_eq!(parse_confirm("y\n"), Some(true));
    assert_eq!(parse_confirm(" n "), Some(false));
    assert_eq!(parse_confirm("Y"), None);
    assert_eq!(parse_confirm("yes"), None);
    assert_eq!(parse_confirm(""), None);
}

#[test]
fn unattended_yes_deletes_without_a_prompt() {
    assert_eq!(cleanup_decision(true, None), CleanupStep::DeleteOriginals);
    assert_eq!(cleanup_decision(true, Some("n")), CleanupStep::DeleteOriginals);
}

#[test]
fn answer_n_keeps_every_original() {
    assert_eq!(cleanup_decision(false, Some("n\n")), CleanupStep::KeepOriginals);
}

#[test]
fn invalid_answer_asks_again() {
    assert_eq!(cleanup_decision(false, None), CleanupStep::AskAgain);
    assert_eq!(cleanup_decision(false, Some("")), CleanupStep::AskAgain);
    assert_eq!(cleanup_decision(false, Some("maybe")), CleanupStep::AskAgain);
    assert_eq!(cleanup_decision(false, Some("y")), CleanupStep::DeleteOriginals);
}

#[test]
fn decimal_rendering_is_exact() {
    assert_eq!(usize_to_decimal(0), "0");
    assert_eq!(usize_to_decimal(7), "7");
    assert_eq!(usize_to_decimal(10), "10");
    assert_eq!(usize_to_decimal(1234), "1234");
    assert_eq!(usize_to_decimal(1000000), "1000000");
}

#[test]
fn batch_lines_match_the_outcomes() {
    assert_eq!(batch_line(OpKind::Resize, "p.png", Outcome::Success), "[PASS] resized 'p.png'");
    assert_eq!(
        batch_line(OpKind::Resize, "p.png", Outcome::AlreadySatisfied),
        "[WARN] size already satisfied for 'p.png'"
    );
    assert_eq!(
        batch_line(OpKind::Resize, "p.png", Outcome::ReadFailure),
        "[FAIL] failed to read 'p.png'"
    );
    assert_eq!(
        batch_line(OpKind::Resize, "p.png", Outcome::WriteFailure),
        "[FAIL] failed to save 'p.png'"
    );
    assert_eq!(
        batch_line(OpKind::Convert, "p.png", Outcome::Success),
        "[PASS] converted 'p.png'"
    );
    assert_eq!(
        batch_line(OpKind::Convert, "p.png", Outcome::AlreadySatisfied),
        "[WARN] format already satisfied 'p.png'"
    );
    assert_eq!(
        batch_line(OpKind::Convert, "p.png", Outcome::EncodeFailure),
        "[FAIL] failed to convert 'p.png'"
    );
    assert_eq!(
        batch_line(OpKind::Convert, "p.png", Outcome::FormatGuessFailure),
        "[FAIL] failed to guess format 'p.png'"
    );
}

#[test]
fn single_lines_say_nothing_on_success() {
    assert_eq!(single_line(OpKind::Resize, "p.png", Outcome::Success), None);
    assert_eq!(single_line(OpKind::Convert, "p.png", Outcome::Success), None);
    assert_eq!(
        single_line(OpKind::Resize, "p.png", Outcome::ReadFailure),
        Some(String::from("Failed to read 'p.png'"))
    );
    assert_eq!(
        single_line(OpKind::Convert, "p.png", Outcome::AlreadySatisfied),
        Some(String::from("Format already satisfied 'p.png'"))
    );
    assert_eq!(
        single_line(OpKind::Resize, "p.png", Outcome::AlreadySatisfied),
        Some(String::from("Size already satisfied for 'p.png'"))
    );
}

#[test]
fn delete_lines_report_both_ways() {
    assert_eq!(delete_line("p.png", true), "[PASS] deleted 'p.png'");
    assert_eq!(delete_line("p.png", false), "[FAIL] failed to delete 'p.png'");
}
