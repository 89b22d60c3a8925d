use catr::config::{resolve, Config, Matches, UsageError, STDIN_NAME};
use catr::numbering::Numbering;

fn strings(items: &[&str]) -> Vec<String> {
    items.iter().map(|item| item.to_string()).collect()
}

fn config(number_lines: bool, number_nonblank_lines: bool) -> Config {
    Config { files: strings(&["-"]), number_lines, number_nonblank_lines }
}

#[test]
fn stdin_is_called_dash() {
    assert_eq!(STDIN_NAME, "-");
}

#[test]
fn resolve_keeps_what_was_found() {
    let found = Matches { files: Some(strings(&["a.txt", "-", "b.txt"])), number: false, number_nonblank: true };
    let config = resolve(found).unwrap();
    assert_eq!(config.files, strings(&["a.txt", "-", "b.txt"]));
    assert!(!config.number_lines);
    assert!(config.number_nonblank_lines);
}

#[test]
fn resolve_without_sources_reads_stdin() {
    let none = resolve(Matches { files: None, number: true, number_nonblank: false }).unwrap();
    let empty = resolve(Matches { files: Some(Vec::new()), number: true, number_nonblank: false }).unwrap();
    let dash = resolve(Matches { files: Some(strings(&["-"])), number: true, number_nonblank: false }).unwrap();
    assert_eq!(dash.files, strings(&["-"]));
    assert_eq!(none, dash);
    assert_eq!(empty, dash);
}

#[test]
fn resolve_refuses_both_flags() {
    let both = Matches { files: Some(strings(&["a.txt"])), number: true, number_nonblank: true };
    assert_eq!(resolve(both), Err(UsageError::ConflictingFlags));
    let both = Matches { files: None, number: true, number_nonblank: true };
    assert_eq!(resolve(both), Err(UsageError::ConflictingFlags));
}

#[test]
fn resolve_accepts_each_flag_alone_and_none() {
    for (number, number_nonblank) in [(false, false), (true, false), (false, true)] {
        let config = resolve(Matches { files: None, number, number_nonblank }).unwrap();
        assert_eq!(config.number_lines, number);
        assert_eq!(config.number_nonblank_lines, number_nonblank);
        assert!(!config.files.is_empty());
    }
}

#[test]
fn flags_select_the_numbering() {
    assert_eq!(config(false, false).numbering(), Numbering::Off);
    assert_eq!(config(true, false).numbering(), Numbering::AllLines);
    assert_eq!(config(false, true).numbering(), Numbering::NonBlankLines);
    assert_eq!(config(true, true).numbering(), Numbering::AllLines);
}

#[test]
fn conflicting_flags_are_a_complaint() {
    let error = UsageError::ConflictingFlags;
    assert!(error.to_stderr());
    assert_eq!(error.exit_code(), 1);
    assert_eq!(error.message(), "The argument '--number' cannot be used with '--number-nonblank'");
}

#[test]
fn a_rejection_says_what_it_was_given() {
    let complaint = UsageError::Rejected { message: "no such flag".to_string(), to_stderr: true };
    assert_eq!(complaint.message(), "no such flag");
    assert!(complaint.to_stderr());
    assert_eq!(complaint.exit_code(), 1);
    let answer = UsageError::Rejected { message: "catr 0.1.0".to_string(), to_stderr: false };
    assert_eq!(answer.message(), "catr 0.1.0");
    assert!(!answer.to_stderr());
    assert_eq!(answer.exit_code(), 0);
}
