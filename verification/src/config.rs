//! The configuration of a run, and how it is settled from what was found on
//! the command line.

use crate::numbering::Numbering;
use vstd::prelude::*;

verus! {

/// The name that stands for standard input in a list of sources.
pub const STDIN_NAME: &'static str = "-";

/// What a run is asked to do: the sources to copy, in order, and which of
/// their lines to number.
#[derive(Debug, PartialEq, Eq)]
pub struct Config {
    /// The sources, each a path or `STDIN_NAME`.
    pub files: Vec<String>,
    /// Number every line.
    pub number_lines: bool,
    /// Number the lines that are not blank.
    pub number_nonblank_lines: bool,
}

/// A `Config` as plain values.
pub struct ConfigView {
    pub files: Seq<Seq<char>>,
    pub number_lines: bool,
    pub number_nonblank_lines: bool,
}

impl ConfigView {
    /// There is at least one source, and at most one numbering flag is set.
    pub open spec fn wf(self) -> bool {
        &&& self.files.len() >= 1
        &&& !(self.number_lines && self.number_nonblank_lines)
    }

    /// The numbering policy that the two flags select. Numbering every line
    /// wins where both are set, which `wf` rules out.
    pub open spec fn numbering(self) -> Numbering {
        if self.number_lines {
            Numbering::AllLines
        } else if self.number_nonblank_lines {
            Numbering::NonBlankLines
        } else {
            Numbering::Off
        }
    }
}

impl View for Config {
    type V = ConfigView;

    open spec fn view(&self) -> ConfigView {
        ConfigView {
            files: self.files.deep_view(),
            number_lines: self.number_lines,
            number_nonblank_lines: self.number_nonblank_lines,
        }
    }
}

impl Config {
    /// The configuration keeps its invariant.
    pub open spec fn wf(&self) -> bool {
        self@.wf()
    }

    /// The numbering policy of this configuration.
    pub fn numbering(&self) -> (mode: Numbering)
        ensures
            mode == self@.numbering(),
    {
        if self.number_lines {
            Numbering::AllLines
        } else if self.number_nonblank_lines {
            Numbering::NonBlankLines
        } else {
            Numbering::Off
        }
    }
}

/// What was found on a command line: the sources, if any were found, and
/// whether each numbering flag was present.
#[derive(Debug, PartialEq, Eq)]
pub struct Matches {
    pub files: Option<Vec<String>>,
    pub number: bool,
    pub number_nonblank: bool,
}

/// A `Matches` as plain values.
pub struct MatchesView {
    pub files: Option<Seq<Seq<char>>>,
    pub number: bool,
    pub number_nonblank: bool,
}

impl View for Matches {
    type V = MatchesView;

    open spec fn view(&self) -> MatchesView {
        MatchesView {
            files: match self.files {
                Some(files) => Some(files.deep_view()),
                None => None,
            },
            number: self.number,
            number_nonblank: self.number_nonblank,
        }
    }
}

/// Why a command line gave no configuration.
#[derive(Debug, PartialEq, Eq)]
pub enum UsageError {
    /// Both numbering flags were present.
    ConflictingFlags,
    /// The command-line parser turned the line down, or answered it itself
    /// (help, version). `message` is what it has to say, which is nothing
    /// where it has said it already; `to_stderr` tells whether that is a
    /// complaint, for standard error, or an answer, for standard output.
    Rejected { message: String, to_stderr: bool },
}

/// A `UsageError` as plain values.
pub enum UsageErrorView {
    ConflictingFlags,
    Rejected { message: Seq<char>, to_stderr: bool },
}

impl UsageErrorView {
    /// The text to show the user.
    pub open spec fn message(self) -> Seq<char> {
        match self {
            UsageErrorView::ConflictingFlags =>
                "The argument '--number' cannot be used with '--number-nonblank'"@,
            UsageErrorView::Rejected { message, .. } => message,
        }
    }

    /// Whether the message belongs on standard error; if not, on standard
    /// output.
    pub open spec fn to_stderr(self) -> bool {
        match self {
            UsageErrorView::ConflictingFlags => true,
            UsageErrorView::Rejected { to_stderr, .. } => to_stderr,
        }
    }

    /// The exit status of a process that stops on this error: 1 for a
    /// complaint, 0 for an answer.
    pub open spec fn exit_code(self) -> int {
        if self.to_stderr() {
            1
        } else {
            0
        }
    }
}

impl View for UsageError {
    type V = UsageErrorView;

    open spec fn view(&self) -> UsageErrorView {
        match self {
            UsageError::ConflictingFlags => UsageErrorView::ConflictingFlags,
            UsageError::Rejected { message, to_stderr } => UsageErrorView::Rejected {
                message: message@,
                to_stderr: *to_stderr,
            },
        }
    }
}

impl UsageError {
    /// The text to show the user.
    pub fn message(&self) -> (text: String)
        ensures
            text@ == self@.message(),
    {
        match self {
            UsageError::ConflictingFlags => String::from_str(
                "The argument '--number' cannot be used with '--number-nonblank'",
            ),
            UsageError::Rejected { message, .. } => message.clone(),
        }
    }

    /// Whether the message belongs on standard error.
    pub fn to_stderr(&self) -> (complaint: bool)
        ensures
            complaint == self@.to_stderr(),
    {
        match self {
            UsageError::ConflictingFlags => true,
            UsageError::Rejected { to_stderr, .. } => *to_stderr,
        }
    }

    /// The exit status of a process that stops on this error.
    pub fn exit_code(&self) -> (code: i32)
        ensures
            code == self@.exit_code(),
    {
        if self.to_stderr() {
            1
        } else {
            0
        }
    }
}

/// The sources of a run: those that were found, or standard input alone
/// where none was.
pub open spec fn sources_or_stdin(files: Option<Seq<Seq<char>>>) -> Seq<Seq<char>> {
    match files {
        Some(found) if found.len() > 0 => found,
        _ => seq![STDIN_NAME@],
    }
}

/// The configuration that `found` settles, or the reason why it settles none.
pub open spec fn resolved(found: MatchesView) -> Result<ConfigView, UsageErrorView> {
    if found.number && found.number_nonblank {
        Err(UsageErrorView::ConflictingFlags)
    } else {
        Ok(
            ConfigView {
                files: sources_or_stdin(found.files),
                number_lines: found.number,
                number_nonblank_lines: found.number_nonblank,
            },
        )
    }
}

/// Settles the configuration from what was found on the command line.
///
/// The two numbering flags exclude each other. Where no source was found,
/// standard input is the only source.
pub fn resolve(found: Matches) -> (result: Result<Config, UsageError>)
    ensures
        match resolved(found@) {
            Ok(settled) => result matches Ok(config) && config@ == settled,
            Err(reason) => result matches Err(error) && error@ == reason,
        },
        result matches Ok(config) ==> config.wf(),
{
    if found.number && found.number_nonblank {
        return Err(UsageError::ConflictingFlags);
    }
    let files = match found.files {
        Some(files) => {
            if files.len() > 0 {
                files
            } else {
                stdin_alone()
            }
        },
        None => stdin_alone(),
    };
    Ok(Config { files, number_lines: found.number, number_nonblank_lines: found.number_nonblank })
}

/// The list of sources that holds standard input and nothing else.
fn stdin_alone() -> (files: Vec<String>)
    ensures
        files.deep_view() == seq![STDIN_NAME@],
{
    vec![String::from_str(STDIN_NAME)]
}

} // verus!
