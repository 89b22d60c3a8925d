//! A whole run: the sources in the order they are listed, what each adds to
//! standard output and standard error, and where the run stops.

use crate::config::{Config, ConfigView, STDIN_NAME};
use crate::numbering::{copy_source, written, Numbering};
use vstd::prelude::*;

verus! {

/// What a source's name stands for.
#[derive(Clone, Copy, Debug, PartialEq, Eq)]
pub enum SourceKind {
    /// The standard input of the process.
    Stdin,
    /// A file, at the path that the name gives.
    File,
}

/// `STDIN_NAME` stands for standard input; every other name is a path.
pub open spec fn kind_of(name: Seq<char>) -> SourceKind {
    if name == STDIN_NAME@ {
        SourceKind::Stdin
    } else {
        SourceKind::File
    }
}

/// Tells what to open for the source called `name`.
pub fn source_kind(name: &str) -> (kind: SourceKind)
    ensures
        kind == kind_of(name@),
{
    proof {
        reveal_strlit("-");
    }
    if name.unicode_len() == 1 && name.get_char(0) == '-' {
        assert(name@ =~= STDIN_NAME@);
        SourceKind::Stdin
    } else {
        SourceKind::File
    }
}

/// The line that standard error gets for a source that could not be opened.
pub open spec fn open_failure_text(name: Seq<char>, cause: Seq<char>) -> Seq<char> {
    "Failed to open "@ + name + ": "@ + cause + "\n"@
}

/// Writes the line for standard error that tells that the source `name`
/// could not be opened, and why.
pub fn open_failure(name: &str, cause: &str) -> (text: String)
    ensures
        text@ == open_failure_text(name@, cause@),
{
    let mut text = String::from_str("Failed to open ");
    text.append(name);
    text.append(": ");
    text.append(cause);
    text.append("\n");
    text
}

/// What a run meets when it turns to one of its sources.
#[derive(Debug, PartialEq, Eq)]
pub enum SourceInput {
    /// The source cannot be opened; `cause` tells why.
    Unopened { cause: String },
    /// The source opens and gives `lines`. Where `failure` is set, reading
    /// breaks off after them, for the cause that it tells.
    Opened { lines: Vec<String>, failure: Option<String> },
}

/// A `SourceInput` as plain values.
pub enum SourceInputView {
    Unopened { cause: Seq<char> },
    Opened { lines: Seq<Seq<char>>, failure: Option<Seq<char>> },
}

impl View for SourceInput {
    type V = SourceInputView;

    open spec fn view(&self) -> SourceInputView {
        match self {
            SourceInput::Unopened { cause } => SourceInputView::Unopened { cause: cause@ },
            SourceInput::Opened { lines, failure } => SourceInputView::Opened {
                lines: lines.deep_view(),
                failure: match failure {
                    Some(cause) => Some(cause@),
                    None => None,
                },
            },
        }
    }
}

impl DeepView for SourceInput {
    type V = SourceInputView;

    open spec fn deep_view(&self) -> SourceInputView {
        self.view()
    }
}

impl SourceInputView {
    /// Whether reading this source breaks off.
    pub open spec fn breaks(self) -> bool {
        self matches SourceInputView::Opened { failure: Some(_), .. }
    }

    /// What this source adds to standard output: nothing if it cannot be
    /// opened, else what is written for the lines that it gives.
    pub open spec fn stdout(self, mode: Numbering) -> Seq<char> {
        match self {
            SourceInputView::Unopened { .. } => Seq::empty(),
            SourceInputView::Opened { lines, .. } => written(mode, lines),
        }
    }

    /// What this source, listed as `name`, adds to standard error: one line
    /// if it cannot be opened, else nothing.
    pub open spec fn stderr(self, name: Seq<char>) -> Seq<char> {
        match self {
            SourceInputView::Unopened { cause } => open_failure_text(name, cause),
            SourceInputView::Opened { .. } => Seq::empty(),
        }
    }
}

/// The read failure that ends a run.
#[derive(Debug, PartialEq, Eq)]
pub struct ReadError {
    /// The source, by the name it was listed with.
    pub source: String,
    /// What went wrong.
    pub cause: String,
}

/// A `ReadError` as plain values.
pub struct ReadErrorView {
    pub source: Seq<char>,
    pub cause: Seq<char>,
}

impl View for ReadError {
    type V = ReadErrorView;

    open spec fn view(&self) -> ReadErrorView {
        ReadErrorView { source: self.source@, cause: self.cause@ }
    }
}

/// What a run leaves behind.
#[derive(Debug, PartialEq, Eq)]
pub struct RunOutput {
    /// All that was written to standard output.
    pub stdout: String,
    /// All that was written to standard error.
    pub stderr: String,
    /// The read failure that ended the run, if one did.
    pub failure: Option<ReadError>,
}

/// A `RunOutput` as plain values.
pub struct RunOutputView {
    pub stdout: Seq<char>,
    pub stderr: Seq<char>,
    pub failure: Option<ReadErrorView>,
}

impl RunOutputView {
    /// The exit status of the process: 0 where every source was turned to,
    /// 1 where a read failure ended the run.
    pub open spec fn exit_code(self) -> int {
        if self.failure is Some {
            1
        } else {
            0
        }
    }
}

impl View for RunOutput {
    type V = RunOutputView;

    open spec fn view(&self) -> RunOutputView {
        RunOutputView {
            stdout: self.stdout@,
            stderr: self.stderr@,
            failure: match self.failure {
                Some(failure) => Some(failure@),
                None => None,
            },
        }
    }
}

impl RunOutput {
    /// The exit status of the process.
    pub fn exit_code(&self) -> (code: i32)
        ensures
            code == self@.exit_code(),
    {
        if self.failure.is_some() {
            1
        } else {
            0
        }
    }
}

/// Source `i` is the first whose reading breaks off.
pub open spec fn is_first_break(inputs: Seq<SourceInputView>, i: int) -> bool {
    &&& 0 <= i < inputs.len()
    &&& inputs[i].breaks()
    &&& forall|j: int| 0 <= j < i ==> !(#[trigger] inputs[j]).breaks()
}

/// The first source whose reading breaks off, if there is one.
pub open spec fn first_break(inputs: Seq<SourceInputView>) -> Option<int> {
    if exists|i: int| is_first_break(inputs, i) {
        Some(choose|i: int| is_first_break(inputs, i))
    } else {
        None
    }
}

/// How many sources a run turns to: all of them, or those up to and
/// including the first whose reading breaks off.
pub open spec fn reached(inputs: Seq<SourceInputView>) -> int {
    match first_break(inputs) {
        Some(i) => i + 1,
        None => inputs.len() as int,
    }
}

/// Standard output after a run: what the sources that it turned to add, in
/// the order they are listed.
pub open spec fn stdout_of(mode: Numbering, inputs: Seq<SourceInputView>) -> Seq<char> {
    Seq::new(reached(inputs) as nat, |i: int| inputs[i].stdout(mode)).flatten()
}

/// Standard error after a run: one line for each source that it turned to
/// and could not open, in the order they are listed.
pub open spec fn stderr_of(names: Seq<Seq<char>>, inputs: Seq<SourceInputView>) -> Seq<char> {
    Seq::new(reached(inputs) as nat, |i: int| inputs[i].stderr(names[i])).flatten()
}

/// The read failure that ends a run, if one does.
pub open spec fn failure_of(names: Seq<Seq<char>>, inputs: Seq<SourceInputView>) -> Option<
    ReadErrorView,
> {
    match first_break(inputs) {
        Some(i) => Some(ReadErrorView { source: names[i], cause: inputs[i]->failure->0 }),
        None => None,
    }
}

/// What a run under `config` leaves behind when its sources, in the order
/// `config` lists them, behave as `inputs` say.
pub open spec fn outcome(config: ConfigView, inputs: Seq<SourceInputView>) -> RunOutputView {
    RunOutputView {
        stdout: stdout_of(config.numbering(), inputs),
        stderr: stderr_of(config.files, inputs),
        failure: failure_of(config.files, inputs),
    }
}

/// The first break of a sequence of inputs is the only one.
pub proof fn lemma_first_break_is(inputs: Seq<SourceInputView>, i: int)
    requires
        is_first_break(inputs, i),
    ensures
        first_break(inputs) == Some(i),
{
}

/// Runs on sources that are held in memory: `inputs[i]` tells how the
/// source `config.files[i]` behaves. The sources are taken in order. One that
/// cannot be opened gets a line on standard error, and the run goes on. One
/// whose reading breaks off ends the run, after the lines that it gave.
pub fn run(config: &Config, inputs: &Vec<SourceInput>) -> (output: RunOutput)
    requires
        inputs.len() == config.files.len(),
    ensures
        output@ == outcome(config@, inputs.deep_view()),
{
    let ghost names = config@.files;
    let ghost views = inputs.deep_view();
    let mode = config.numbering();
    let mut stdout = String::new();
    let mut stderr = String::new();
    let mut i: usize = 0;
    while i < inputs.len()
        invariant
            i <= inputs.len(),
            inputs.len() == config.files.len(),
            names == config@.files,
            views == inputs.deep_view(),
            mode == config@.numbering(),
            forall|j: int| 0 <= j < i ==> !(#[trigger] views[j]).breaks(),
            stdout@ == Seq::new(i as nat, |j: int| views[j].stdout(mode)).flatten(),
            stderr@ == Seq::new(i as nat, |j: int| views[j].stderr(names[j])).flatten(),
        decreases inputs.len() - i,
    {
        let ghost out_before = Seq::new(i as nat, |j: int| views[j].stdout(mode));
        let ghost err_before = Seq::new(i as nat, |j: int| views[j].stderr(names[j]));
        proof {
            let out_after = Seq::new((i + 1) as nat, |j: int| views[j].stdout(mode));
            let err_after = Seq::new((i + 1) as nat, |j: int| views[j].stderr(names[j]));
            assert(out_after =~= out_before.push(views[i as int].stdout(mode)));
            assert(err_after =~= err_before.push(views[i as int].stderr(names[i as int])));
            out_before.lemma_flatten_push(views[i as int].stdout(mode));
            err_before.lemma_flatten_push(views[i as int].stderr(names[i as int]));
        }
        match &inputs[i] {
            SourceInput::Unopened { cause } => {
                let line = open_failure(config.files[i].as_str(), cause.as_str());
                stderr.append(line.as_str());
            },
            SourceInput::Opened { lines, failure } => {
                let text = copy_source(mode, lines);
                stdout.append(text.as_str());
                if let Some(cause) = failure {
                    proof {
                        lemma_first_break_is(views, i as int);
                    }
                    let failure = ReadError {
                        source: config.files[i].clone(),
                        cause: cause.clone(),
                    };
                    return RunOutput { stdout, stderr, failure: Some(failure) };
                }
            },
        }
        i = i + 1;
    }
    RunOutput { stdout, stderr, failure: None }
}

} // verus!
