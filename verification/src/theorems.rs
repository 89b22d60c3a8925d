//! What holds of every run, stated over the models that the contracts use.

use crate::config::{resolved, ConfigView, MatchesView, UsageErrorView, STDIN_NAME};
use crate::format::decimal;
use crate::numbering::{
    index_field, numbered_among, written, written_line, Numbering, INDEX_WIDTH,
};
use crate::run::{first_break, kind_of, outcome, reached, SourceInputView, SourceKind};
use vstd::prelude::*;
use vstd::seq_lib::lemma_flatten_concat;

verus! {

/// Each of `lines` followed by a newline, one after the other.
pub open spec fn newline_terminated(lines: Seq<Seq<char>>) -> Seq<char> {
    lines.map_values(|line: Seq<char>| line.push('\n')).flatten()
}

/// The lines of those of `inputs` that open, in the order of `inputs`.
pub open spec fn opened_lines(inputs: Seq<SourceInputView>) -> Seq<Seq<char>> {
    inputs.filter(|input: SourceInputView| input is Opened).map_values(
        |input: SourceInputView| input->lines,
    ).flatten()
}

/// Without numbering, what is written for a source is its lines, each
/// followed by a newline.
pub proof fn lemma_unnumbered_source_is_copied(lines: Seq<Seq<char>>)
    ensures
        written(Numbering::Off, lines) == newline_terminated(lines),
{
    assert(Seq::new(lines.len(), |i: int| written_line(Numbering::Off, lines, i))
        =~= lines.map_values(|line: Seq<char>| line.push('\n')));
}

/// The newline-terminated text of two lists of lines, one after the other,
/// is the text of the first followed by the text of the second.
pub proof fn lemma_newline_terminated_concat(first: Seq<Seq<char>>, second: Seq<Seq<char>>)
    ensures
        newline_terminated(first + second) == newline_terminated(first) + newline_terminated(
            second,
        ),
{
    let end = |line: Seq<char>| line.push('\n');
    assert((first + second).map_values(end) =~= first.map_values(end) + second.map_values(end));
    lemma_flatten_concat(first.map_values(end), second.map_values(end));
}

/// One more input adds its lines to the opened lines if it opens, and
/// nothing if it does not.
pub proof fn lemma_opened_lines_push(inputs: Seq<SourceInputView>, input: SourceInputView)
    ensures
        opened_lines(inputs.push(input)) == opened_lines(inputs) + (if input is Opened {
            input->lines
        } else {
            Seq::empty()
        }),
{
    let opens = |input: SourceInputView| input is Opened;
    let lines = |input: SourceInputView| input->lines;
    inputs.lemma_filter_push(input, opens);
    if input is Opened {
        assert(inputs.filter(opens).push(input).map_values(lines) =~= inputs.filter(
            opens,
        ).map_values(lines).push(input->lines));
        inputs.filter(opens).map_values(lines).lemma_flatten_push(input->lines);
    }
}

/// Without numbering, what the first `n` sources add to standard output is
/// the lines of those among them that open, each followed by a newline.
pub proof fn lemma_unnumbered_prefix(inputs: Seq<SourceInputView>, n: int)
    requires
        0 <= n <= inputs.len(),
    ensures
        Seq::new(n as nat, |i: int| inputs[i].stdout(Numbering::Off)).flatten()
            == newline_terminated(opened_lines(inputs.take(n))),
    decreases n,
{
    let parts = Seq::new(n as nat, |i: int| inputs[i].stdout(Numbering::Off));
    if n == 0 {
    } else {
        let last = inputs[n - 1];
        let added = if last is Opened {
            last->lines
        } else {
            Seq::empty()
        };
        let earlier = Seq::new((n - 1) as nat, |i: int| inputs[i].stdout(Numbering::Off));
        lemma_unnumbered_prefix(inputs, n - 1);
        assert(parts =~= earlier.push(last.stdout(Numbering::Off)));
        earlier.lemma_flatten_push(last.stdout(Numbering::Off));
        assert(inputs.take(n) =~= inputs.take(n - 1).push(last));
        lemma_opened_lines_push(inputs.take(n - 1), last);
        lemma_newline_terminated_concat(opened_lines(inputs.take(n - 1)), added);
        if last is Opened {
            lemma_unnumbered_source_is_copied(last->lines);
        }
    }
}

/// With neither numbering flag set, standard output is the lines of the
/// sources, each followed by a newline, in the order the sources are listed,
/// without the sources that cannot be opened. The sources are those that the
/// run turns to: all of them where no reading breaks off.
pub proof fn lemma_unnumbered_run_copies_verbatim(
    config: ConfigView,
    inputs: Seq<SourceInputView>,
)
    requires
        !config.number_lines,
        !config.number_nonblank_lines,
    ensures
        outcome(config, inputs).stdout == newline_terminated(
            opened_lines(inputs.take(reached(inputs))),
        ),
        first_break(inputs) is None ==> outcome(config, inputs).stdout == newline_terminated(
            opened_lines(inputs),
        ),
{
    lemma_unnumbered_prefix(inputs, reached(inputs));
    if first_break(inputs) is None {
        assert(inputs.take(inputs.len() as int) =~= inputs);
    }
}

/// The field in front of a numbered line ends in a tab and is never
/// narrower than `INDEX_WIDTH` characters before it. Up to 999999 it is
/// exactly that wide; a longer number takes the room that it needs.
pub proof fn lemma_index_field_width(index: nat)
    ensures
        index_field(index).last() == '\t',
        index_field(index).len() >= INDEX_WIDTH + 1,
        index < 1_000_000 ==> index_field(index).len() == INDEX_WIDTH + 1,
        index >= 1_000_000 ==> index_field(index) == decimal(index).push('\t'),
{
    reveal_with_fuel(decimal, 7);
}

/// What is written for a line is settled by the lines up to and including
/// it: no line that follows changes it. So a source can be copied line by
/// line as it is read.
pub proof fn lemma_written_line_prefix(
    mode: Numbering,
    lines: Seq<Seq<char>>,
    other: Seq<Seq<char>>,
    i: int,
)
    requires
        0 <= i < lines.len(),
        i < other.len(),
        lines.take(i + 1) == other.take(i + 1),
    ensures
        written_line(mode, lines, i) == written_line(mode, other, i),
{
    assert(other[i] == other.take(i + 1)[i]);
}

/// Where every line is numbered, as many lines are numbered as there are.
pub proof fn lemma_all_lines_are_numbered(lines: Seq<Seq<char>>)
    ensures
        numbered_among(Numbering::AllLines, lines) == lines.len(),
    decreases lines.len(),
{
    reveal(Seq::filter);
    if lines.len() > 0 {
        lemma_all_lines_are_numbered(lines.drop_last());
    }
}

/// Where every line is numbered, the `k`-th line of a source, counted from
/// 1 and blank lines included, is written with the number `k`.
pub proof fn lemma_every_line_carries_its_position(lines: Seq<Seq<char>>, k: int)
    requires
        1 <= k <= lines.len(),
    ensures
        written_line(Numbering::AllLines, lines, k - 1) == (index_field(k as nat) + lines[k
            - 1]).push('\n'),
{
    lemma_all_lines_are_numbered(lines.take(k));
}

/// The lines that are numbered where blank lines are not are those that hold
/// a character.
pub proof fn lemma_nonblank_are_numbered(lines: Seq<Seq<char>>)
    ensures
        numbered_among(Numbering::NonBlankLines, lines) == lines.filter(
            |line: Seq<char>| line.len() > 0,
        ).len(),
    decreases lines.len(),
{
    reveal(Seq::filter);
    if lines.len() > 0 {
        lemma_nonblank_are_numbered(lines.drop_last());
    }
}

/// Where blank lines are not numbered, a blank line is written as a newline
/// and nothing else, and a line that is not blank is written with the count
/// of the lines that are not blank, from the first line of the source up to
/// and including it.
pub proof fn lemma_nonblank_lines_carry_their_count(lines: Seq<Seq<char>>, i: int)
    requires
        0 <= i < lines.len(),
    ensures
        lines[i].len() == 0 ==> written_line(Numbering::NonBlankLines, lines, i) == seq!['\n'],
        lines[i].len() > 0 ==> written_line(Numbering::NonBlankLines, lines, i) == (index_field(
            lines.take(i + 1).filter(|line: Seq<char>| line.len() > 0).len(),
        ) + lines[i]).push('\n'),
{
    lemma_nonblank_are_numbered(lines.take(i + 1));
}

/// A command line on which both numbering flags are found settles no
/// configuration, whatever else is found on it. The error is a complaint:
/// its message goes to standard error, none of it to standard output, and
/// the exit status is not 0.
pub proof fn lemma_both_flags_settle_nothing(files: Option<Seq<Seq<char>>>)
    ensures
        resolved(MatchesView { files, number: true, number_nonblank: true }) == Err::<
            ConfigView,
            UsageErrorView,
        >(UsageErrorView::ConflictingFlags),
        UsageErrorView::ConflictingFlags.to_stderr(),
        UsageErrorView::ConflictingFlags.exit_code() != 0,
{
}

/// A configuration that was settled keeps the invariant: it lists a source,
/// and its two numbering flags are not both set.
pub proof fn lemma_settled_is_well_formed(found: MatchesView)
    ensures
        resolved(found) matches Ok(config) ==> config.wf(),
{
}

/// A command line on which no source is found settles what it would settle
/// with the name of standard input as its only source; and a run then turns
/// to standard input and to nothing else.
pub proof fn lemma_no_source_means_stdin(number: bool, number_nonblank: bool)
    ensures
        resolved(MatchesView { files: None, number, number_nonblank }) == resolved(
            MatchesView { files: Some(seq![STDIN_NAME@]), number, number_nonblank },
        ),
        resolved(MatchesView { files: Some(Seq::empty()), number, number_nonblank }) == resolved(
            MatchesView { files: Some(seq![STDIN_NAME@]), number, number_nonblank },
        ),
        resolved(MatchesView { files: None, number, number_nonblank }) matches Ok(config) ==> {
            &&& config.files.len() == 1
            &&& kind_of(config.files[0]) == SourceKind::Stdin
        },
{
}

} // verus!
