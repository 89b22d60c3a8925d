//! Numbering policies, and the counter that numbers the lines of one source.

use crate::format::{decimal, decimal_string, right_align, right_aligned};
use vstd::prelude::*;

verus! {

/// Which lines of a source are numbered.
#[derive(Clone, Copy, Debug, PartialEq, Eq)]
pub enum Numbering {
    /// No line is numbered.
    Off,
    /// Every line is numbered, blank or not.
    AllLines,
    /// Every line that holds at least one character is numbered.
    NonBlankLines,
}

impl Numbering {
    /// Whether `line` is given a number under this policy.
    pub open spec fn numbers(self, line: Seq<char>) -> bool {
        match self {
            Numbering::Off => false,
            Numbering::AllLines => true,
            Numbering::NonBlankLines => line.len() > 0,
        }
    }
}

/// The width of the field that holds a line's number.
pub const INDEX_WIDTH: usize = 6;

/// What stands in front of a numbered line: the number, right-aligned in a
/// field of `INDEX_WIDTH` characters, and a tab.
pub open spec fn index_field(index: nat) -> Seq<char> {
    right_aligned(decimal(index), INDEX_WIDTH as nat).push('\t')
}

/// How many of `lines` are numbered under `mode`.
pub open spec fn numbered_among(mode: Numbering, lines: Seq<Seq<char>>) -> nat {
    lines.filter(|line: Seq<char>| mode.numbers(line)).len()
}

/// The number that line `i` of a source carries if it is numbered: the count
/// of numbered lines from the start of the source up to and including it.
pub open spec fn line_index(mode: Numbering, lines: Seq<Seq<char>>, i: int) -> nat
    recommends
        0 <= i < lines.len(),
{
    numbered_among(mode, lines.take(i + 1))
}

/// What is written for line `i` of a source, newline included.
pub open spec fn written_line(mode: Numbering, lines: Seq<Seq<char>>, i: int) -> Seq<char>
    recommends
        0 <= i < lines.len(),
{
    if mode.numbers(lines[i]) {
        (index_field(line_index(mode, lines, i)) + lines[i]).push('\n')
    } else {
        lines[i].push('\n')
    }
}

/// What is written for a whole source: its lines in order, each as
/// `written_line` gives it.
pub open spec fn written(mode: Numbering, lines: Seq<Seq<char>>) -> Seq<char> {
    Seq::new(lines.len(), |i: int| written_line(mode, lines, i)).flatten()
}

/// One more line at the end of a source adds its own text at the end of what
/// is written, and changes nothing before it.
pub proof fn lemma_written_push(mode: Numbering, lines: Seq<Seq<char>>, line: Seq<char>)
    ensures
        written(mode, lines.push(line)) == written(mode, lines) + written_line(
            mode,
            lines.push(line),
            lines.len() as int,
        ),
{
    let longer = lines.push(line);
    let before = Seq::new(lines.len(), |i: int| written_line(mode, lines, i));
    let after = Seq::new(longer.len(), |i: int| written_line(mode, longer, i));
    assert forall|i: int| 0 <= i < lines.len() implies after[i] == before[i] by {
        assert(longer.take(i + 1) =~= lines.take(i + 1));
    }
    assert(after =~= before.push(written_line(mode, longer, lines.len() as int)));
    before.lemma_flatten_push(written_line(mode, longer, lines.len() as int));
}

/// Writes the field that stands in front of the line numbered `index`.
pub fn index_field_string(index: u64) -> (field: String)
    ensures
        field@ == index_field(index as nat),
{
    let digits = decimal_string(index);
    let mut field = right_align(digits.as_str(), INDEX_WIDTH);
    proof {
        reveal_strlit("\t");
    }
    field.append("\t");
    field
}

/// The state of one source while its lines are copied: the policy, and how
/// many lines have been numbered so far. A new source starts with a new
/// counter.
pub struct LineNumberer {
    mode: Numbering,
    numbered: u64,
    seen: Ghost<Seq<Seq<char>>>,
}

impl LineNumberer {
    #[verifier::type_invariant]
    spec fn counts_what_it_saw(self) -> bool {
        self.numbered == numbered_among(self.mode, self.seen@)
    }

    /// The policy that this counter follows.
    pub closed spec fn mode(self) -> Numbering {
        self.mode
    }

    /// The lines of the source that were handed to `emit` so far, in order.
    pub closed spec fn seen(self) -> Seq<Seq<char>> {
        self.seen@
    }

    /// Whether the counter can still number a line.
    pub open spec fn has_room(self) -> bool {
        numbered_among(self.mode(), self.seen()) < u64::MAX
    }

    /// A counter for a source of which no line was read yet.
    pub fn new(mode: Numbering) -> (fresh: Self)
        ensures
            fresh.mode() == mode,
            fresh.seen() == Seq::<Seq<char>>::empty(),
    {
        LineNumberer { mode, numbered: 0, seen: Ghost(Seq::empty()) }
    }

    /// Tells at run time whether `emit` may be called once more, whatever
    /// the line.
    pub fn can_emit(&self) -> (room: bool)
        ensures
            room == self.has_room(),
    {
        proof {
            use_type_invariant(self);
        }
        self.numbered < u64::MAX
    }

    /// Takes the next line of the source and returns the text to write for
    /// it, newline included. A line that is to be numbered needs room in the
    /// counter.
    pub fn emit(&mut self, line: &str) -> (text: String)
        requires
            old(self).mode().numbers(line@) ==> old(self).has_room(),
        ensures
            final(self).mode() == old(self).mode(),
            final(self).seen() == old(self).seen().push(line@),
            text@ == written_line(
                old(self).mode(),
                old(self).seen().push(line@),
                old(self).seen().len() as int,
            ),
    {
        proof {
            use_type_invariant(&*self);
            reveal_strlit("\n");
        }
        let ghost before = self.seen@;
        let ghost after = before.push(line@);
        let mode = self.mode;
        let takes_number = match mode {
            Numbering::Off => false,
            Numbering::AllLines => true,
            Numbering::NonBlankLines => !line.is_empty(),
        };
        proof {
            before.lemma_filter_push(line@, |l: Seq<char>| mode.numbers(l));
            assert(after.take(before.len() as int + 1) =~= after);
        }
        let mut count = self.numbered;
        let mut text = String::new();
        if takes_number {
            count = count + 1;
            text = index_field_string(count);
        }
        text.append(line);
        text.append("\n");
        *self = LineNumberer { mode, numbered: count, seen: Ghost(after) };
        text
    }
}

/// Copies a whole source that is held in memory: the text written for its
/// lines, in order, under `mode`.
pub fn copy_source(mode: Numbering, lines: &Vec<String>) -> (text: String)
    ensures
        text@ == written(mode, lines.deep_view()),
{
    let ghost source = lines.deep_view();
    let mut numberer = LineNumberer::new(mode);
    let mut text = String::new();
    let mut i: usize = 0;
    while i < lines.len()
        invariant
            i <= lines.len(),
            source == lines.deep_view(),
            numberer.mode() == mode,
            numberer.seen() == source.take(i as int),
            text@ == written(mode, source.take(i as int)),
        decreases lines.len() - i,
    {
        proof {
            source.take(i as int).lemma_filter_len(|line: Seq<char>| mode.numbers(line));
            assert(source.take(i as int + 1) =~= source.take(i as int).push(source[i as int]));
            lemma_written_push(mode, source.take(i as int), source[i as int]);
        }
        let line = numberer.emit(lines[i].as_str());
        text.append(line.as_str());
        i = i + 1;
    }
    assert(source.take(i as int) =~= source);
    text
}

} // verus!
