//! The transcript: the lines emitted so far, in order, and their text.

use vstd::prelude::*;
use vstd::string::StringExecFns;
use crate::operation::Operation;

verus! {

/// The text of a transcript: each line's label, followed by a line feed.
pub open spec fn rendered(lines: Seq<Operation>) -> Seq<char>
    decreases lines.len(),
{
    if lines.len() == 0 {
        Seq::empty()
    } else {
        rendered(lines.drop_last()) + lines.last().label() + seq!['\n']
    }
}

/// The text of a transcript that holds one line is that line's label and a
/// line feed.
pub proof fn lemma_rendered_single(op: Operation)
    ensures
        rendered(seq![op]) == op.label() + seq!['\n'],
{
    let one = seq![op];
    assert(one.drop_last() == Seq::<Operation>::empty());
    assert(rendered(one.drop_last()) == Seq::<char>::empty());
    assert(rendered(one) == Seq::<char>::empty() + op.label() + seq!['\n']);
    assert(Seq::<char>::empty() + op.label() == op.label());
}

/// The text of two transcripts, one after the other, is the text of the
/// first followed by the text of the second.
pub proof fn lemma_rendered_concat(head: Seq<Operation>, tail: Seq<Operation>)
    ensures
        rendered(head + tail) == rendered(head) + rendered(tail),
    decreases tail.len(),
{
    if tail.len() == 0 {
        assert(head + tail == head);
        assert(rendered(head) + rendered(tail) == rendered(head));
    } else {
        let all = head + tail;
        assert(all.drop_last() == head + tail.drop_last());
        assert(all.last() == tail.last());
        lemma_rendered_concat(head, tail.drop_last());
        assert(rendered(all) == rendered(head) + rendered(tail.drop_last()) + tail.last().label()
            + seq!['\n']);
        assert(rendered(head) + rendered(tail.drop_last()) + tail.last().label() + seq!['\n']
            == rendered(head) + (rendered(tail.drop_last()) + tail.last().label() + seq!['\n']));
    }
}

/// The lines that the operations have emitted, oldest first.
pub struct Transcript {
    lines: Vec<Operation>,
}

impl View for Transcript {
    type V = Seq<Operation>;

    closed spec fn view(&self) -> Seq<Operation> {
        self.lines@
    }
}

impl Transcript {
    /// A transcript with no line in it.
    pub fn new() -> (empty: Transcript)
        ensures
            empty@ == Seq::<Operation>::empty(),
    {
        Transcript { lines: Vec::new() }
    }

    /// The number of lines.
    pub fn len(&self) -> (count: usize)
        ensures
            count == self@.len(),
    {
        self.lines.len()
    }

    /// Adds the line by which `op` announces itself at the end.
    pub fn record(&mut self, op: Operation)
        ensures
            final(self)@ == old(self)@.push(op),
    {
        self.lines.push(op);
    }

    /// The text of each line, without its line feed, oldest first.
    pub fn lines(&self) -> (texts: Vec<&'static str>)
        ensures
            texts@.len() == self@.len(),
            forall|i: int| 0 <= i < self@.len() ==> (#[trigger] texts@[i])@ == self@[i].label(),
    {
        let mut texts: Vec<&'static str> = Vec::new();
        let mut at: usize = 0;
        while at < self.lines.len()
            invariant
                at <= self.lines@.len(),
                texts@.len() == at,
                forall|i: int| 0 <= i < at ==> (#[trigger] texts@[i])@ == self.lines@[i].label(),
            decreases self.lines@.len() - at,
        {
            texts.push(self.lines[at].name());
            at += 1;
        }
        texts
    }

    /// The whole transcript as one text, as a stream would receive it: every
    /// line ends in a line feed.
    pub fn render(&self) -> (text: String)
        ensures
            text@ == rendered(self@),
    {
        let mut text = String::new();
        let mut at: usize = 0;
        proof {
            reveal_strlit("\n");
        }
        while at < self.lines.len()
            invariant
                at <= self.lines@.len(),
                text@ == rendered(self.lines@.take(at as int)),
                "\n"@ == seq!['\n'],
            decreases self.lines@.len() - at,
        {
            proof {
                let next = self.lines@.take(at + 1);
                assert(next.drop_last() == self.lines@.take(at as int));
                assert(next.last() == self.lines@[at as int]);
            }
            text.append(self.lines[at].name());
            text.append("\n");
            at += 1;
        }
        proof {
            assert(self.lines@.take(at as int) == self.lines@);
        }
        text
    }
}

} // verus!
