//! The output writer: an ordered sequence of indented lines, with a cursor
//! for the current indentation level. The writer is the only mutable state
//! of a generation run; it is owned by one run and discarded after.

use vstd::prelude::*;

verus! {

/// One output line: an indentation level and its text.
#[derive(Debug, Clone, PartialEq, Eq)]
pub struct Line {
    /// The indentation level, in steps.
    pub indent: usize,
    /// The line's text, without leading indentation.
    pub text: String,
}

impl View for Line {
    type V = (nat, Seq<char>);

    open spec fn view(&self) -> (nat, Seq<char>) {
        (self.indent as nat, self.text@)
    }
}

/// The view of a sequence of lines: each line as (indentation, text).
pub open spec fn doc_view(lines: Seq<Line>) -> Seq<(nat, Seq<char>)> {
    lines.map_values(|l: Line| l@)
}

/// The writer: emitted lines plus the current indentation level.
pub struct IndentWriter {
    /// The lines emitted so far.
    pub lines: Vec<Line>,
    /// The current indentation level.
    pub indent: usize,
}

impl IndentWriter {
    /// The document written so far, as (indentation, text) pairs.
    pub open spec fn doc(&self) -> Seq<(nat, Seq<char>)> {
        doc_view(self.lines@)
    }

    /// A fresh writer: no lines, no indentation.
    pub fn new() -> (r: IndentWriter)
        ensures
            r.doc() == Seq::<(nat, Seq<char>)>::empty(),
            r.indent == 0,
    {
        let r = IndentWriter { lines: Vec::new(), indent: 0 };
        proof {
            assert(r.doc() =~= Seq::<(nat, Seq<char>)>::empty());
        }
        r
    }

    /// Steps the indentation level one deeper.
    pub fn indent(&mut self)
        requires
            old(self).indent < usize::MAX,
        ensures
            final(self).indent == old(self).indent + 1,
            final(self).doc() == old(self).doc(),
    {
        self.indent = self.indent + 1;
    }

    /// Steps the indentation level one back out; already-flat output stays
    /// flat.
    pub fn unindent(&mut self)
        ensures
            final(self).indent == if old(self).indent > 0 {
                (old(self).indent - 1) as usize
            } else {
                0usize
            },
            final(self).doc() == old(self).doc(),
    {
        if self.indent > 0 {
            self.indent = self.indent - 1;
        }
    }

    /// Emits one empty line at the current indentation.
    pub fn newline(&mut self)
        ensures
            final(self).indent == old(self).indent,
            final(self).doc() == old(self).doc().push(
                (old(self).indent as nat, Seq::<char>::empty()),
            ),
    {
        let indent = self.indent;
        self.lines.push(Line { indent, text: String::new() });
        proof {
            assert(self.doc() =~= old(self).doc().push(
                (old(self).indent as nat, Seq::<char>::empty()),
            ));
        }
    }

    /// Emits one line of text at the current indentation.
    pub fn line(&mut self, text: String)
        ensures
            final(self).indent == old(self).indent,
            final(self).doc() == old(self).doc().push((old(self).indent as nat, text@)),
    {
        let indent = self.indent;
        self.lines.push(Line { indent, text });
        proof {
            assert(self.doc() =~= old(self).doc().push((old(self).indent as nat, text@)));
        }
    }
}

} // verus!
